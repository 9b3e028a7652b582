//! What holds of conversion and decoding taken together.

use crate::buffer::BufferModel;
use crate::layout::{
    complex_layout, lemma_exact_quotient, lemma_ratio_is, scalar_layout, ElemLayout,
};
use crate::samples::{complex_samples, scalars, word_at, ByteOrder, ComplexSample};
use vstd::prelude::*;

verus! {

/// A buffer handed over under another element type and then handed back
/// under its own is the buffer it was: the same bytes, the same length and
/// the same capacity.
pub proof fn lemma_round_trip(m: BufferModel, target: ElemLayout)
    requires
        m.convertible_to(target),
        m.converted(target).convertible_to(m.layout),
    ensures
        m.converted(target).converted(m.layout).bytes == m.bytes,
        m.converted(target).converted(m.layout) == m,
{
    let s = m.layout.size as int;
    let t = target.size as int;
    lemma_exact_quotient(t, s);
    lemma_exact_quotient(s, t);
    assert(s == t) by (nonlinear_arith)
        requires
            s > 0,
            t > 0,
            t / s >= 1,
            s / t >= 1,
            (t / s) * s == t,
            (s / t) * t == s,
    ;
    assert(s / s == 1) by (nonlinear_arith)
        requires
            s > 0,
    ;
    assert(m.layout.ratio(target) == 1);
    assert(target.ratio(m.layout) == 1);
    let k = m.layout.ratio(target);
    let back_k = target.ratio(m.layout);
    let len = m.len as int;
    let cap = m.cap as int;
    assert((len / k) / back_k == len && (cap / k) / back_k == cap) by (nonlinear_arith)
        requires
            k == 1,
            back_k == 1,
    ;
}

/// Handing a buffer over changes no byte, whatever the target.
pub proof fn lemma_bytes_kept(m: BufferModel, target: ElemLayout)
    ensures
        m.converted(target).bytes == m.bytes,
{
}

/// A buffer handed over spans the bytes it spanned before: its elements
/// take up as many bytes as they did, and so does its storage.
pub proof fn lemma_same_span(m: BufferModel, target: ElemLayout)
    requires
        m.convertible_to(target),
    ensures
        m.converted(target).len * target.size == m.len * m.layout.size,
        m.converted(target).cap * target.size == m.cap * m.layout.size,
{
    let k = m.layout.ratio(target);
    let size = m.layout.size as int;
    let len = m.len as int;
    let cap = m.cap as int;
    lemma_exact_quotient(target.size as int, size);
    assert(len / k >= 0 && cap / k >= 0 && (len / k) * (k * size) == len * size && (cap / k) * (k
        * size) == cap * size) by (nonlinear_arith)
        requires
            k >= 1,
            len >= 0,
            cap >= 0,
            len % k == 0,
            cap % k == 0,
    ;
}

/// A buffer that holds nothing can be handed over under every layout that
/// its own widens to, provided its spare capacity splits into whole
/// elements, and then still holds nothing.
pub proof fn lemma_empty_buffer(m: BufferModel, target: ElemLayout)
    requires
        m.wf(),
        m.len == 0,
        m.layout.widens_to(target),
        m.cap as int % m.layout.ratio(target) == 0,
    ensures
        m.convertible_to(target),
        m.converted(target).len == 0,
        m.converted(target).bytes.len() == 0,
{
    let k = m.layout.ratio(target);
    lemma_exact_quotient(target.size as int, m.layout.size as int);
    assert(0int % k == 0 && 0int / k == 0) by (nonlinear_arith)
        requires
            k >= 1,
    ;
}

/// A file without a byte holds no sample of either kind.
pub proof fn lemma_empty_file(order: ByteOrder)
    ensures
        scalars(Seq::<u8>::empty(), order) == Seq::<u32>::empty(),
        complex_samples(Seq::<u8>::empty(), order) == Seq::<ComplexSample>::empty(),
{
    assert(scalars(Seq::<u8>::empty(), order) =~= Seq::<u32>::empty());
    assert(complex_samples(Seq::<u8>::empty(), order) =~= Seq::<ComplexSample>::empty());
}

/// A file holds one scalar sample for each whole four-byte record and one
/// complex sample for each whole eight-byte record.
pub proof fn lemma_sample_counts(bytes: Seq<u8>, order: ByteOrder)
    ensures
        scalars(bytes, order).len() == bytes.len() / 4,
        complex_samples(bytes, order).len() == bytes.len() / 8,
{
}

/// Fewer than four bytes after the last whole record of a scalar file
/// change nothing in what is decoded.
pub proof fn lemma_scalar_tail_dropped(records: Seq<u8>, tail: Seq<u8>, order: ByteOrder)
    requires
        records.len() % 4 == 0,
        tail.len() < 4,
    ensures
        scalars(records + tail, order) == scalars(records, order),
{
    let all = records + tail;
    assert(all.len() / 4 == records.len() / 4);
    assert forall|i: int| 0 <= i < records.len() / 4 implies #[trigger] scalars(all, order)[i]
        == scalars(records, order)[i] by {
        assert(all[4 * i] == records[4 * i]);
        assert(all[4 * i + 1] == records[4 * i + 1]);
        assert(all[4 * i + 2] == records[4 * i + 2]);
        assert(all[4 * i + 3] == records[4 * i + 3]);
    }
    assert(scalars(all, order) =~= scalars(records, order));
}

/// Fewer than eight bytes after the last whole record of a complex file
/// change nothing in what is decoded.
pub proof fn lemma_complex_tail_dropped(records: Seq<u8>, tail: Seq<u8>, order: ByteOrder)
    requires
        records.len() % 8 == 0,
        tail.len() < 8,
    ensures
        complex_samples(records + tail, order) == complex_samples(records, order),
{
    let all = records + tail;
    assert(all.len() / 8 == records.len() / 8);
    assert forall|i: int| 0 <= i < records.len() / 8 implies #[trigger] complex_samples(
        all,
        order,
    )[i] == complex_samples(records, order)[i] by {
        assert(all[8 * i] == records[8 * i]);
        assert(all[8 * i + 1] == records[8 * i + 1]);
        assert(all[8 * i + 2] == records[8 * i + 2]);
        assert(all[8 * i + 3] == records[8 * i + 3]);
        assert(all[8 * i + 4] == records[8 * i + 4]);
        assert(all[8 * i + 5] == records[8 * i + 5]);
        assert(all[8 * i + 6] == records[8 * i + 6]);
        assert(all[8 * i + 7] == records[8 * i + 7]);
    }
    assert(complex_samples(all, order) =~= complex_samples(records, order));
}

/// The complex samples of a file are its scalar samples taken two at a
/// time: the even ones are the real parts, the odd ones the imaginary parts.
pub proof fn lemma_complex_pairs_scalars(bytes: Seq<u8>, order: ByteOrder)
    ensures
        complex_samples(bytes, order).len() == scalars(bytes, order).len() / 2,
        forall|i: int|
            0 <= i < complex_samples(bytes, order).len() ==> #[trigger] complex_samples(
                bytes,
                order,
            )[i] == (ComplexSample {
                re: scalars(bytes, order)[2 * i],
                im: scalars(bytes, order)[2 * i + 1],
            }),
{
    assert forall|i: int| 0 <= i < complex_samples(bytes, order).len() implies #[trigger] complex_samples(
        bytes,
        order,
    )[i] == (ComplexSample {
        re: scalars(bytes, order)[2 * i],
        im: scalars(bytes, order)[2 * i + 1],
    }) by {
        assert(4 * (2 * i) == 8 * i);
        assert(4 * (2 * i + 1) == 8 * i + 4);
    }
}

/// A buffer of scalar samples handed over as complex samples holds, sample
/// for sample, the pairs of its neighbouring scalars.
pub proof fn lemma_scalar_buffer_pairs(m: BufferModel, order: ByteOrder)
    requires
        m.wf(),
        m.layout == scalar_layout(),
        m.len % 2 == 0,
        m.cap % 2 == 0,
    ensures
        m.convertible_to(complex_layout()),
        scalars(m.bytes, order).len() == m.len,
        complex_samples(m.converted(complex_layout()).bytes, order).len() == m.converted(
            complex_layout(),
        ).len,
        forall|i: int|
            0 <= i < m.converted(complex_layout()).len ==> #[trigger] complex_samples(
                m.converted(complex_layout()).bytes,
                order,
            )[i] == (ComplexSample {
                re: scalars(m.bytes, order)[2 * i],
                im: scalars(m.bytes, order)[2 * i + 1],
            }),
{
    lemma_ratio_is(scalar_layout(), complex_layout(), 2);
    lemma_complex_pairs_scalars(m.bytes, order);
}

} // verus!

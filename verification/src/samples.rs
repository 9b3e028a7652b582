//! Decoding headerless files of binary32 samples.
//!
//! A scalar file is a run of four-byte records, a complex file a run of
//! eight-byte records holding a real part and then an imaginary part. Bytes
//! after the last whole record are not looked at. Every sample is given as
//! its binary32 bit pattern.

use vstd::prelude::*;

verus! {

/// The order in which the bytes of a four-byte word are stored.
#[derive(Clone, Copy, Debug, PartialEq, Eq, Structural)]
pub enum ByteOrder {
    /// Least significant byte first.
    Little,
    /// Most significant byte first.
    Big,
}

/// One complex sample: the bit patterns of its real and of its imaginary
/// binary32 part.
#[derive(Clone, Copy, Debug, PartialEq, Eq, Structural)]
pub struct ComplexSample {
    pub re: u32,
    pub im: u32,
}

/// The word stored in the four bytes of `bytes` that start at `at`.
pub open spec fn word_at(bytes: Seq<u8>, at: int, order: ByteOrder) -> u32
    recommends
        0 <= at,
        at + 4 <= bytes.len(),
{
    match order {
        ByteOrder::Little => (bytes[at] as int + bytes[at + 1] as int * 0x100 + bytes[at + 2] as int
            * 0x1_0000 + bytes[at + 3] as int * 0x100_0000) as u32,
        ByteOrder::Big => (bytes[at + 3] as int + bytes[at + 2] as int * 0x100 + bytes[at + 1] as int
            * 0x1_0000 + bytes[at] as int * 0x100_0000) as u32,
    }
}

/// The scalar samples of a file: one for each whole four-byte record.
pub open spec fn scalars(bytes: Seq<u8>, order: ByteOrder) -> Seq<u32> {
    Seq::new(bytes.len() / 4, |i: int| word_at(bytes, 4 * i, order))
}

/// The complex samples of a file: one for each whole eight-byte record, its
/// first half the real part and its second half the imaginary part.
pub open spec fn complex_samples(bytes: Seq<u8>, order: ByteOrder) -> Seq<ComplexSample> {
    Seq::new(
        bytes.len() / 8,
        |i: int|
            ComplexSample { re: word_at(bytes, 8 * i, order), im: word_at(bytes, 8 * i + 4, order) },
    )
}

/// Reads the word stored in the four bytes of `bytes` that start at `at`.
fn decode_word(bytes: &[u8], at: usize, order: ByteOrder) -> (w: u32)
    requires
        at + 4 <= bytes@.len(),
    ensures
        w == word_at(bytes@, at as int, order),
{
    let b0: u32 = bytes[at] as u32;
    let b1: u32 = bytes[at + 1] as u32;
    let b2: u32 = bytes[at + 2] as u32;
    let b3: u32 = bytes[at + 3] as u32;
    match order {
        ByteOrder::Little => b0 + b1 * 0x100 + b2 * 0x1_0000 + b3 * 0x100_0000,
        ByteOrder::Big => b3 + b2 * 0x100 + b1 * 0x1_0000 + b0 * 0x100_0000,
    }
}

/// Decodes the scalar samples of a file whose words are stored in `order`.
pub fn decode_scalars(bytes: &[u8], order: ByteOrder) -> (r: Vec<u32>)
    ensures
        r@ == scalars(bytes@, order),
        r@.len() == bytes@.len() / 4,
{
    let n: usize = bytes.len() / 4;
    let mut out: Vec<u32> = Vec::with_capacity(n);
    let mut i: usize = 0;
    while i < n
        invariant
            n == bytes@.len() / 4,
            bytes@.len() <= usize::MAX,
            i <= n,
            out@.len() == i,
            forall|j: int| 0 <= j < i ==> out@[j] == word_at(bytes@, 4 * j, order),
        decreases n - i,
    {
        let w: u32 = decode_word(bytes, 4 * i, order);
        out.push(w);
        i += 1;
    }
    assert(out@ =~= scalars(bytes@, order));
    out
}

/// Decodes the complex samples of a file whose words are stored in `order`.
pub fn decode_complex(bytes: &[u8], order: ByteOrder) -> (r: Vec<ComplexSample>)
    ensures
        r@ == complex_samples(bytes@, order),
        r@.len() == bytes@.len() / 8,
{
    let n: usize = bytes.len() / 8;
    let mut out: Vec<ComplexSample> = Vec::with_capacity(n);
    let mut i: usize = 0;
    while i < n
        invariant
            n == bytes@.len() / 8,
            bytes@.len() <= usize::MAX,
            i <= n,
            out@.len() == i,
            forall|j: int|
                0 <= j < i ==> out@[j] == (ComplexSample {
                    re: word_at(bytes@, 8 * j, order),
                    im: word_at(bytes@, 8 * j + 4, order),
                }),
        decreases n - i,
    {
        let re: u32 = decode_word(bytes, 8 * i, order);
        let im: u32 = decode_word(bytes, 8 * i + 4, order);
        out.push(ComplexSample { re, im });
        i += 1;
    }
    assert(out@ =~= complex_samples(bytes@, order));
    out
}

/// `u32::from_ne_bytes`: the word that four bytes stand for in the byte
/// order of the machine the code runs on. Which order that is, is not
/// stated; the result is the little-endian or the big-endian reading.
#[verifier::external_body]
fn word_from_native_bytes(bytes: [u8; 4]) -> (w: u32)
    ensures
        w == word_at(bytes@, 0, ByteOrder::Little) || w == word_at(bytes@, 0, ByteOrder::Big),
{
    u32::from_ne_bytes(bytes)
}

/// The byte order of this machine, as its reading of the probe bytes tells
/// it. Either order may come back: which one is for the machine to say.
fn native_order() -> ByteOrder {
    order_of_probe(word_from_native_bytes([1, 0, 0, 0]))
}

/// Four bytes that read as one word in little-endian order and as another
/// in big-endian order.
pub open spec fn probe_bytes() -> Seq<u8> {
    seq![1u8, 0u8, 0u8, 0u8]
}

/// The byte order in which the probe bytes read as `word`: little-endian
/// where `word` is their little-endian reading, big-endian for every other
/// word, their big-endian reading among them.
pub fn order_of_probe(word: u32) -> (order: ByteOrder)
    ensures
        order == ByteOrder::Little <==> word == word_at(probe_bytes(), 0, ByteOrder::Little),
        word == word_at(probe_bytes(), 0, ByteOrder::Big) ==> order == ByteOrder::Big,
{
    if word == 1 {
        ByteOrder::Little
    } else {
        ByteOrder::Big
    }
}

/// Decodes the contents of a file of scalar samples, its words read in the
/// byte order of this machine. A file written on a machine of the other
/// byte order is read as it stands, with no correction.
pub fn from_file_raw_f32(bytes: &[u8]) -> (r: Vec<u32>)
    ensures
        r@ == scalars(bytes@, ByteOrder::Little) || r@ == scalars(bytes@, ByteOrder::Big),
        r@.len() == bytes@.len() / 4,
{
    decode_scalars(bytes, native_order())
}

/// Decodes the contents of a file of complex samples, its words read in the
/// byte order of this machine. A file written on a machine of the other
/// byte order is read as it stands, with no correction.
pub fn from_file_complex_f32(bytes: &[u8]) -> (r: Vec<ComplexSample>)
    ensures
        r@ == complex_samples(bytes@, ByteOrder::Little) || r@ == complex_samples(
            bytes@,
            ByteOrder::Big,
        ),
        r@.len() == bytes@.len() / 8,
{
    decode_complex(bytes, native_order())
}

} // verus!

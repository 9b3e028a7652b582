//! Typed buffers over byte storage, and handing one over under another
//! element type.

use crate::layout::{complex_layout, convertible, lemma_exact_quotient, scalar_layout, ElemLayout};
use vstd::prelude::*;

verus! {

/// What a typed buffer is: an element layout, the number of elements it
/// holds, the number its storage has room for, and the bytes of the elements
/// it holds, in storage order.
pub struct BufferModel {
    pub layout: ElemLayout,
    pub len: nat,
    pub cap: nat,
    pub bytes: Seq<u8>,
}

impl BufferModel {
    /// The held elements fit the storage, and the bytes are exactly theirs.
    pub open spec fn wf(self) -> bool {
        &&& self.len <= self.cap
        &&& self.bytes.len() == self.len * self.layout.size
    }

    pub open spec fn convertible_to(self, target: ElemLayout) -> bool {
        convertible(self.layout, target, self.len, self.cap)
    }

    /// The same bytes, counted in `target` elements.
    pub open spec fn converted(self, target: ElemLayout) -> BufferModel {
        BufferModel {
            layout: target,
            len: (self.len as int / self.layout.ratio(target)) as nat,
            cap: (self.cap as int / self.layout.ratio(target)) as nat,
            bytes: self.bytes,
        }
    }
}

/// A convertible well-formed buffer is well-formed after conversion.
pub proof fn lemma_converted_wf(m: BufferModel, target: ElemLayout)
    requires
        m.wf(),
        m.convertible_to(target),
    ensures
        m.converted(target).wf(),
{
    let k = m.layout.ratio(target);
    let size = m.layout.size as int;
    let len = m.len as int;
    let cap = m.cap as int;
    lemma_exact_quotient(target.size as int, size);
    assert(len / k <= cap / k && 0 <= len / k && (len / k) * (k * size) == len * size)
        by (nonlinear_arith)
        requires
            k >= 1,
            0 <= len <= cap,
            len % k == 0,
    ;
}

/// An owned buffer of fixed-size elements, kept as the bytes of its elements
/// together with their layout, their count and the capacity of the storage.
#[derive(Debug)]
pub struct TypedBuffer {
    layout: ElemLayout,
    len: usize,
    cap: usize,
    bytes: Vec<u8>,
}

impl View for TypedBuffer {
    type V = BufferModel;

    closed spec fn view(&self) -> BufferModel {
        BufferModel {
            layout: self.layout,
            len: self.len as nat,
            cap: self.cap as nat,
            bytes: self.bytes@,
        }
    }
}

impl TypedBuffer {
    #[verifier::type_invariant]
    spec fn inv(self) -> bool {
        self@.wf()
    }

    /// A buffer of `layout` elements over `bytes`, in storage for `capacity`
    /// elements. `None` where the layout is zero-sized, the bytes do not make
    /// up whole elements, or there are more elements than `capacity`.
    pub fn from_bytes(layout: ElemLayout, bytes: Vec<u8>, capacity: usize) -> (r: Option<Self>)
        ensures
            r is Some <==> {
                &&& layout.size > 0
                &&& bytes@.len() % layout.size as nat == 0
                &&& bytes@.len() / layout.size as nat <= capacity
            },
            r matches Some(b) ==> {
                &&& b@.wf()
                &&& b@.layout == layout
                &&& b@.len == bytes@.len() / layout.size as nat
                &&& b@.cap == capacity
                &&& b@.bytes == bytes@
            },
    {
        if layout.size == 0 || bytes.len() % layout.size != 0 {
            return None;
        }
        let len: usize = bytes.len() / layout.size;
        if len > capacity {
            return None;
        }
        proof {
            lemma_exact_quotient(bytes@.len() as int, layout.size as int);
        }
        Some(TypedBuffer { layout, len, cap: capacity, bytes })
    }

    /// The layout of the elements.
    pub fn layout(&self) -> (r: ElemLayout)
        ensures
            r == self@.layout,
    {
        self.layout
    }

    /// The number of elements held.
    pub fn len(&self) -> (n: usize)
        ensures
            n == self@.len,
            self@.wf(),
    {
        proof {
            use_type_invariant(self);
        }
        self.len
    }

    /// The number of elements the storage has room for.
    pub fn capacity(&self) -> (n: usize)
        ensures
            n == self@.cap,
            self@.wf(),
    {
        proof {
            use_type_invariant(self);
        }
        self.cap
    }

    /// The bytes of the held elements.
    pub fn as_bytes(&self) -> (r: &[u8])
        ensures
            r@ == self@.bytes,
            self@.wf(),
    {
        proof {
            use_type_invariant(self);
        }
        self.bytes.as_slice()
    }

    /// Gives up the buffer for the bytes of its elements.
    pub fn into_bytes(self) -> (r: Vec<u8>)
        ensures
            r@ == self@.bytes,
            self@.wf(),
    {
        proof {
            use_type_invariant(&self);
        }
        self.bytes
    }

    /// Whether the buffer can be handed over as one of `target` elements.
    pub fn can_convert(&self, target: ElemLayout) -> (b: bool)
        ensures
            b == self@.convertible_to(target),
    {
        match self.layout.checked_ratio(&target) {
            None => false,
            Some(k) => self.len % k == 0 && self.cap % k == 0,
        }
    }
}

/// Hands `v` over as a buffer of `target` elements. The bytes are moved, not
/// copied or changed; only the layout and the two counts are new.
pub fn vec_convert(v: TypedBuffer, target: ElemLayout) -> (r: TypedBuffer)
    requires
        v@.convertible_to(target),
    ensures
        r@ == v@.converted(target),
        r@.wf(),
        r@.layout == target,
        r@.len == v@.len as int / v@.layout.ratio(target),
        r@.cap == v@.cap as int / v@.layout.ratio(target),
        r@.bytes == v@.bytes,
{
    proof {
        use_type_invariant(&v);
        lemma_converted_wf(v@, target);
        lemma_exact_quotient(target.size as int, v.layout.size as int);
    }
    let k: usize = target.size / v.layout.size;
    TypedBuffer { layout: target, len: v.len / k, cap: v.cap / k, bytes: v.bytes }
}

/// Hands `v` over as a buffer of `target` elements where that is possible,
/// and hands `v` itself back, untouched, where it is not.
pub fn try_vec_convert(v: TypedBuffer, target: ElemLayout) -> (r: Result<TypedBuffer, TypedBuffer>)
    ensures
        r is Ok <==> v@.convertible_to(target),
        r matches Ok(b) ==> b@ == v@.converted(target) && b@.wf(),
        r matches Err(b) ==> b == v,
{
    if v.can_convert(target) {
        Ok(vec_convert(v, target))
    } else {
        Err(v)
    }
}

/// Hands a buffer of scalar samples over as a buffer of complex samples,
/// each made of two neighbouring scalars: the real part, then the imaginary.
pub fn f32_to_complex_vec(floats: TypedBuffer) -> (r: TypedBuffer)
    requires
        floats@.layout == scalar_layout(),
        floats@.len % 2 == 0,
        floats@.cap % 2 == 0,
    ensures
        r@ == floats@.converted(complex_layout()),
        r@.wf(),
        r@.layout == complex_layout(),
        r@.len == floats@.len / 2,
        r@.cap == floats@.cap / 2,
        r@.bytes == floats@.bytes,
{
    vec_convert(floats, ElemLayout::complex())
}

} // verus!

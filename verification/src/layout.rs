//! Element layouts and the arithmetic of regrouping a buffer's storage.

use vstd::prelude::*;

verus! {

/// Size and alignment, in bytes, of one element of a typed buffer.
#[derive(Clone, Copy, Debug, PartialEq, Eq, Structural)]
pub struct ElemLayout {
    pub size: usize,
    pub align: usize,
}

impl ElemLayout {
    /// Storage of `self` elements can be regrouped into `target` elements:
    /// both have the same alignment, neither is zero-sized, and one `target`
    /// element covers a whole number of `self` elements.
    pub open spec fn widens_to(self, target: ElemLayout) -> bool {
        &&& self.align == target.align
        &&& self.size > 0
        &&& target.size > 0
        &&& target.size % self.size == 0
    }

    /// How many `self` elements make up one `target` element.
    pub open spec fn ratio(self, target: ElemLayout) -> int {
        target.size as int / self.size as int
    }

    /// The layout of elements of `size` bytes, aligned to `align`.
    pub fn new(size: usize, align: usize) -> (r: ElemLayout)
        ensures
            r.size == size,
            r.align == align,
    {
        ElemLayout { size, align }
    }

    /// The layout of the Rust type `T`.
    pub fn of<T>() -> (r: ElemLayout)
        ensures
            r.size as nat == vstd::layout::size_of::<T>(),
            r.align as nat == vstd::layout::align_of::<T>(),
    {
        ElemLayout { size: core::mem::size_of::<T>(), align: core::mem::align_of::<T>() }
    }

    /// One binary32 sample: four bytes, aligned to four.
    pub fn scalar() -> (r: ElemLayout)
        ensures
            r == scalar_layout(),
    {
        ElemLayout { size: 4, align: 4 }
    }

    /// One complex sample, a real binary32 followed by an imaginary one:
    /// eight bytes, aligned as its parts are.
    pub fn complex() -> (r: ElemLayout)
        ensures
            r == complex_layout(),
    {
        ElemLayout { size: 8, align: 4 }
    }

    /// `Some(k)` with `k` the number of `self` elements per `target` element
    /// where the regrouping is possible, `None` where it is not.
    pub fn checked_ratio(&self, target: &ElemLayout) -> (r: Option<usize>)
        ensures
            r is Some <==> self.widens_to(*target),
            r matches Some(k) ==> k == self.ratio(*target) && k >= 1 && k * self.size == target.size,
    {
        if self.align != target.align || self.size == 0 || target.size == 0 {
            return None;
        }
        if target.size % self.size != 0 {
            return None;
        }
        let k: usize = target.size / self.size;
        proof {
            lemma_exact_quotient(target.size as int, self.size as int);
        }
        Some(k)
    }
}

pub open spec fn scalar_layout() -> ElemLayout {
    ElemLayout { size: 4, align: 4 }
}

pub open spec fn complex_layout() -> ElemLayout {
    ElemLayout { size: 8, align: 4 }
}

/// A multiple of `d` is its quotient by `d` times `d`, and the quotient of a
/// positive one is at least one.
pub proof fn lemma_exact_quotient(x: int, d: int)
    requires
        x >= 0,
        d > 0,
        x % d == 0,
    ensures
        (x / d) * d == x,
        x > 0 ==> x / d >= 1,
{
    assert((x / d) * d == x && (x > 0 ==> x / d >= 1)) by (nonlinear_arith)
        requires
            x >= 0,
            d > 0,
            x % d == 0,
    ;
}

/// Where `k` elements of `source` fill one of `target` exactly, `k` is the
/// ratio of the two layouts.
pub proof fn lemma_ratio_is(source: ElemLayout, target: ElemLayout, k: int)
    requires
        source.size > 0,
        k * source.size == target.size,
    ensures
        source.ratio(target) == k,
        target.size % source.size == 0,
{
    let s = source.size as int;
    let t = target.size as int;
    assert(t / s == k && t % s == 0) by (nonlinear_arith)
        requires
            s > 0,
            k * s == t,
    ;
}

/// A buffer of `len` elements in storage for `cap`, laid out as `source`,
/// can be handed over as a buffer of `target` elements: the layouts agree
/// and both counts split into whole `target` elements.
pub open spec fn convertible(source: ElemLayout, target: ElemLayout, len: nat, cap: nat) -> bool {
    &&& source.widens_to(target)
    &&& len as int % source.ratio(target) == 0
    &&& cap as int % source.ratio(target) == 0
}

/// Length and capacity, counted in `target` elements, of a buffer that held
/// `len` elements in storage for `cap` when counted in `source` elements.
/// `None` exactly where the buffer cannot be handed over.
pub fn converted_extent(source: ElemLayout, target: ElemLayout, len: usize, cap: usize) -> (r:
    Option<(usize, usize)>)
    ensures
        r is Some <==> convertible(source, target, len as nat, cap as nat),
        r matches Some((new_len, new_cap)) ==> {
            &&& new_len == len as int / source.ratio(target)
            &&& new_cap == cap as int / source.ratio(target)
        },
{
    match source.checked_ratio(&target) {
        None => None,
        Some(k) => {
            if len % k != 0 || cap % k != 0 {
                None
            } else {
                Some((len / k, cap / k))
            }
        },
    }
}

} // verus!

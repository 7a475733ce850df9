//! The runtime's allocation request: a size and an alignment.
use vstd::prelude::*;

verus! {

/// Whether `n` is a power of two (1, 2, 4, ...).
pub open spec fn is_power_of_two(n: nat) -> bool
    decreases n,
{
    if n == 0 {
        false
    } else if n == 1 {
        true
    } else {
        n % 2 == 0 && is_power_of_two(n / 2)
    }
}

/// Whether `(size, align)` is a request the runtime may hand to the allocator:
/// a positive size, a power-of-two alignment, and a size that, rounded up to
/// the alignment, does not exceed `isize::MAX`.
pub open spec fn valid_request(size: nat, align: nat) -> bool {
    &&& size > 0
    &&& is_power_of_two(align)
    &&& size + align - 1 <= isize::MAX
}

/// A request for a block of `size` bytes aligned to `align` bytes.
///
/// A value of this type always satisfies `valid_request`: the only way to make
/// one is `from_size_align`, which checks it.
#[derive(Clone, Copy, Debug, PartialEq, Eq, Structural)]
pub struct AllocRequest {
    size: usize,
    align: usize,
}

/// Decides whether `n` is a power of two by halving it while it is even.
fn check_power_of_two(n: usize) -> (r: bool)
    ensures
        r == is_power_of_two(n as nat),
{
    if n == 0 {
        return false;
    }
    let mut m: usize = n;
    while m > 1 && m % 2 == 0
        invariant
            m > 0,
            is_power_of_two(m as nat) == is_power_of_two(n as nat),
        decreases m,
    {
        m = m / 2;
    }
    m == 1
}

impl AllocRequest {
    /// The requested size in bytes.
    pub closed spec fn spec_size(&self) -> usize {
        self.size
    }

    /// The requested alignment in bytes.
    pub closed spec fn spec_align(&self) -> usize {
        self.align
    }

    /// The request's own well-formedness: it satisfies `valid_request`.
    pub open spec fn wf(&self) -> bool {
        valid_request(self.spec_size() as nat, self.spec_align() as nat)
    }

    /// Builds the request for `size` bytes at alignment `align`, or `None`
    /// when the pair is not a valid request.
    pub fn from_size_align(size: usize, align: usize) -> (r: Option<AllocRequest>)
        ensures
            r is Some <==> valid_request(size as nat, align as nat),
            r matches Some(q) ==> q.wf() && q.spec_size() == size && q.spec_align() == align,
    {
        if size == 0 || !check_power_of_two(align) {
            return None;
        }
        let limit: usize = isize::MAX as usize;
        if align - 1 > limit || size > limit - (align - 1) {
            return None;
        }
        Some(AllocRequest { size, align })
    }

    /// The requested size in bytes.
    #[verifier::when_used_as_spec(spec_size)]
    pub fn size(&self) -> (r: usize)
        ensures
            r == self.spec_size(),
    {
        self.size
    }

    /// The requested alignment in bytes.
    #[verifier::when_used_as_spec(spec_align)]
    pub fn align(&self) -> (r: usize)
        ensures
            r == self.spec_align(),
    {
        self.align
    }
}

} // verus!

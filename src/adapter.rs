//! The adapter: which mimalloc entry point serves each allocator hook, and
//! with which arguments.
use vstd::prelude::*;

use crate::request::{valid_request, AllocRequest};

verus! {

/// A call of mimalloc's C interface, with the plain arguments the adapter
/// passes. The block address, where a call takes one, is the one the runtime
/// handed to the hook.
#[derive(Clone, Copy, Debug, PartialEq, Eq, Structural)]
pub enum ForeignCall {
    /// `mi_malloc_aligned(size, alignment)`: a block with no zero fill.
    MallocAligned { size: usize, alignment: usize },
    /// `mi_zalloc_aligned(size, alignment)`: a block that mimalloc fills with
    /// zeros itself.
    ZallocAligned { size: usize, alignment: usize },
    /// `mi_free(p)`: mimalloc keeps each block's size and alignment, so the
    /// call takes nothing besides the address.
    Free,
    /// `mi_realloc_aligned(p, new_size, alignment)`.
    ReallocAligned { new_size: usize, alignment: usize },
}

impl ForeignCall {
    /// The size argument, for the calls that take one.
    pub open spec fn size_arg(self) -> Option<usize> {
        match self {
            ForeignCall::MallocAligned { size, .. } => Some(size),
            ForeignCall::ZallocAligned { size, .. } => Some(size),
            ForeignCall::Free => None,
            ForeignCall::ReallocAligned { new_size, .. } => Some(new_size),
        }
    }

    /// The alignment argument, for the calls that take one.
    pub open spec fn alignment_arg(self) -> Option<usize> {
        match self {
            ForeignCall::MallocAligned { alignment, .. } => Some(alignment),
            ForeignCall::ZallocAligned { alignment, .. } => Some(alignment),
            ForeignCall::Free => None,
            ForeignCall::ReallocAligned { alignment, .. } => Some(alignment),
        }
    }
}

/// The call that serves `allocate(req)`.
pub open spec fn alloc_plan(req: AllocRequest) -> ForeignCall {
    ForeignCall::MallocAligned { size: req.spec_size(), alignment: req.spec_align() }
}

/// The call that serves `allocate_zeroed(req)`: mimalloc's own zeroing entry
/// point, never a plain allocation followed by a fill.
pub open spec fn alloc_zeroed_plan(req: AllocRequest) -> ForeignCall {
    ForeignCall::ZallocAligned { size: req.spec_size(), alignment: req.spec_align() }
}

/// The call that serves `deallocate(p, req)`: the request is not passed on.
pub open spec fn dealloc_plan(req: AllocRequest) -> ForeignCall {
    ForeignCall::Free
}

/// The call that serves `resize(p, req, new_size)`: the new size together with
/// the alignment the block was allocated with.
pub open spec fn realloc_plan(req: AllocRequest, new_size: usize) -> ForeignCall {
    ForeignCall::ReallocAligned { new_size, alignment: req.spec_align() }
}

/// The process-wide allocator: a marker with no state of its own. Each method
/// names the mimalloc call that serves one of the runtime's hooks.
#[derive(Clone, Copy, Debug)]
pub struct MiMalloc;

impl MiMalloc {
    /// The call for `allocate(req)`: `mi_malloc_aligned(size, align)`.
    pub fn alloc_call(&self, req: &AllocRequest) -> (r: ForeignCall)
        ensures
            r == alloc_plan(*req),
    {
        ForeignCall::MallocAligned { size: req.size(), alignment: req.align() }
    }

    /// The call for `allocate_zeroed(req)`: `mi_zalloc_aligned(size, align)`.
    pub fn alloc_zeroed_call(&self, req: &AllocRequest) -> (r: ForeignCall)
        ensures
            r == alloc_zeroed_plan(*req),
    {
        ForeignCall::ZallocAligned { size: req.size(), alignment: req.align() }
    }

    /// The call for `deallocate(p, req)`: `mi_free(p)`.
    pub fn dealloc_call(&self, req: &AllocRequest) -> (r: ForeignCall)
        ensures
            r == dealloc_plan(*req),
    {
        ForeignCall::Free
    }

    /// The call for `resize(p, req, new_size)`:
    /// `mi_realloc_aligned(p, new_size, align)` with the alignment the block was allocated with.
    pub fn realloc_call(&self, req: &AllocRequest, new_size: usize) -> (r: ForeignCall)
        ensures
            r == realloc_plan(*req, new_size),
    {
        ForeignCall::ReallocAligned { new_size, alignment: req.align() }
    }
}

/// Every allocating call hands mimalloc exactly the requested size at the
/// requested alignment, so a valid request reaches mimalloc as a valid
/// (size, alignment) pair: a positive size and a power-of-two alignment.
pub proof fn lemma_allocation_passes_request(req: AllocRequest)
    requires
        req.wf(),
    ensures
        alloc_plan(req) matches ForeignCall::MallocAligned { size, alignment } && size
            == req.spec_size() && alignment == req.spec_align() && valid_request(
            size as nat,
            alignment as nat,
        ),
        alloc_zeroed_plan(req) matches ForeignCall::ZallocAligned { size, alignment } && size
            == req.spec_size() && alignment == req.spec_align() && valid_request(
            size as nat,
            alignment as nat,
        ),
{
}

/// Resizing a block asks mimalloc for the same alignment that the block was
/// allocated with, whether it came from `allocate` or `allocate_zeroed`, and
/// for exactly the new size; when the new size at that alignment is a valid
/// request, mimalloc receives a valid (size, alignment) pair.
pub proof fn lemma_resize_keeps_alignment(req: AllocRequest, new_size: usize)
    ensures
        realloc_plan(req, new_size).alignment_arg() == alloc_plan(req).alignment_arg(),
        realloc_plan(req, new_size).alignment_arg() == alloc_zeroed_plan(req).alignment_arg(),
        realloc_plan(req, new_size).alignment_arg() == Some(req.spec_align()),
        realloc_plan(req, new_size).size_arg() == Some(new_size),
        req.wf() && new_size > 0 && new_size + req.spec_align() - 1 <= isize::MAX ==> valid_request(
            new_size as nat,
            realloc_plan(req, new_size).alignment_arg()->0 as nat,
        ),
{
}

/// Deallocation passes nothing of the request on: two requests for the same
/// block give the same call.
pub proof fn lemma_dealloc_ignores_request(a: AllocRequest, b: AllocRequest)
    ensures
        dealloc_plan(a) == dealloc_plan(b),
        dealloc_plan(a).size_arg() is None,
        dealloc_plan(a).alignment_arg() is None,
{
}

} // verus!

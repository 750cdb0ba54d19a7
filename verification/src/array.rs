//! The raw buffer itself: capacity bookkeeping, the layout check, and the
//! geometric growth policy, on top of plain byte storage.

use core::marker::PhantomData;
use vstd::prelude::*;

verus! {

use vstd::layout::size_of;

/// Capacity that [`RawArray::grow`] picks for a buffer that holds nothing yet.
pub const DEFAULT_ARRAY_SIZE: usize = 8;

/// Largest number of bytes one allocation may span. The allocator interface
/// refuses requests above `isize::MAX` bytes, which on a two's-complement
/// target equals `usize::MAX / 2`.
pub const MAX_ALLOC_BYTES: usize = usize::MAX / 2;

/// The requested element count cannot be expressed as a valid memory layout:
/// that many elements of `T` would span more bytes than one allocation may
/// hold. Detected before any storage is touched, and distinct from allocator
/// exhaustion, which is not reported as a value at all.
#[derive(Clone, Copy, Debug, PartialEq, Eq)]
pub struct LayoutError;

/// Whether storage for `n` elements of `T` can be described as a memory
/// layout: the total byte size must not exceed [`MAX_ALLOC_BYTES`].
pub open spec fn layout_fits<T>(n: usize) -> bool {
    n * size_of::<T>() <= MAX_ALLOC_BYTES
}

/// The capacity one [`RawArray::grow`] step aims for: the fixed default for
/// an empty buffer, otherwise one-and-a-half times the current capacity
/// (integer division truncates), saturating at `usize::MAX`.
pub open spec fn grow_target(cap: usize) -> usize {
    if cap == 0 {
        DEFAULT_ARRAY_SIZE
    } else if cap + cap / 2 <= usize::MAX {
        (cap + cap / 2) as usize
    } else {
        usize::MAX
    }
}

/// An owner of zero or one blocks of storage, sized in whole elements of `T`.
///
/// The buffer keeps raw bytes only: which of them hold live `T` values is
/// the caller's concern. Its view (`@`) is the sequence of stored bytes,
/// and `spec_capacity` is the element count the storage was sized for.
pub struct RawArray<T> {
    cap: usize,
    bytes: Vec<u8>,
    _marker: PhantomData<T>,
}

impl<T> View for RawArray<T> {
    type V = Seq<u8>;

    closed spec fn view(&self) -> Seq<u8> {
        self.bytes@
    }
}

impl<T> RawArray<T> {
    /// The element capacity, as contracts see it.
    pub closed spec fn spec_capacity(&self) -> usize {
        self.cap
    }

    /// Well-formed: the storage spans exactly `capacity` elements' worth of
    /// bytes, so a zero capacity holds no storage at all.
    pub open spec fn wf(&self) -> bool {
        self@.len() == self.spec_capacity() * size_of::<T>()
    }

    /// Creates an empty buffer: zero capacity, no storage. Never allocates.
    pub fn new() -> (r: RawArray<T>)
        ensures
            r.wf(),
            r.spec_capacity() == 0,
            r@ == Seq::<u8>::empty(),
    {
        RawArray { cap: 0, bytes: Vec::new(), _marker: PhantomData }
    }

    /// Allocates a buffer for exactly `cap` elements. A count of zero
    /// short-circuits to the empty state without requesting storage; a count
    /// whose layout is not representable is rejected with [`LayoutError`]
    /// before any storage is touched. The bytes of a fresh allocation are
    /// unspecified.
    pub fn with_capacity(cap: usize) -> (r: Result<RawArray<T>, LayoutError>)
        ensures
            r is Ok <==> layout_fits::<T>(cap),
            r matches Ok(a) ==> a.wf() && a.spec_capacity() == cap,
    {
        let mut buf: RawArray<T> = RawArray::new();
        match buf.resize(cap) {
            Ok(()) => Ok(buf),
            Err(e) => Err(e),
        }
    }

    /// The current element capacity. Pure; never fails.
    pub fn capacity(&self) -> (r: usize)
        ensures
            r == self.spec_capacity(),
    {
        self.cap
    }

    /// A read-only handle to the storage. `None` is the reserved
    /// "unallocated" sentinel, handed out exactly when the capacity is zero;
    /// otherwise the allocation's bytes are handed out. The handle is
    /// invalidated by any later `resize` or `grow`.
    pub fn as_ptr(&self) -> (r: Option<&[u8]>)
        ensures
            r is None <==> self.spec_capacity() == 0,
            r matches Some(s) ==> s@ == self@,
    {
        if self.cap == 0 {
            None
        } else {
            Some(self.bytes.as_slice())
        }
    }

    /// Changes the capacity to exactly `new_cap`, the single operation behind
    /// every capacity transition. A new count of zero releases the storage
    /// and restores the empty state; otherwise the storage is reallocated to
    /// the new size, and the bytes in the overlap of the old and new sizes
    /// keep their values. An unrepresentable layout is rejected with
    /// [`LayoutError`], leaving the buffer untouched.
    pub fn resize(&mut self, new_cap: usize) -> (r: Result<(), LayoutError>)
        requires
            old(self).wf(),
        ensures
            final(self).wf(),
            r is Ok <==> layout_fits::<T>(new_cap),
            r is Ok ==> final(self).spec_capacity() == new_cap,
            r is Ok ==> forall|i: int|
                0 <= i < old(self)@.len() && i < final(self)@.len() ==> final(self)@[i] == old(
                self,
            )@[i],
            r is Err ==> *final(self) == *old(self),
    {
        let elem: usize = core::mem::size_of::<T>();
        match new_cap.checked_mul(elem) {
            None => Err(LayoutError),
            Some(new_len) => {
                if new_len > MAX_ALLOC_BYTES {
                    Err(LayoutError)
                } else if new_cap == 0 {
                    self.bytes = Vec::new();
                    self.cap = 0;
                    Ok(())
                } else {
                    self.bytes.resize(new_len, 0u8);
                    self.cap = new_cap;
                    Ok(())
                }
            },
        }
    }

    /// Grows the buffer without the caller naming a target: an empty buffer
    /// jumps to [`DEFAULT_ARRAY_SIZE`], any other to one-and-a-half times its
    /// capacity, saturating at `usize::MAX` instead of wrapping. Reports the
    /// capacity chosen, or the [`LayoutError`] of the underlying `resize`.
    pub fn grow(&mut self) -> (r: Result<usize, LayoutError>)
        requires
            old(self).wf(),
        ensures
            final(self).wf(),
            r is Ok <==> layout_fits::<T>(grow_target(old(self).spec_capacity())),
            r matches Ok(c) ==> c == grow_target(old(self).spec_capacity())
                && final(self).spec_capacity() == c,
            r is Ok ==> forall|i: int|
                0 <= i < old(self)@.len() && i < final(self)@.len() ==> final(self)@[i] == old(
                self,
            )@[i],
            r is Err ==> *final(self) == *old(self),
    {
        let target: usize = if self.cap == 0 {
            DEFAULT_ARRAY_SIZE
        } else {
            let half: usize = self.cap / 2;
            if self.cap <= usize::MAX - half {
                self.cap + half
            } else {
                usize::MAX
            }
        };
        match self.resize(target) {
            Ok(()) => Ok(target),
            Err(e) => Err(e),
        }
    }
}

/// One growth step never aims below the current capacity: near the top of
/// the `usize` range the policy saturates instead of wrapping to a small
/// number.
pub proof fn lemma_grow_target_no_wrap(cap: usize)
    ensures
        grow_target(cap) >= cap,
{
}

/// When one-and-a-half times the current capacity is not representable in
/// `usize`, the policy settles on exactly the largest representable count.
pub proof fn lemma_grow_target_saturates(cap: usize)
    requires
        usize::MAX < cap + cap / 2,
    ensures
        grow_target(cap) == usize::MAX,
{
}

} // verus!

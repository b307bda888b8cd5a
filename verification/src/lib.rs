//! Allocation primitives over a growable buffer.
//!
//! Three operations — [`typed_alloc`], [`typed_realloc`], [`typed_dealloc`] —
//! manage contiguous blocks of element slots, sized in units of a
//! caller-chosen element type. A block is handed out as a [`Block`] handle
//! that owns its storage; each slot is either uninitialized or holds a value
//! written by the caller. Growing a block keeps every slot it already had,
//! shrinking keeps the prefix that still fits, and resizing to the same size
//! changes nothing.
//!
//! The storage itself comes from a growable buffer (`Vec`), asked for exact
//! capacities: allocation reserves room for exactly the requested number of
//! slots, growth reserves exactly the additional slots, and shrinking gives
//! the excess capacity back. On failure to acquire memory the process
//! aborts; no error is returned.
//!
//! Misuse that a raw interface would leave undefined — a zero size, a size
//! that does not match the one the block was created or last resized with —
//! is excluded here by `requires`, and a handle can neither be released
//! twice nor used after a resize, since both operations consume it.

use vstd::prelude::*;
use vstd::pervasive::VecAdditionalExecFns;

verus! {

/// The contents of a freshly allocated block: `size` uninitialized slots.
pub open spec fn fresh_contents<T>(size: nat) -> Seq<Option<T>> {
    Seq::new(size, |i: int| None)
}

/// The contents of a block after it is resized to `new_size` slots: the
/// prefix that fits both sizes is kept, and slots gained by growth are
/// uninitialized.
pub open spec fn resized_contents<T>(s: Seq<Option<T>>, new_size: nat) -> Seq<Option<T>> {
    if new_size <= s.len() {
        s.subrange(0, new_size as int)
    } else {
        s + fresh_contents((new_size - s.len()) as nat)
    }
}

/// An allocation handle: exclusive ownership of a contiguous block of
/// element slots. A slot holds `None` while it is uninitialized and
/// `Some(value)` once written.
///
/// The element count of a block is not stored by the allocation layer in
/// any separate bookkeeping; the caller passes it back to [`typed_realloc`]
/// and [`typed_dealloc`], which require it to match.
pub struct Block<T> {
    slots: Vec<Option<T>>,
}

impl<T> View for Block<T> {
    type V = Seq<Option<T>>;

    closed spec fn view(&self) -> Seq<Option<T>> {
        self.slots@
    }
}

impl<T> Block<T> {
    /// Returns the number of element slots in the block.
    pub fn size(&self) -> (n: usize)
        ensures
            n == self@.len(),
    {
        self.slots.len()
    }

    /// Writes `value` into the slot at `offset`. Only that slot changes:
    /// every other offset keeps its contents.
    pub fn write(&mut self, offset: usize, value: T)
        requires
            offset < old(self)@.len(),
        ensures
            final(self)@ == old(self)@.update(offset as int, Some(value)),
    {
        self.slots.set(offset, Some(value));
    }

    /// Reads the value in the slot at `offset`, which must have been
    /// written before.
    pub fn read(&self, offset: usize) -> (value: &T)
        requires
            offset < self@.len(),
            self@[offset as int] is Some,
        ensures
            self@[offset as int] == Some(*value),
    {
        match &self.slots[offset] {
            Some(value) => value,
            None => vstd::pervasive::unreached(),
        }
    }
}

/// Distinct slots of a block alias nothing: writing a value at one offset
/// makes that offset read back exactly the written value and leaves every
/// other offset unchanged.
pub proof fn lemma_slot_independence<T>(s: Seq<Option<T>>, i: int, j: int, value: T)
    requires
        0 <= i < s.len(),
        0 <= j < s.len(),
        i != j,
    ensures
        s.update(i, Some(value))[i] == Some(value),
        s.update(i, Some(value))[j] == s[j],
{
}

/// Returns a block of `size` uninitialized slots for elements of type `T`.
///
/// The underlying buffer is asked for capacity for exactly `size`
/// elements. On failure to acquire memory, the process aborts.
pub fn typed_alloc<T>(size: usize) -> (block: Block<T>)
    requires
        size >= 1,
    ensures
        block@ == fresh_contents::<T>(size as nat),
        block@.len() == size,
        forall|i: int| 0 <= i < size ==> block@[i] is None,
{
    let mut buf: Vec<Option<T>> = Vec::with_capacity(size);
    let mut filled: usize = 0;
    while filled < size
        invariant
            filled <= size,
            buf@ == fresh_contents::<T>(filled as nat),
        decreases size - filled,
    {
        buf.push(None);
        filled = filled + 1;
        proof {
            assert(buf@ =~= fresh_contents::<T>(filled as nat));
        }
    }
    ptr_from_vec(buf)
}

/// Resizes `block` to `new_size` slots and returns the resized block.
///
/// `old_size` is the size the block was created with, or the `new_size` of
/// its last resize; it must match the block's actual size. Every slot at an
/// offset below `min(old_size, new_size)` keeps its contents — a value
/// written before the resize is read back unchanged at the same offset —
/// and a slot gained by growth starts uninitialized. Resizing to the same
/// size returns the block as it is.
///
/// Growth reserves capacity for exactly the additional slots; shrinking
/// gives the excess capacity back to the underlying buffer. On failure to
/// acquire memory, the process aborts.
pub fn typed_realloc<T>(block: Block<T>, old_size: usize, new_size: usize) -> (resized: Block<T>)
    requires
        old_size == block@.len(),
        old_size >= 1,
        new_size >= 1,
    ensures
        resized@ == resized_contents(block@, new_size as nat),
        resized@.len() == new_size,
        forall|i: int| 0 <= i < old_size && i < new_size ==> resized@[i] == block@[i],
        forall|i: int| old_size <= i < new_size ==> resized@[i] is None,
        old_size == new_size ==> resized@ == block@,
{
    if old_size > new_size {
        let mut buf = block.slots;
        buf.truncate(new_size);
        shrink_to_fit_buffer(&mut buf);
        proof {
            lemma_shrink_keeps_prefix(block@, new_size as nat);
        }
        ptr_from_vec(buf)
    } else if new_size > old_size {
        let additional: usize = new_size - old_size;

        let mut buf = block.slots;
        reserve_exact_buffer(&mut buf, additional);
        let mut filled: usize = 0;
        while filled < additional
            invariant
                filled <= additional,
                buf@ == block@ + fresh_contents::<T>(filled as nat),
            decreases additional - filled,
        {
            buf.push(None);
            filled = filled + 1;
            proof {
                assert(buf@ =~= block@ + fresh_contents::<T>(filled as nat));
            }
        }
        proof {
            lemma_grow_keeps_prefix(block@, new_size as nat);
        }
        ptr_from_vec(buf)
    } else {
        proof {
            lemma_resize_to_same_size_is_identity(block@);
        }
        block
    }
}

/// Releases the block's storage.
///
/// `old_size` is the size the block was created with, or the `new_size` of
/// its last resize; it must match the block's actual size. The handle is
/// consumed, so no further operation — in particular no second release —
/// can reach the storage.
pub fn typed_dealloc<T>(block: Block<T>, old_size: usize)
    requires
        old_size == block@.len(),
        old_size >= 1,
{
    let _ = block;
}

/// Wraps a buffer into an allocation handle, transferring ownership of the
/// buffer's storage to the returned block.
pub fn ptr_from_vec<T>(buf: Vec<Option<T>>) -> (block: Block<T>)
    ensures
        block@ == buf@,
{
    Block { slots: buf }
}

/// Growing keeps every slot the block already had: after a resize to
/// `new_size` at least as large as the current size, every offset below the
/// current size holds exactly what it held before.
pub proof fn lemma_grow_keeps_prefix<T>(s: Seq<Option<T>>, new_size: nat)
    requires
        s.len() <= new_size,
    ensures
        resized_contents(s, new_size).len() == new_size,
        forall|i: int| 0 <= i < s.len() ==> resized_contents(s, new_size)[i] == s[i],
        forall|i: int| s.len() <= i < new_size ==> resized_contents(s, new_size)[i] is None,
{
    if s.len() == new_size {
        assert(s.subrange(0, new_size as int) =~= s);
    }
}

/// Growing round trip: a value written at an offset below the current size
/// is read back unchanged at the same offset after the block has grown.
pub proof fn lemma_grow_keeps_written_value<T>(
    s: Seq<Option<T>>,
    offset: int,
    value: T,
    new_size: nat,
)
    requires
        0 <= offset < s.len(),
        s.len() <= new_size,
    ensures
        resized_contents(s.update(offset, Some(value)), new_size)[offset] == Some(value),
{
    lemma_grow_keeps_prefix(s.update(offset, Some(value)), new_size);
}

/// Shrinking keeps the prefix that still fits: after a resize to `new_size`
/// no larger than the current size, every offset below `new_size` holds
/// exactly what it held before.
pub proof fn lemma_shrink_keeps_prefix<T>(s: Seq<Option<T>>, new_size: nat)
    requires
        new_size <= s.len(),
    ensures
        resized_contents(s, new_size).len() == new_size,
        forall|i: int| 0 <= i < new_size ==> resized_contents(s, new_size)[i] == s[i],
{
}

/// Resizing a block to the size it already has changes nothing.
pub proof fn lemma_resize_to_same_size_is_identity<T>(s: Seq<Option<T>>)
    ensures
        resized_contents(s, s.len()) == s,
{
    assert(s.subrange(0, s.len() as int) =~= s);
}

/// Relies on `Vec::reserve_exact`: it reserves capacity for exactly
/// `additional` further elements and leaves the stored elements unchanged.
#[verifier::external_body]
fn reserve_exact_buffer<T>(buf: &mut Vec<Option<T>>, additional: usize)
    ensures
        final(buf)@ == old(buf)@,
{
    buf.reserve_exact(additional);
}

/// Relies on `Vec::shrink_to_fit`: it drops excess capacity down to the
/// buffer's length and leaves the stored elements unchanged.
#[verifier::external_body]
fn shrink_to_fit_buffer<T>(buf: &mut Vec<Option<T>>)
    ensures
        final(buf)@ == old(buf)@,
{
    buf.shrink_to_fit();
}

} // verus!

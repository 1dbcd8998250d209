//! A bump arena that the syntax tree borrows its storage from.

use vstd::prelude::*;
use bumpalo::Bump;

verus! {

/// The arena type of the `bumpalo` crate, carried through as an opaque value.
#[verifier::external_type_specification]
#[verifier::external_body]
pub struct ExBump<const MIN_ALIGN: usize>(Bump<MIN_ALIGN>);

/// Calls `bumpalo::Bump::new`, which makes an arena that holds no chunk yet.
/// Nothing is stated of the arena's hidden state.
#[verifier::external_body]
fn bump_new() -> Bump {
    Bump::new()
}

/// Calls `bumpalo::Bump::with_capacity`, which makes an arena whose first chunk
/// has room for at least `capacity` bytes. For a `capacity` within a page of
/// `isize::MAX` the chunk it needs is within a page of the largest possible
/// allocation: for the last few dozen bytes its layout overflows, and below
/// that the allocation fails; either way the call panics, so that input is
/// left out. It also panics when the global allocator fails for a smaller
/// chunk, which depends on the machine. Nothing is stated of the hidden state.
#[verifier::external_body]
fn bump_with_capacity(capacity: usize) -> Bump
    requires
        capacity <= isize::MAX - 8192,
{
    Bump::with_capacity(capacity)
}

/// Calls `bumpalo::Bump::alloc`, which moves `val` into the arena and hands back
/// an exclusive reference to it: the referenced value is `val`.
#[verifier::external_body]
fn bump_alloc<'b, T: Copy>(bump: &'b Bump, val: T) -> (r: &'b mut T)
    ensures
        *r == val,
{
    bump.alloc(val)
}

/// Calls `bumpalo::Bump::alloc_str`, which copies `src` into the arena: the
/// copy holds the same characters as `src`.
#[verifier::external_body]
fn bump_alloc_str<'b>(bump: &'b Bump, src: &str) -> (r: &'b mut str)
    ensures
        r@ == src@,
{
    bump.alloc_str(src)
}

/// Calls `bumpalo::Bump::reset`, which frees every chunk but the current one
/// and rewinds that one. Nothing is stated of the hidden state.
#[verifier::external_body]
fn bump_reset(bump: &mut Bump) {
    bump.reset()
}

/// Calls `bumpalo::Bump::allocated_bytes`, the total size of the chunks that the
/// arena holds. It is read from state that allocations through a shared
/// reference change, so nothing is stated of the value.
#[verifier::external_body]
fn bump_allocated_bytes(bump: &Bump) -> usize {
    bump.allocated_bytes()
}

/// The sum of a sequence of byte counts.
pub open spec fn byte_sum(sizes: Seq<usize>) -> nat
    decreases sizes.len(),
{
    if sizes.len() == 0 {
        0
    } else {
        byte_sum(sizes.drop_last()) + sizes.last() as nat
    }
}

/// Calls `bumpalo::Bump::iter_allocated_chunks` and keeps the length of each
/// chunk's used part, newest chunk first. The iteration leaves the arena as it
/// was. The used parts are disjoint regions of the address space, so their
/// lengths sum to at most `usize::MAX`. Which lengths come back depends on the
/// allocations made before, which is not stated.
#[verifier::external_body]
fn bump_chunk_lengths(bump: &mut Bump) -> (r: std::vec::Vec<usize>)
    ensures
        *final(bump) == *old(bump),
        byte_sum(r@) <= usize::MAX,
{
    bump.iter_allocated_chunks().map(|chunk| chunk.len()).collect()
}

/// Adds up chunk lengths, as the arena reports them.
pub fn sum_chunk_lengths(sizes: &[usize]) -> (r: usize)
    requires
        byte_sum(sizes@) <= usize::MAX,
    ensures
        r == byte_sum(sizes@),
{
    let mut bytes: usize = 0;
    let mut i: usize = 0;
    while i < sizes.len()
        invariant
            i <= sizes@.len(),
            bytes == byte_sum(sizes@.subrange(0, i as int)),
            byte_sum(sizes@) <= usize::MAX,
        decreases sizes@.len() - i,
    {
        proof {
            lemma_byte_sum_prefix_monotone(sizes@, i as int + 1);
            assert(sizes@.subrange(0, i as int + 1).drop_last() =~= sizes@.subrange(0, i as int));
        }
        bytes = bytes + sizes[i];
        i = i + 1;
    }
    assert(sizes@.subrange(0, i as int) =~= sizes@);
    bytes
}

/// A prefix of a sequence of byte counts sums to no more than the whole.
proof fn lemma_byte_sum_prefix_monotone(s: Seq<usize>, k: int)
    requires
        0 <= k <= s.len(),
    ensures
        byte_sum(s.subrange(0, k)) <= byte_sum(s),
    decreases s.len() - k,
{
    if k < s.len() {
        lemma_byte_sum_prefix_monotone(s, k + 1);
        assert(s.subrange(0, k + 1).drop_last() =~= s.subrange(0, k));
    } else {
        assert(s.subrange(0, k) =~= s);
    }
}

/// An arena allocator for values that need no `Drop`.
pub struct Allocator {
    bump: Bump,
}

impl Allocator {
    /// The `bumpalo` arena that this allocator owns.
    pub closed spec fn arena(&self) -> Bump {
        self.bump
    }

    /// An arena that holds no chunk yet.
    pub fn new() -> Self {
        Self { bump: bump_new() }
    }

    /// An arena whose first chunk has room for at least `capacity` bytes.
    pub fn with_capacity(capacity: usize) -> Self
        requires
            capacity <= isize::MAX - 8192,
    {
        Self { bump: bump_with_capacity(capacity) }
    }

    /// Moves `val` into the arena; the returned reference points at `val`.
    ///
    /// The arena never runs `Drop`, so a `T` that needs dropping is refused
    /// when the call is compiled: `T` must be `Copy`, and no `Copy` type needs
    /// dropping. This also refuses the few types that need no dropping but are
    /// not `Copy`, such as `&mut U`.
    pub fn alloc_value<T: Copy>(&self, val: T) -> (r: &mut T)
        ensures
            *r == val,
    {
        bump_alloc(&self.bump, val)
    }

    /// Copies `src` into the arena; the copy holds the same characters.
    pub fn alloc_str<'alloc>(&'alloc self, src: &str) -> (r: &'alloc mut str)
        ensures
            r@ == src@,
    {
        bump_alloc_str(&self.bump, src)
    }

    /// Frees everything allocated in the arena at once.
    pub fn reset(&mut self) {
        bump_reset(&mut self.bump);
    }

    /// The total size of the chunks that the arena holds, in bytes.
    pub fn capacity(&self) -> usize {
        bump_allocated_bytes(&self.bump)
    }

    /// The number of bytes in use over all chunks: the sum of the used lengths
    /// that the arena reports. The arena is left as it was.
    ///
    /// This takes `&mut self`: `bumpalo` hands out the chunks through a shared
    /// reference only by an `unsafe` iterator, and the exclusive borrow is what
    /// makes the safe one sound. So it cannot be called while references into
    /// the arena are alive.
    pub fn used_bytes(&mut self) -> (r: usize)
        ensures
            *final(self) == *old(self),
    {
        let lengths = bump_chunk_lengths(&mut self.bump);
        sum_chunk_lengths(lengths.as_slice())
    }

    /// The underlying `bumpalo` arena.
    pub fn bump(&self) -> (r: &Bump)
        ensures
            *r == self.arena(),
    {
        &self.bump
    }
}

impl Default for Allocator {
    /// The same as [`Allocator::new`].
    fn default() -> Self {
        Allocator::new()
    }
}

} // verus!

//! Bump allocator for host-guest interop of data that doesn't fit in
//! function arguments.
//!
//! The allocator owns one fixed arena and only ever advances a cursor
//! forward inside it; individual objects cannot be freed, only the whole
//! arena reset at once. Pointers handed out are opaque offset handles
//! ([`RawPtr`]) into the arena, and every read or write through the
//! allocator is validated against the arena bounds.
//!
//! Boundary policy: an allocation whose aligned end would land at or past
//! the arena capacity is rejected with [`BumpError::NoSpace`]; an arena is
//! never filled to the very last byte. This is the stricter of the two
//! plausible comparisons and is fixed here as a design decision.

use vstd::prelude::*;
use vstd::arithmetic::div_mod::{
    lemma_fundamental_div_mod, lemma_mod_bound, lemma_mod_multiples_basic, lemma_small_mod,
};

verus! {

broadcast use vstd::layout::layout_of_primitives;

/// Fixed arena capacity in bytes: one 4KB page-sized unit.
pub const BLOCK_SIZE: usize = 4096;

/// Errors of the allocator subsystem. All of them are recoverable by the
/// caller; no allocator operation ever panics.
#[derive(Debug, PartialEq, Eq, Structural)]
pub enum BumpError {
    /// Request for allocation has invalid arguments.
    BadRequest,
    /// System has run out of memory.
    OutOfMemory,
    /// Bump allocator has reached the end of its space limit.
    NoSpace,
    /// The allocator was used before initialization.
    Uninitialized,
}

/// Smallest multiple of `align` that is at least `addr`.
pub open spec fn spec_align_up(addr: int, align: int) -> int
    recommends
        addr >= 0,
        align > 0,
{
    if addr % align == 0 {
        addr
    } else {
        addr + (align - addr % align)
    }
}

/// `align` is positive with exactly one bit set.
pub open spec fn spec_is_power_of_two(align: int) -> bool
    decreases align,
{
    if align <= 0 {
        false
    } else if align == 1 {
        true
    } else {
        align % 2 == 0 && spec_is_power_of_two(align / 2)
    }
}

/// A usable alignment: a nonzero power of two.
pub open spec fn valid_align(align: int) -> bool {
    align > 0 && spec_is_power_of_two(align)
}

/// Align the given arena offset upwards to the given alignment.
///
/// Requires that `align` is nonzero and that rounding up cannot overflow
/// the address space.
pub fn align_up(addr: usize, align: usize) -> (r: usize)
    requires
        align > 0,
        addr + align - 1 <= usize::MAX,
    ensures
        r == spec_align_up(addr as int, align as int),
{
    let rem: usize = addr % align;
    if rem == 0 {
        addr
    } else {
        addr + (align - rem)
    }
}

/// Exact characterization of [`spec_align_up`]: the result is the smallest
/// offset at or after `addr` that is a multiple of `align`.
pub proof fn lemma_align_up_properties(addr: int, align: int)
    requires
        addr >= 0,
        align > 0,
    ensures
        spec_align_up(addr, align) % align == 0,
        addr <= spec_align_up(addr, align) < addr + align,
        forall|m: int| addr <= m < spec_align_up(addr, align) ==> #[trigger] (m % align) != 0,
{
    let r = addr % align;
    lemma_mod_bound(addr, align);
    if r != 0 {
        let q = addr / align;
        lemma_fundamental_div_mod(addr, align);
        assert(addr == align * q + r);
        let up = spec_align_up(addr, align);
        assert(up == align * (q + 1)) by (nonlinear_arith)
            requires
                up == addr + (align - r),
                addr == align * q + r,
        ;
        lemma_mod_multiples_basic(q + 1, align);
        assert forall|m: int| addr <= m < up implies #[trigger] (m % align) != 0 by {
            if m % align == 0 {
                let k = m / align;
                lemma_fundamental_div_mod(m, align);
                assert(m == align * k);
                assert(false) by (nonlinear_arith)
                    requires
                        m == align * k,
                        align * q + r <= m < align * (q + 1),
                        0 < r < align,
                ;
            }
        }
    }
}

/// The fixed arena capacity is itself a power of two.
pub proof fn lemma_block_size_power_of_two()
    ensures
        spec_is_power_of_two(BLOCK_SIZE as int),
{
    lemma_common_alignments();
}

/// The alignments in everyday use, written out so that callers reasoning
/// about a concrete allocation request need not unfold
/// [`spec_is_power_of_two`] themselves.
pub proof fn lemma_common_alignments()
    ensures
        forall|e: int|
            (e == 1 || e == 2 || e == 4 || e == 8 || e == 16 || e == 32 || e == 64 || e == 128
                || e == 256 || e == 512 || e == 1024 || e == 2048 || e == 4096)
                ==> #[trigger] spec_is_power_of_two(e),
        !spec_is_power_of_two(0),
{
    reveal_with_fuel(spec_is_power_of_two, 14);
}

/// Decide whether `x` is a power of two, by repeated halving.
pub fn is_power_of_two(x: usize) -> (b: bool)
    ensures
        b == spec_is_power_of_two(x as int),
{
    if x == 0 {
        return false;
    }
    let mut v: usize = x;
    while v > 1 && v % 2 == 0
        invariant
            v >= 1,
            spec_is_power_of_two(x as int) == spec_is_power_of_two(v as int),
        decreases v,
    {
        v = v / 2;
    }
    v == 1
}

/// Select an alignment for a value of the given size.
///
/// Following the practice of popular allocators, values are aligned to a
/// machine word when the size is a machine word or smaller, and to twice
/// the machine word otherwise (covering SIMD-sized payloads).
pub open spec fn spec_align_word(size: int) -> int {
    let word = vstd::layout::size_of::<usize>() as int;
    if size > word {
        word * 2
    } else {
        word
    }
}

/// The word-based default alignment is always a valid alignment.
pub proof fn lemma_align_word_valid(size: int)
    ensures
        valid_align(spec_align_word(size)),
{
    reveal_with_fuel(spec_is_power_of_two, 6);
    assert(vstd::layout::size_of::<usize>() == 4 || vstd::layout::size_of::<usize>() == 8);
}

/// Select an alignment for the given value size: one machine word for
/// values at or below one word, two machine words otherwise.
pub fn align_word(size: usize) -> (a: usize)
    ensures
        a == spec_align_word(size as int),
        valid_align(a as int),
{
    proof {
        lemma_align_word_valid(size as int);
    }
    let word: usize = core::mem::size_of::<usize>();
    if size > word {
        word * 2
    } else {
        word
    }
}

/// A request for a raw block is valid when the size is a nonzero power of
/// two (blocks are aligned to their own size) and rounding it up to that
/// alignment cannot overflow the address space.
pub open spec fn valid_block_request(size: int) -> bool {
    &&& size > 0
    &&& spec_is_power_of_two(size)
    &&& size <= usize::MAX - size + 1
}

/// Represents a raw memory allocation: one owned, fixed-size byte region.
///
/// A pure ownership primitive: the region is acquired on construction and
/// released when the block is dropped. The dangling variant carries no
/// memory at all and stands for an allocator that exists but has not been
/// initialized; the `Uninitialized` check in [`BumpAllocator`] keeps it
/// from ever being dereferenced.
pub struct RawBlock {
    data: Vec<u8>,
}

impl View for RawBlock {
    type V = Seq<u8>;

    closed spec fn view(&self) -> Seq<u8> {
        self.data@
    }
}

impl RawBlock {
    /// Acquire a new block of raw memory, zero-filled, aligned to its own
    /// (power of two) size.
    pub fn new(size: usize) -> (r: Result<RawBlock, BumpError>)
        ensures
            match r {
                Ok(b) => {
                    &&& valid_block_request(size as int)
                    &&& b@.len() == size
                    &&& forall|i: int| 0 <= i < size ==> b@[i] == 0
                },
                Err(e) => e == BumpError::BadRequest && !valid_block_request(size as int),
            },
    {
        if size == 0 {
            return Err(BumpError::BadRequest);
        }
        // Architectures have hard or soft requirements that memory access
        // must be aligned to power-of-two.
        if !is_power_of_two(size) {
            return Err(BumpError::BadRequest);
        }
        // Size must not overflow maximum available memory once rounded up
        // to the alignment.
        if size > usize::MAX - (size - 1) {
            return Err(BumpError::BadRequest);
        }
        let mut data: Vec<u8> = Vec::new();
        while data.len() < size
            invariant
                data@.len() <= size,
                forall|i: int| 0 <= i < data@.len() ==> data@[i] == 0,
            decreases size - data@.len(),
        {
            data.push(0);
        }
        Ok(RawBlock { data })
    }

    /// Create a raw block that carries no memory, for containers that are
    /// lazily allocated.
    pub fn dangling() -> (b: RawBlock)
        ensures
            b@.len() == 0,
    {
        RawBlock { data: Vec::new() }
    }

    /// Size of the owned region in bytes.
    pub fn size(&self) -> (s: usize)
        ensures
            s == self@.len(),
    {
        self.data.len()
    }
}

/// Mathematical model of a [`BumpAllocator`]: whether it has been
/// initialized, the cursor, and the arena contents.
pub struct AllocView {
    pub initialized: bool,
    pub cursor: nat,
    pub bytes: Seq<u8>,
}

impl AllocView {
    /// Arena capacity in bytes.
    pub open spec fn capacity(self) -> nat {
        self.bytes.len()
    }

    /// Validity of an allocator state: the cursor stays inside the arena,
    /// a live allocator owns exactly one fixed-size arena, and an
    /// uninitialized one owns no memory at all.
    pub open spec fn wf(self) -> bool {
        &&& self.cursor <= self.capacity()
        &&& (self.initialized ==> self.capacity() == BLOCK_SIZE)
        &&& (!self.initialized ==> self.capacity() == 0 && self.cursor == 0)
    }
}

/// State after a reset: the cursor returns to zero and everything else is
/// kept.
pub open spec fn spec_reset(v: AllocView) -> AllocView {
    AllocView { cursor: 0, ..v }
}

/// State transition and result of one allocation request. The allocator is
/// deterministic: for a fixed request sequence against a given state, the
/// returned offsets are fully determined by this function.
pub open spec fn spec_alloc(v: AllocView, size: int, align: int) -> (AllocView, Result<
    int,
    BumpError,
>) {
    if !v.initialized {
        (v, Err(BumpError::Uninitialized))
    } else if !valid_align(align) {
        (v, Err(BumpError::BadRequest))
    } else {
        let off = spec_align_up(v.cursor as int, align);
        if off + size >= v.capacity() {
            (v, Err(BumpError::NoSpace))
        } else {
            ((AllocView { cursor: (off + size) as nat, ..v }), Ok(off))
        }
    }
}

/// Placement and atomicity of allocation. A successful request returns
/// the smallest offset at or after the cursor that satisfies the
/// requested alignment and commits the cursor to the end of the new
/// allocation; a failed request leaves the state exactly as it was.
pub proof fn lemma_alloc_placement(v: AllocView, size: int, align: int)
    requires
        v.wf(),
    ensures
        (match spec_alloc(v, size, align).1 {
            Ok(off) => {
                &&& off == spec_align_up(v.cursor as int, align)
                &&& off % align == 0
                &&& v.cursor <= off
                &&& forall|m: int| v.cursor <= m < off ==> #[trigger] (m % align) != 0
                &&& off + size < v.capacity()
                &&& spec_alloc(v, size, align).0 == (AllocView {
                    cursor: (off + size) as nat,
                    ..v
                })
            },
            Err(_) => spec_alloc(v, size, align).0 == v,
        }),
{
    if v.initialized && valid_align(align) {
        lemma_align_up_properties(v.cursor as int, align);
    }
}

/// A monotonic allocator carved out of one [`RawBlock`].
pub struct BumpAllocator {
    /// Offset from the start of the block, just past the previously
    /// allocated object. Not guaranteed to be aligned.
    cursor: usize,
    block: RawBlock,
    initialized: bool,
}

impl View for BumpAllocator {
    type V = AllocView;

    closed spec fn view(&self) -> AllocView {
        AllocView { initialized: self.initialized, cursor: self.cursor as nat, bytes: self.block@ }
    }
}

impl BumpAllocator {
    /// Maximum number of bytes limit that can be allocated.
    pub const MAX_SIZE: usize = BLOCK_SIZE;

    /// Validity of the allocator's internal state; established by the
    /// constructors and preserved by every operation.
    pub open spec fn wf(&self) -> bool {
        self@.wf()
    }

    /// Create an allocator immediately backed by a real arena.
    pub fn new() -> (r: Result<Self, BumpError>)
        ensures
            r is Ok,
            match r {
                Ok(a) => {
                    &&& a.wf()
                    &&& a@.initialized
                    &&& a@.cursor == 0
                    &&& a@.capacity() == BLOCK_SIZE
                    &&& forall|i: int| 0 <= i < BLOCK_SIZE ==> a@.bytes[i] == 0
                },
                Err(_) => false,
            },
    {
        proof {
            lemma_block_size_power_of_two();
        }
        let block = RawBlock::new(BLOCK_SIZE)?;
        Ok(Self { cursor: 0, block, initialized: true })
    }

    /// Create a new allocator that is internally not initialized: it owns
    /// no memory, and every allocator operation fails with
    /// [`BumpError::Uninitialized`] until [`BumpAllocator::initialize`] is
    /// called.
    pub fn uninit() -> (a: Self)
        ensures
            a.wf(),
            !a@.initialized,
            a@.cursor == 0,
            a@.capacity() == 0,
    {
        Self { cursor: 0, block: RawBlock::dangling(), initialized: false }
    }

    /// (Re)acquire the backing arena and reset the cursor, turning a
    /// previously uninitialized allocator live.
    pub fn initialize(&mut self) -> (r: Result<(), BumpError>)
        ensures
            r is Ok,
            final(self).wf(),
            final(self)@.initialized,
            final(self)@.cursor == 0,
            final(self)@.capacity() == BLOCK_SIZE,
            forall|i: int| 0 <= i < BLOCK_SIZE ==> final(self)@.bytes[i] == 0,
    {
        proof {
            lemma_block_size_power_of_two();
        }
        let block = RawBlock::new(BLOCK_SIZE)?;
        *self = Self { cursor: 0, block, initialized: true };
        Ok(())
    }

    /// Allocate with the default alignment of a machine word or a double
    /// machine word, selected by [`align_word`].
    pub fn alloc_aligned(&mut self, size: usize) -> (r: Result<RawPtr, BumpError>)
        requires
            old(self).wf(),
        ensures
            final(self).wf(),
            ({
                let step: (AllocView, Result<int, BumpError>) = spec_alloc(
                    old(self)@,
                    size as int,
                    spec_align_word(size as int),
                );
                &&& final(self)@ == step.0
                &&& match r {
                    Ok(p) => step.1 == Ok::<int, BumpError>(p@ as int),
                    Err(e) => step.1 == Err::<int, BumpError>(e),
                }
            }),
            r is Err ==> final(self)@ == old(self)@,
            !old(self)@.initialized <==> r == Err::<RawPtr, BumpError>(BumpError::Uninitialized),
    {
        let align = align_word(size);
        self.allocate(size, align)
    }

    /// Allocate a new object in the allocator's space and bump the cursor.
    ///
    /// The returned handle points at the smallest offset at or after the
    /// cursor that satisfies the requested alignment; the cursor commits
    /// to the end of the new allocation only on success. On any failure
    /// the allocator state is left exactly as it was.
    pub fn allocate(&mut self, size: usize, align: usize) -> (r: Result<RawPtr, BumpError>)
        requires
            old(self).wf(),
        ensures
            final(self).wf(),
            ({
                let step: (AllocView, Result<int, BumpError>) = spec_alloc(
                    old(self)@,
                    size as int,
                    align as int,
                );
                &&& final(self)@ == step.0
                &&& match r {
                    Ok(p) => step.1 == Ok::<int, BumpError>(p@ as int),
                    Err(e) => step.1 == Err::<int, BumpError>(e),
                }
            }),
            r is Err ==> final(self)@ == old(self)@,
            !old(self)@.initialized <==> r == Err::<RawPtr, BumpError>(BumpError::Uninitialized),
            old(self)@.initialized && !valid_align(align as int) <==> r == Err::<RawPtr, BumpError>(
                BumpError::BadRequest,
            ),
            old(self)@.initialized && valid_align(align as int) && spec_align_up(
                old(self)@.cursor as int,
                align as int,
            ) + size >= old(self)@.capacity() <==> r == Err::<RawPtr, BumpError>(BumpError::NoSpace),
            match r {
                Ok(p) => {
                    &&& p@ == spec_align_up(old(self)@.cursor as int, align as int)
                    &&& p@ % (align as nat) == 0
                    &&& old(self)@.cursor <= p@
                    &&& forall|m: int|
                        old(self)@.cursor <= m < p@ ==> #[trigger] (m % (align as int)) != 0
                    &&& p@ + size < old(self)@.capacity()
                    &&& final(self)@.cursor == p@ + size
                    &&& final(self)@.bytes == old(self)@.bytes
                    &&& final(self)@.initialized
                },
                Err(_) => true,
            },
    {
        if !self.initialized {
            return Err(BumpError::Uninitialized);
        }
        if align == 0 {
            return Err(BumpError::BadRequest);
        }
        if !is_power_of_two(align) {
            return Err(BumpError::BadRequest);
        }
        let cap = self.block.size();
        let off: usize;
        if align <= cap {
            off = align_up(self.cursor, align);
        } else if self.cursor == 0 {
            proof {
                lemma_small_mod(0, align as nat);
            }
            off = 0;
        } else {
            // The cursor is inside the arena, hence below `align`, so the
            // next aligned offset is `align` itself.
            proof {
                lemma_small_mod(self.cursor as nat, align as nat);
            }
            off = align;
        }
        proof {
            lemma_align_up_properties(self.cursor as int, align as int);
        }
        if off >= cap || size >= cap - off {
            return Err(BumpError::NoSpace);
        }
        // Commit
        self.cursor = off + size;
        Ok(RawPtr { offset: off })
    }

    /// Clears the allocator's space, making the entire arena available
    /// again and logically invalidating every previously returned pointer.
    ///
    /// It is the caller's responsibility that no previously returned
    /// pointer is still being read.
    pub fn reset(&mut self) -> (r: Result<(), BumpError>)
        requires
            old(self).wf(),
        ensures
            final(self).wf(),
            old(self)@.initialized <==> r is Ok,
            !old(self)@.initialized <==> r == Err::<(), BumpError>(BumpError::Uninitialized),
            r is Err ==> final(self)@ == old(self)@,
            r is Ok ==> final(self)@ == spec_reset(old(self)@),
    {
        if !self.initialized {
            return Err(BumpError::Uninitialized);
        }
        self.cursor = 0;
        Ok(())
    }

    /// Write a byte range into the arena, as the host's memory-access
    /// primitive does after an allocation. The range is validated against
    /// the arena bounds; a range that does not fit is refused with
    /// [`BumpError::BadRequest`] and the arena is left untouched.
    pub fn write_at(&mut self, offset: usize, data: &[u8]) -> (r: Result<(), BumpError>)
        requires
            old(self).wf(),
        ensures
            final(self).wf(),
            old(self)@.initialized && offset + data@.len() <= old(self)@.capacity() <==> r is Ok,
            !old(self)@.initialized <==> r == Err::<(), BumpError>(BumpError::Uninitialized),
            old(self)@.initialized && offset + data@.len() > old(self)@.capacity() <==> r == Err::<
                (),
                BumpError,
            >(BumpError::BadRequest),
            r is Err ==> final(self)@ == old(self)@,
            r is Ok ==> {
                &&& final(self)@.initialized == old(self)@.initialized
                &&& final(self)@.cursor == old(self)@.cursor
                &&& final(self)@.bytes.len() == old(self)@.bytes.len()
                &&& forall|j: int|
                    offset <= j < offset + data@.len() ==> final(self)@.bytes[j] == data@[j
                        - offset]
                &&& forall|j: int|
                    0 <= j < old(self)@.bytes.len() && !(offset <= j < offset + data@.len())
                        ==> final(self)@.bytes[j] == old(self)@.bytes[j]
            },
    {
        if !self.initialized {
            return Err(BumpError::Uninitialized);
        }
        let cap = self.block.size();
        if offset > cap || data.len() > cap - offset {
            return Err(BumpError::BadRequest);
        }
        let mut i: usize = 0;
        while i < data.len()
            invariant
                0 <= i <= data@.len(),
                offset + data@.len() <= usize::MAX,
                offset + data@.len() <= self.block@.len(),
                self.block@.len() == old(self)@.bytes.len(),
                self.cursor == old(self)@.cursor,
                self.initialized == old(self)@.initialized,
                forall|j: int| offset <= j < offset + i ==> self.block@[j] == data@[j - offset],
                forall|j: int|
                    0 <= j < old(self)@.bytes.len() && !(offset <= j < offset + i)
                        ==> self.block@[j] == old(self)@.bytes[j],
            decreases data@.len() - i,
        {
            self.block.data.set(offset + i, data[i]);
            i = i + 1;
        }
        Ok(())
    }

    /// Read a byte range out of the arena, validated against the arena
    /// bounds.
    pub fn read_at(&self, offset: usize, len: usize) -> (r: Result<Vec<u8>, BumpError>)
        requires
            self.wf(),
        ensures
            self@.initialized && offset + len <= self@.capacity() <==> r is Ok,
            !self@.initialized <==> r == Err::<Vec<u8>, BumpError>(BumpError::Uninitialized),
            self@.initialized && offset + len > self@.capacity() <==> r == Err::<Vec<u8>, BumpError>(
                BumpError::BadRequest,
            ),
            match r {
                Ok(v) => v@ == self@.bytes.subrange(offset as int, offset + len),
                Err(_) => true,
            },
    {
        if !self.initialized {
            return Err(BumpError::Uninitialized);
        }
        let cap = self.block.size();
        if offset > cap || len > cap - offset {
            return Err(BumpError::BadRequest);
        }
        let mut out: Vec<u8> = Vec::new();
        let mut i: usize = 0;
        while i < len
            invariant
                0 <= i <= len,
                offset + len <= usize::MAX,
                offset + len <= self.block@.len(),
                out@.len() == i,
                forall|j: int| 0 <= j < i ==> out@[j] == self.block@[offset + j],
            decreases len - i,
        {
            out.push(self.block.data[offset + i]);
            i = i + 1;
        }
        proof {
            assert(out@ =~= self@.bytes.subrange(offset as int, offset + len));
        }
        Ok(out)
    }

    /// Current cursor offset from the start of the arena.
    pub fn cursor(&self) -> (c: usize)
        ensures
            c == self@.cursor,
    {
        self.cursor
    }

    /// Whether the allocator is backed by a live arena.
    pub fn is_initialized(&self) -> (b: bool)
        ensures
            b == self@.initialized,
    {
        self.initialized
    }

    /// Arena capacity in bytes: `BLOCK_SIZE` once initialized, zero before.
    pub fn capacity(&self) -> (c: usize)
        ensures
            c == self@.capacity(),
    {
        self.block.size()
    }
}

/// After a reset, the allocator answers allocation requests exactly as a
/// freshly initialized allocator of the same capacity does: the same
/// request yields the same offset and the same cursor.
pub proof fn lemma_reset_restores_capacity(v: AllocView, fresh: AllocView, size: int, align: int)
    requires
        v.wf(),
        v.initialized,
        fresh.wf(),
        fresh.initialized,
        fresh.cursor == 0,
    ensures
        spec_alloc(spec_reset(v), size, align).1 == spec_alloc(fresh, size, align).1,
        spec_alloc(spec_reset(v), size, align).0.cursor == spec_alloc(fresh, size, align).0.cursor,
{
}

/// Wrapper for a location inside a [`BumpAllocator`]'s arena: an opaque
/// offset handle, valid until the owning allocator's next reset or
/// teardown, and validated against the arena bounds on every dereference.
#[derive(Debug, PartialEq, Eq, Structural)]
pub struct RawPtr {
    offset: usize,
}

impl View for RawPtr {
    type V = nat;

    closed spec fn view(&self) -> nat {
        self.offset as nat
    }
}

impl RawPtr {
    /// Retrieve the arena offset this handle stands for, for read use.
    pub fn as_ptr(&self) -> (o: usize)
        ensures
            o == self@,
    {
        self.offset
    }

    /// Retrieve the arena offset this handle stands for, for write use.
    pub fn as_ptr_mut(&self) -> (o: usize)
        ensures
            o == self@,
    {
        self.offset
    }
}

} // verus!

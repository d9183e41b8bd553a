//! The run context: the accounting state and storage of one program
//! execution, and the operations behind the runtime intrinsics.
//!
//! Storage is a sequence of blocks. A pointer names a block and an offset in
//! it, so two allocations never overlap and a fresh allocation differs from
//! every pointer handed out before. Buffers hold bytes and come from the
//! allocator; records hold one value per slot and stand for the stack slots in
//! which generated code keeps its accumulators.

use vstd::prelude::*;
use crate::value::Ptr;
use crate::value::Atom;
use crate::value::Val;

verus! {

/// One block of a run's storage.
#[derive(Debug)]
pub enum Block {
    /// A live allocation and its bytes.
    Buffer(Vec<u8>),
    /// An allocation that was released.
    Freed,
    /// A record and the values in its slots.
    Slots(Vec<Atom>),
}

/// A block, as a mathematical value.
#[verifier::ext_equal]
pub enum BlockView {
    Buffer(Seq<u8>),
    Freed,
    Slots(Seq<Atom>),
}

impl View for Block {
    type V = BlockView;

    open spec fn view(&self) -> BlockView {
        match self {
            Block::Buffer(bytes) => BlockView::Buffer(bytes@),
            Block::Freed => BlockView::Freed,
            Block::Slots(slots) => BlockView::Slots(slots@),
        }
    }
}

/// Number of bytes that a block counts for in the allocated total.
pub open spec fn block_bytes(block: BlockView) -> nat {
    match block {
        BlockView::Buffer(bytes) => bytes.len(),
        _ => 0,
    }
}

/// Total size of the live allocations among the blocks.
pub open spec fn live_bytes(blocks: Seq<BlockView>) -> nat
    decreases blocks.len(),
{
    if blocks.len() == 0 {
        0
    } else {
        live_bytes(blocks.drop_last()) + block_bytes(blocks.last())
    }
}

pub proof fn lemma_live_bytes_push(blocks: Seq<BlockView>, block: BlockView)
    ensures
        live_bytes(blocks.push(block)) == live_bytes(blocks) + block_bytes(block),
{
    assert(blocks.push(block).drop_last() =~= blocks);
}

pub proof fn lemma_live_bytes_update(blocks: Seq<BlockView>, i: int, block: BlockView)
    requires
        0 <= i < blocks.len(),
    ensures
        live_bytes(blocks.update(i, block)) == live_bytes(blocks) - block_bytes(blocks[i])
            + block_bytes(block),
        block_bytes(blocks[i]) <= live_bytes(blocks),
    decreases blocks.len(),
{
    if i == blocks.len() - 1 {
        assert(blocks.update(i, block).drop_last() =~= blocks.drop_last());
    } else {
        lemma_live_bytes_update(blocks.drop_last(), i, block);
        assert(blocks.update(i, block).drop_last() =~= blocks.drop_last().update(i, block));
    }
}

/// The code of the out-of-memory error.
pub const OUT_OF_MEMORY: i64 = 7;

/// The code of the assertion error.
pub const ASSERTION_ERROR: i64 = 12;

/// The state of a run, as a mathematical value.
#[verifier::ext_equal]
pub struct RunView {
    /// The error code of the run; 0 is success.
    pub errno: i64,
    /// The pointer through which the program hands its result to the host.
    pub result: Ptr,
    /// Number of worker threads.
    pub nworkers: i32,
    /// Upper limit for `allocated`.
    pub memlimit: u64,
    /// Total size in bytes of the live allocations.
    pub allocated: u64,
    /// Whether the run was terminated through the error path.
    pub halted: bool,
    pub blocks: Seq<BlockView>,
}

impl RunView {
    /// The state of a run that has just been created.
    pub open spec fn init(nworkers: i32, memlimit: u64) -> RunView {
        RunView {
            errno: 0,
            result: Ptr::Null,
            nworkers,
            memlimit,
            allocated: 0,
            halted: false,
            blocks: Seq::empty(),
        }
    }

    /// The accounting invariant: `allocated` is the total size of the live
    /// allocations.
    pub open spec fn wf(self) -> bool {
        &&& self.allocated == live_bytes(self.blocks)
        &&& self.blocks.len() <= usize::MAX
    }

    /// Whether the pointer is the start of a live allocation.
    pub open spec fn owns(self, p: Ptr) -> bool {
        p matches Ptr::At(b, off) && off == 0 && b < self.blocks.len()
            && self.blocks[b as int] is Buffer
    }

    /// The bytes of the buffer that the pointer points into.
    pub open spec fn bytes(self, p: Ptr) -> Seq<u8> {
        self.blocks[p->0 as int]->Buffer_0
    }

    /// Whether `n` bytes from the pointer on lie in one live allocation.
    pub open spec fn in_bounds(self, p: Ptr, n: int) -> bool {
        p matches Ptr::At(b, off) && b < self.blocks.len() && self.blocks[b as int] is Buffer
            && off + n <= self.bytes(p).len()
    }

    /// The `n` bytes from the pointer on.
    pub open spec fn read(self, p: Ptr, n: int) -> Seq<u8> {
        self.bytes(p).subrange(p->1 as int, p->1 + n)
    }

    /// The state after the bytes were written from the pointer on.
    pub open spec fn write(self, p: Ptr, data: Seq<u8>) -> RunView {
        let old = self.bytes(p);
        let off = p->1 as int;
        let new = Seq::new(
            old.len(),
            |i: int|
                if off <= i < off + data.len() {
                    data[i - off]
                } else {
                    old[i]
                },
        );
        RunView { blocks: self.blocks.update(p->0 as int, BlockView::Buffer(new)), ..self }
    }

    /// Whether an allocation of `size` bytes is granted once `freed` bytes
    /// have been given back: the total stays within the memory limit, and the
    /// machine can address the bytes and one more block.
    pub open spec fn fits(self, freed: int, size: u64) -> bool {
        &&& self.allocated - freed + size <= self.memlimit
        &&& size <= usize::MAX
        &&& self.blocks.len() < usize::MAX
    }

    /// `malloc`: a pointer to `size` fresh zero bytes. A request for no bytes
    /// yields the null pointer; so does one beyond the memory limit, which
    /// also sets the error code to out-of-memory.
    pub open spec fn malloc(self, size: u64) -> (Ptr, RunView) {
        if size == 0 {
            (Ptr::Null, self)
        } else if !self.fits(0, size) {
            (Ptr::Null, RunView { errno: OUT_OF_MEMORY, ..self })
        } else {
            (
                Ptr::At(self.blocks.len() as usize, 0),
                RunView {
                    allocated: (self.allocated + size) as u64,
                    blocks: self.blocks.push(
                        BlockView::Buffer(Seq::new(size as nat, |i: int| 0u8)),
                    ),
                    ..self
                },
            )
        }
    }

    /// `free`: releases the allocation that starts at the pointer. Freeing the
    /// null pointer does nothing.
    pub open spec fn free(self, p: Ptr) -> RunView
        recommends
            p is Null || self.owns(p),
    {
        if p is Null {
            self
        } else {
            RunView {
                allocated: (self.allocated - self.bytes(p).len()) as u64,
                blocks: self.blocks.update(p->0 as int, BlockView::Freed),
                ..self
            }
        }
    }

    /// The first `size` bytes of `old`, followed by zero bytes where `old` is
    /// shorter.
    pub open spec fn resized(old: Seq<u8>, size: u64) -> Seq<u8> {
        Seq::new(
            size as nat,
            |i: int|
                if i < old.len() {
                    old[i]
                } else {
                    0u8
                },
        )
    }

    /// `realloc`: moves the allocation that starts at the pointer into a fresh
    /// one of `size` bytes, keeping its leading bytes, and releases the old
    /// one. With the null pointer it is `malloc`; with no bytes requested it
    /// is `free`. Beyond the memory limit it yields the null pointer, sets the
    /// error code to out-of-memory and leaves the old allocation as it is.
    pub open spec fn realloc(self, p: Ptr, size: u64) -> (Ptr, RunView)
        recommends
            p is Null || self.owns(p),
    {
        if p is Null {
            self.malloc(size)
        } else if size == 0 {
            (Ptr::Null, self.free(p))
        } else if !self.fits(self.bytes(p).len() as int, size) {
            (Ptr::Null, RunView { errno: OUT_OF_MEMORY, ..self })
        } else {
            (
                Ptr::At(self.blocks.len() as usize, 0),
                RunView {
                    allocated: (self.allocated - self.bytes(p).len() + size) as u64,
                    blocks: self.blocks.update(p->0 as int, BlockView::Freed).push(
                        BlockView::Buffer(Self::resized(self.bytes(p), size)),
                    ),
                    ..self
                },
            )
        }
    }

    /// Block copy: `n` bytes from `src` to `dst`. It has no meaning unless
    /// both ranges lie in live allocations; copying no bytes always has one.
    pub open spec fn memcpy(self, dst: Ptr, src: Ptr, n: u64) -> Option<RunView> {
        if n == 0 {
            Some(self)
        } else if self.in_bounds(src, n as int) && self.in_bounds(dst, n as int) {
            Some(self.write(dst, self.read(src, n as int)))
        } else {
            None
        }
    }

    /// Block fill: `n` bytes from `dst` on are set to `byte`.
    pub open spec fn memset(self, dst: Ptr, byte: u8, n: u64) -> Option<RunView> {
        if n == 0 {
            Some(self)
        } else if self.in_bounds(dst, n as int) {
            Some(self.write(dst, Seq::new(n as nat, |i: int| byte)))
        } else {
            None
        }
    }

    /// A fresh record of the given number of slots, all undefined.
    pub open spec fn alloca(self, slots: nat) -> (Ptr, RunView) {
        (
            Ptr::At(self.blocks.len() as usize, 0),
            RunView {
                blocks: self.blocks.push(BlockView::Slots(Seq::new(slots, |i: int| Atom::Undef))),
                ..self
            },
        )
    }

    /// Whether `n` slots from the pointer on lie in one record.
    pub open spec fn in_slots(self, p: Ptr, n: int) -> bool {
        p matches Ptr::At(b, off) && b < self.blocks.len() && self.blocks[b as int] is Slots
            && off + n <= self.blocks[b as int]->Slots_0.len()
    }

    /// The value in the slot that the pointer designates.
    pub open spec fn load(self, p: Ptr) -> Option<Atom> {
        if self.in_slots(p, 1) {
            Some(self.blocks[p->0 as int]->Slots_0[p->1 as int])
        } else {
            None
        }
    }

    /// The state after the slot at the given block and offset was set.
    pub open spec fn set_slot(self, block: int, off: int, a: Atom) -> RunView {
        RunView {
            blocks: self.blocks.update(
                block,
                BlockView::Slots(self.blocks[block]->Slots_0.update(off, a)),
            ),
            ..self
        }
    }

    /// The state after the value was stored where the pointer points. A record
    /// takes two consecutive slots.
    pub open spec fn store(self, p: Ptr, v: Val) -> Option<RunView> {
        match v {
            Val::Unit => None,
            Val::Atom(a) => if self.in_slots(p, 1) {
                Some(self.set_slot(p->0 as int, p->1 as int, a))
            } else {
                None
            },
            Val::Record(a, b) => if self.in_slots(p, 2) {
                Some(
                    self.set_slot(p->0 as int, p->1 as int, a).set_slot(
                        p->0 as int,
                        p->1 + 1,
                        b,
                    ),
                )
            } else {
                None
            },
        }
    }

    /// `malloc` keeps the accounting invariant.
    pub proof fn lemma_malloc_wf(self, size: u64)
        requires
            self.wf(),
        ensures
            self.malloc(size).1.wf(),
    {
        lemma_live_bytes_push(self.blocks, BlockView::Buffer(Seq::new(size as nat, |i: int| 0u8)));
    }

    /// `free` keeps the accounting invariant.
    pub proof fn lemma_free_wf(self, p: Ptr)
        requires
            self.wf(),
            p is Null || self.owns(p),
        ensures
            self.free(p).wf(),
    {
        if p !is Null {
            lemma_live_bytes_update(self.blocks, p->0 as int, BlockView::Freed);
        }
    }

    /// `realloc` keeps the accounting invariant.
    pub proof fn lemma_realloc_wf(self, p: Ptr, size: u64)
        requires
            self.wf(),
            p is Null || self.owns(p),
        ensures
            self.realloc(p, size).1.wf(),
    {
        if p is Null {
            self.lemma_malloc_wf(size);
        } else {
            self.lemma_free_wf(p);
            lemma_live_bytes_update(self.blocks, p->0 as int, BlockView::Freed);
            lemma_live_bytes_push(
                self.blocks.update(p->0 as int, BlockView::Freed),
                BlockView::Buffer(Self::resized(self.bytes(p), size)),
            );
        }
    }

    /// Writing bytes keeps the accounting invariant, and so do the block copy
    /// and the block fill.
    pub proof fn lemma_write_wf(self, p: Ptr, data: Seq<u8>)
        requires
            self.wf(),
            self.in_bounds(p, data.len() as int),
        ensures
            self.write(p, data).wf(),
    {
        lemma_live_bytes_update(
            self.blocks,
            p->0 as int,
            self.write(p, data).blocks[p->0 as int],
        );
        assert(self.write(p, data).blocks =~= self.blocks.update(
            p->0 as int,
            self.write(p, data).blocks[p->0 as int],
        ));
    }

    /// `set_errno`: records the error and terminates the run.
    pub open spec fn set_errno(self, code: i64) -> RunView {
        RunView { errno: code, halted: true, ..self }
    }

    /// `assert`: where the condition fails, records the assertion error and
    /// terminates the run.
    pub open spec fn check(self, cond: bool) -> RunView {
        if cond {
            self
        } else {
            self.set_errno(ASSERTION_ERROR)
        }
    }
}

/// The accounting state and storage of one program execution.
#[derive(Debug)]
pub struct RunContext {
    errno: i64,
    result: Ptr,
    nworkers: i32,
    memlimit: u64,
    allocated: u64,
    halted: bool,
    blocks: Vec<Block>,
}

impl View for RunContext {
    type V = RunView;

    closed spec fn view(&self) -> RunView {
        RunView {
            errno: self.errno,
            result: self.result,
            nworkers: self.nworkers,
            memlimit: self.memlimit,
            allocated: self.allocated,
            halted: self.halted,
            blocks: self.blocks@.map_values(|b: Block| b@),
        }
    }
}

/// A buffer of `size` zero bytes.
fn zeros(size: usize) -> (bytes: Vec<u8>)
    ensures
        bytes@ == Seq::new(size as nat, |i: int| 0u8),
{
    let mut bytes: Vec<u8> = Vec::new();
    let mut i: usize = 0;
    while i < size
        invariant
            i <= size,
            bytes@.len() == i,
            forall|j: int| 0 <= j < i ==> bytes@[j] == 0u8,
        decreases size - i,
    {
        bytes.push(0u8);
        i = i + 1;
    }
    assert(bytes@ =~= Seq::new(size as nat, |i: int| 0u8));
    bytes
}

impl RunContext {
    proof fn lemma_view_blocks(&self)
        ensures
            self@.blocks.len() == self.blocks@.len(),
            forall|b: int|
                0 <= b < self.blocks@.len() ==> #[trigger] self@.blocks[b] == self.blocks@[b]@,
            forall|b: int|
                0 <= b < self.blocks@.len() ==> match #[trigger] self@.blocks[b] {
                    BlockView::Buffer(bytes) => bytes.len() <= usize::MAX,
                    BlockView::Freed => true,
                    BlockView::Slots(slots) => slots.len() <= usize::MAX,
                },
    {
        assert forall|b: int| 0 <= b < self.blocks@.len() implies match #[trigger] self@.blocks[b] {
            BlockView::Buffer(bytes) => bytes.len() <= usize::MAX,
            BlockView::Freed => true,
            BlockView::Slots(slots) => slots.len() <= usize::MAX,
        } by {
            match self.blocks@[b] {
                Block::Buffer(bytes) => {
                    assert(bytes.len() == bytes@.len());
                },
                Block::Freed => {},
                Block::Slots(slots) => {
                    assert(slots.len() == slots@.len());
                },
            }
        }
    }

    /// Whether the accounting invariant holds.
    pub open spec fn wf(&self) -> bool {
        self@.wf()
    }

    /// `init`: the context of a new run.
    pub fn init(nworkers: i32, memlimit: u64) -> (run: RunContext)
        ensures
            run@ == RunView::init(nworkers, memlimit),
            run.wf(),
    {
        let run = RunContext {
            errno: 0,
            result: Ptr::Null,
            nworkers,
            memlimit,
            allocated: 0,
            halted: false,
            blocks: Vec::new(),
        };
        assert(run@.blocks =~= Seq::empty());
        run
    }

    /// `get_errno`: the error code of the run.
    pub fn get_errno(&self) -> (code: i64)
        ensures
            code == self@.errno,
    {
        self.errno
    }

    /// `set_errno`: records the error and terminates the run.
    pub fn set_errno(&mut self, code: i64)
        ensures
            final(self)@ == old(self)@.set_errno(code),
    {
        self.errno = code;
        self.halted = true;
    }

    /// `get_result`: the pointer that the program handed to the host.
    pub fn get_result(&self) -> (p: Ptr)
        ensures
            p == self@.result,
    {
        self.result
    }

    /// `set_result`: hands the pointer to the host.
    pub fn set_result(&mut self, p: Ptr)
        ensures
            final(self)@ == (RunView { result: p, ..old(self)@ }),
    {
        self.result = p;
    }

    /// `assert`: passes the condition through; where it fails, records the
    /// assertion error and terminates the run.
    pub fn check(&mut self, cond: bool) -> (passed: bool)
        ensures
            passed == cond,
            final(self)@ == old(self)@.check(cond),
    {
        if !cond {
            self.set_errno(ASSERTION_ERROR);
        }
        cond
    }

    /// Whether the run was terminated through the error path.
    pub fn is_halted(&self) -> (halted: bool)
        ensures
            halted == self@.halted,
    {
        self.halted
    }

    /// Number of worker threads the run was created with.
    pub fn nworkers(&self) -> (n: i32)
        ensures
            n == self@.nworkers,
    {
        self.nworkers
    }

    /// The memory limit the run was created with.
    pub fn memlimit(&self) -> (n: u64)
        ensures
            n == self@.memlimit,
    {
        self.memlimit
    }

    /// Total size in bytes of the live allocations.
    pub fn allocated(&self) -> (n: u64)
        ensures
            n == self@.allocated,
    {
        self.allocated
    }

    /// Whether the pointer is the start of a live allocation.
    pub fn owns(&self, p: Ptr) -> (b: bool)
        ensures
            b == self@.owns(p),
    {
        match p {
            Ptr::Null => false,
            Ptr::At(block, off) => {
                if off == 0 && block < self.blocks.len() {
                    match &self.blocks[block] {
                        Block::Buffer(_) => true,
                        _ => false,
                    }
                } else {
                    false
                }
            },
        }
    }

    fn fits(&self, freed: u64, size: u64) -> (b: bool)
        requires
            freed <= self@.allocated,
        ensures
            b == self@.fits(freed as int, size),
    {
        let base = self.allocated - freed;
        let within = match base.checked_add(size) {
            Some(total) => total <= self.memlimit,
            None => false,
        };
        within && size <= usize::MAX as u64 && self.blocks.len() < usize::MAX
    }

    /// `malloc`.
    pub fn malloc(&mut self, size: u64) -> (p: Ptr)
        requires
            old(self).wf(),
        ensures
            final(self).wf(),
            (p, final(self)@) == old(self)@.malloc(size),
    {
        if size == 0 {
            return Ptr::Null;
        }
        if !self.fits(0, size) {
            self.errno = OUT_OF_MEMORY;
            return Ptr::Null;
        }
        let bytes = zeros(size as usize);
        let block = self.blocks.len();
        proof {
            lemma_live_bytes_push(old(self)@.blocks, BlockView::Buffer(bytes@));
        }
        self.blocks.push(Block::Buffer(bytes));
        self.allocated = self.allocated + size;
        assert(self@.blocks =~= old(self)@.blocks.push(BlockView::Buffer(bytes@)));
        assert(self.blocks@.len() == self.blocks.len());
        Ptr::At(block, 0)
    }

    /// `free`.
    pub fn free(&mut self, p: Ptr)
        requires
            old(self).wf(),
            p is Null || old(self)@.owns(p),
        ensures
            final(self).wf(),
            final(self)@ == old(self)@.free(p),
    {
        match p {
            Ptr::Null => {},
            Ptr::At(block, _) => {
                let len = match &self.blocks[block] {
                    Block::Buffer(bytes) => bytes.len(),
                    _ => 0,
                };
                proof {
                    lemma_live_bytes_update(old(self)@.blocks, block as int, BlockView::Freed);
                }
                self.blocks.set(block, Block::Freed);
                self.allocated = self.allocated - len as u64;
                assert(self@.blocks =~= old(self)@.blocks.update(block as int, BlockView::Freed));
            },
        }
    }

    /// `realloc`.
    pub fn realloc(&mut self, p: Ptr, size: u64) -> (q: Ptr)
        requires
            old(self).wf(),
            p is Null || old(self)@.owns(p),
        ensures
            final(self).wf(),
            (q, final(self)@) == old(self)@.realloc(p, size),
    {
        match p {
            Ptr::Null => self.malloc(size),
            Ptr::At(block, _) => {
                if size == 0 {
                    self.free(p);
                    return Ptr::Null;
                }
                proof {
                    lemma_live_bytes_update(old(self)@.blocks, block as int, BlockView::Freed);
                }
                let bytes = match &self.blocks[block] {
                    Block::Buffer(bytes) => {
                        if !self.fits(bytes.len() as u64, size) {
                            None
                        } else {
                            let mut moved: Vec<u8> = Vec::new();
                            let n = size as usize;
                            let mut i: usize = 0;
                            while i < n
                                invariant
                                    i <= n,
                                    n == size,
                                    moved@.len() == i,
                                    forall|j: int|
                                        0 <= j < i ==> moved@[j] == RunView::resized(
                                            bytes@,
                                            size,
                                        )[j],
                                decreases n - i,
                            {
                                moved.push(
                                    if i < bytes.len() {
                                        bytes[i]
                                    } else {
                                        0u8
                                    },
                                );
                                i = i + 1;
                            }
                            assert(moved@ =~= RunView::resized(bytes@, size));
                            Some((moved, bytes.len() as u64))
                        }
                    },
                    _ => None,
                };
                match bytes {
                    None => {
                        self.errno = OUT_OF_MEMORY;
                        Ptr::Null
                    },
                    Some((moved, len)) => {
                        let fresh = self.blocks.len();
                        let ghost freed = old(self)@.blocks.update(block as int, BlockView::Freed);
                        proof {
                            lemma_live_bytes_push(freed, BlockView::Buffer(moved@));
                        }
                        self.blocks.set(block, Block::Freed);
                        self.blocks.push(Block::Buffer(moved));
                        self.allocated = self.allocated - len + size;
                        assert(self@.blocks =~= freed.push(BlockView::Buffer(moved@)));
                        assert(self.blocks@.len() == self.blocks.len());
                        Ptr::At(fresh, 0)
                    },
                }
            },
        }
    }

    /// Whether `n` bytes from the pointer on lie in one live allocation.
    pub fn in_bounds(&self, p: Ptr, n: u64) -> (b: bool)
        ensures
            b == self@.in_bounds(p, n as int),
    {
        match p {
            Ptr::Null => false,
            Ptr::At(block, off) => {
                if block < self.blocks.len() {
                    match &self.blocks[block] {
                        Block::Buffer(bytes) => {
                            let len = bytes.len() as u64;
                            off <= len && n <= len - off
                        },
                        _ => false,
                    }
                } else {
                    false
                }
            },
        }
    }

    /// The `n` bytes from the pointer on, where they lie in one live
    /// allocation.
    pub fn read_bytes(&self, p: Ptr, n: u64) -> (data: Option<Vec<u8>>)
        ensures
            data is Some <==> self@.in_bounds(p, n as int),
            data matches Some(d) ==> d@ == self@.read(p, n as int),
    {
        if !self.in_bounds(p, n) {
            return None;
        }
        match p {
            Ptr::Null => None,
            Ptr::At(block, off) => {
                match &self.blocks[block] {
                    Block::Buffer(bytes) => {
                        proof {
                            self.lemma_view_blocks();
                            assert(self@.bytes(p) == bytes@);
                        }
                        let start = off as usize;
                        let count = n as usize;
                        let mut data: Vec<u8> = Vec::new();
                        let mut i: usize = 0;
                        while i < count
                            invariant
                                i <= count,
                                start + count <= bytes@.len() <= usize::MAX,
                                data@.len() == i,
                                forall|j: int| 0 <= j < i ==> data@[j] == bytes@[start + j],
                            decreases count - i,
                        {
                            data.push(bytes[start + i]);
                            i = i + 1;
                        }
                        assert(data@ =~= self@.read(p, n as int));
                        Some(data)
                    },
                    _ => None,
                }
            },
        }
    }

    /// Writes the bytes from the pointer on, where they lie in one live
    /// allocation, and says whether they did.
    pub fn write_bytes(&mut self, p: Ptr, data: &Vec<u8>) -> (done: bool)
        requires
            old(self).wf(),
        ensures
            final(self).wf(),
            done == old(self)@.in_bounds(p, data@.len() as int),
            final(self)@ == if done {
                old(self)@.write(p, data@)
            } else {
                old(self)@
            },
    {
        if !self.in_bounds(p, data.len() as u64) {
            return false;
        }
        match p {
            Ptr::Null => false,
            Ptr::At(block, off) => {
                let ghost want = old(self)@.write(p, data@).blocks[block as int]->Buffer_0;
                let new = match &self.blocks[block] {
                    Block::Buffer(bytes) => {
                        let start = off as usize;
                        let len = bytes.len();
                        let mut new: Vec<u8> = Vec::new();
                        let mut i: usize = 0;
                        while i < len
                            invariant
                                i <= len,
                                len == bytes@.len(),
                                start + data@.len() <= len,
                                want.len() == len,
                                forall|j: int|
                                    0 <= j < len ==> want[j] == if start <= j < start
                                        + data@.len() {
                                        data@[j - start]
                                    } else {
                                        bytes@[j]
                                    },
                                new@.len() == i,
                                forall|j: int| 0 <= j < i ==> new@[j] == want[j],
                            decreases len - i,
                        {
                            new.push(
                                if start <= i && i - start < data.len() {
                                    data[i - start]
                                } else {
                                    bytes[i]
                                },
                            );
                            i = i + 1;
                        }
                        assert(new@ =~= want);
                        new
                    },
                    _ => Vec::new(),
                };
                proof {
                    lemma_live_bytes_update(
                        old(self)@.blocks,
                        block as int,
                        BlockView::Buffer(new@),
                    );
                }
                self.blocks.set(block, Block::Buffer(new));
                assert(self@.blocks =~= old(self)@.blocks.update(
                    block as int,
                    BlockView::Buffer(new@),
                ));
                true
            },
        }
    }

    /// Block copy, and whether it has a meaning.
    pub fn memcpy(&mut self, dst: Ptr, src: Ptr, n: u64) -> (done: bool)
        requires
            old(self).wf(),
        ensures
            final(self).wf(),
            done == old(self)@.memcpy(dst, src, n) is Some,
            final(self)@ == if done {
                old(self)@.memcpy(dst, src, n)->0
            } else {
                old(self)@
            },
    {
        if n == 0 {
            return true;
        }
        if !self.in_bounds(dst, n) {
            return false;
        }
        match self.read_bytes(src, n) {
            Some(data) => self.write_bytes(dst, &data),
            None => false,
        }
    }

    /// Block fill, and whether it has a meaning.
    pub fn memset(&mut self, dst: Ptr, byte: u8, n: u64) -> (done: bool)
        requires
            old(self).wf(),
        ensures
            final(self).wf(),
            done == old(self)@.memset(dst, byte, n) is Some,
            final(self)@ == if done {
                old(self)@.memset(dst, byte, n)->0
            } else {
                old(self)@
            },
    {
        if n == 0 {
            return true;
        }
        if !self.in_bounds(dst, n) {
            return false;
        }
        proof {
            self.lemma_view_blocks();
            assert(self@.blocks[dst->0 as int] is Buffer);
        }
        let count = n as usize;
        let mut data: Vec<u8> = Vec::new();
        let mut i: usize = 0;
        while i < count
            invariant
                i <= count,
                data@.len() == i,
                forall|j: int| 0 <= j < i ==> data@[j] == byte,
            decreases count - i,
        {
            data.push(byte);
            i = i + 1;
        }
        assert(count == n);
        assert(data@ =~= Seq::new(n as nat, |i: int| byte));
        self.write_bytes(dst, &data)
    }

    /// A fresh record of the given number of slots, all undefined.
    pub fn alloca(&mut self, slots: usize) -> (p: Ptr)
        requires
            old(self).wf(),
        ensures
            final(self).wf(),
            (p, final(self)@) == old(self)@.alloca(slots as nat),
    {
        let mut fields: Vec<Atom> = Vec::new();
        let mut i: usize = 0;
        while i < slots
            invariant
                i <= slots,
                fields@.len() == i,
                forall|j: int| 0 <= j < i ==> fields@[j] == Atom::Undef,
            decreases slots - i,
        {
            fields.push(Atom::Undef);
            i = i + 1;
        }
        assert(fields@ =~= Seq::new(slots as nat, |i: int| Atom::Undef));
        let block = self.blocks.len();
        proof {
            lemma_live_bytes_push(old(self)@.blocks, BlockView::Slots(fields@));
        }
        self.blocks.push(Block::Slots(fields));
        assert(self@.blocks =~= old(self)@.blocks.push(BlockView::Slots(fields@)));
        assert(self.blocks@.len() == self.blocks.len());
        Ptr::At(block, 0)
    }

    /// The value in the slot that the pointer designates, if it designates
    /// one.
    pub fn load(&self, p: Ptr) -> (a: Option<Atom>)
        ensures
            a == self@.load(p),
    {
        match p {
            Ptr::Null => None,
            Ptr::At(block, off) => {
                if block < self.blocks.len() {
                    match &self.blocks[block] {
                        Block::Slots(fields) => {
                            if off < fields.len() as u64 {
                                Some(fields[off as usize])
                            } else {
                                None
                            }
                        },
                        _ => None,
                    }
                } else {
                    None
                }
            },
        }
    }

    fn in_slots(&self, p: Ptr, n: u64) -> (b: bool)
        ensures
            b == self@.in_slots(p, n as int),
    {
        match p {
            Ptr::Null => false,
            Ptr::At(block, off) => {
                if block < self.blocks.len() {
                    match &self.blocks[block] {
                        Block::Slots(fields) => {
                            let len = fields.len() as u64;
                            off <= len && n <= len - off
                        },
                        _ => false,
                    }
                } else {
                    false
                }
            },
        }
    }

    fn set_slot(&mut self, block: usize, off: usize, a: Atom)
        requires
            old(self).wf(),
            old(self)@.in_slots(Ptr::At(block, off as u64), 1),
        ensures
            final(self).wf(),
            final(self)@ == old(self)@.set_slot(block as int, off as int, a),
    {
        let new = match &self.blocks[block] {
            Block::Slots(fields) => {
                let len = fields.len();
                let mut new: Vec<Atom> = Vec::new();
                let mut i: usize = 0;
                while i < len
                    invariant
                        i <= len,
                        len == fields@.len(),
                        off < len,
                        new@.len() == i,
                        forall|j: int| 0 <= j < i ==> new@[j] == fields@.update(off as int, a)[j],
                    decreases len - i,
                {
                    new.push(
                        if i == off {
                            a
                        } else {
                            fields[i]
                        },
                    );
                    i = i + 1;
                }
                assert(new@ =~= fields@.update(off as int, a));
                new
            },
            _ => Vec::new(),
        };
        proof {
            lemma_live_bytes_update(old(self)@.blocks, block as int, BlockView::Slots(new@));
        }
        self.blocks.set(block, Block::Slots(new));
        assert(self@.blocks =~= old(self)@.blocks.update(block as int, BlockView::Slots(new@)));
    }

    /// Stores the value where the pointer points, and says whether the store
    /// has a meaning.
    pub fn store(&mut self, p: Ptr, v: Val) -> (done: bool)
        requires
            old(self).wf(),
        ensures
            final(self).wf(),
            done == old(self)@.store(p, v) is Some,
            final(self)@ == if done {
                old(self)@.store(p, v)->0
            } else {
                old(self)@
            },
    {
        match p {
            Ptr::Null => false,
            Ptr::At(block, off) => {
                match v {
                    Val::Unit => false,
                    Val::Atom(a) => {
                        if self.in_slots(p, 1) {
                            proof {
                                self.lemma_view_blocks();
                                assert(self@.blocks[block as int] is Slots);
                            }
                            self.set_slot(block, off as usize, a);
                            true
                        } else {
                            false
                        }
                    },
                    Val::Record(a, b) => {
                        if self.in_slots(p, 2) {
                            proof {
                                self.lemma_view_blocks();
                                assert(self@.blocks[block as int] is Slots);
                            }
                            self.set_slot(block, off as usize, a);
                            self.set_slot(block, off as usize + 1, b);
                            true
                        } else {
                            false
                        }
                    },
                }
            },
        }
    }
}

} // verus!

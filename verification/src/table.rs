use std::marker::PhantomData;
use std::rc::Rc;

use vstd::prelude::*;

use crate::rc::lemma_step_wf;
use crate::rc::Counted;
use crate::rc::RcBlock;
use crate::rc::RcCounts;
use crate::rc::RcOp;

verus! {

/// What `op` on the block at `slot` makes of a table: the block's counts
/// move one step, and a block left without references leaves the table.
pub open spec fn table_step(blocks: Map<int, RcCounts>, slot: int, op: RcOp) -> Map<
    int,
    RcCounts,
> {
    let next = blocks[slot].step(op);
    if next.freed() {
        blocks.remove(slot)
    } else {
        blocks.insert(slot, next)
    }
}

/// Some resource among `blocks` is alive.
pub open spec fn holds_alive(blocks: Map<int, RcCounts>) -> bool {
    exists|slot: int| blocks.dom().contains(slot) && (#[trigger] blocks[slot]).alive()
}

/// The counter blocks of the engine's resources, each at a slot by which the
/// handles of its resource find it.
///
/// A handle is a slot number, not a pointer: the table is the one place where
/// counts live, and it is handed to every operation that touches them. The
/// counters are plain machine words, and the table stays on the thread that
/// made it.
#[derive(Debug)]
pub struct RcTable {
    blocks: Vec<RcBlock>,
    one_thread: PhantomData<Rc<()>>,
}

impl View for RcTable {
    type V = Map<int, RcCounts>;

    /// The blocks that still have a reference, by slot.
    closed spec fn view(&self) -> Map<int, RcCounts> {
        Map::new(
            |slot: int| 0 <= slot < self.blocks.len() && !self.blocks[slot]@.freed(),
            |slot: int| self.blocks[slot]@,
        )
    }
}

impl RcTable {
    /// Every block keeps the implicit weak reference while it has strong ones.
    pub closed spec fn wf(&self) -> bool {
        forall|slot: int| 0 <= slot < self.blocks.len() ==> (#[trigger] self.blocks[slot])@.wf()
    }

    /// What well-formedness means for the blocks that the table shows: each
    /// has a reference left, each is well-formed, and each slot is a machine
    /// index.
    pub proof fn lemma_wf(&self)
        requires
            self.wf(),
        ensures
            forall|slot: int| #[trigger]
                self@.dom().contains(slot) ==> self@[slot].wf() && !self@[slot].freed() && 0
                    <= slot <= usize::MAX,
    {
    }

    /// A table without blocks.
    pub fn new() -> (table: Self)
        ensures
            table.wf(),
            table@ == Map::<int, RcCounts>::empty(),
    {
        let table = RcTable { blocks: Vec::new(), one_thread: PhantomData };
        assert(table@ =~= Map::<int, RcCounts>::empty());
        table
    }

    /// Whether a block with a reference left stands at `slot`.
    pub fn contains(&self, slot: usize) -> (found: bool)
        ensures
            found == self@.dom().contains(slot as int),
    {
        slot < self.blocks.len() && !self.blocks[slot].is_freed()
    }

    /// The strong count of the block at `slot`; zero where no block stands.
    pub fn strong_count(&self, slot: usize) -> (n: usize)
        requires
            self.wf(),
        ensures
            n == (if self@.dom().contains(slot as int) {
                self@[slot as int].strong
            } else {
                0
            }),
    {
        if slot < self.blocks.len() {
            assert(self.blocks[slot as int]@.wf());
            self.blocks[slot].strong()
        } else {
            0
        }
    }

    /// The weak count of the block at `slot`, the implicit reference of the
    /// strong handles included; zero where no block stands.
    pub fn weak_count(&self, slot: usize) -> (n: usize)
        ensures
            n == (if self@.dom().contains(slot as int) {
                self@[slot as int].weak
            } else {
                0
            }),
    {
        if slot < self.blocks.len() {
            self.blocks[slot].weak()
        } else {
            0
        }
    }

    /// Whether the block at `slot` has a handle that is weak in its own right.
    pub fn has_weak_handle(&self, slot: usize) -> (found: bool)
        ensures
            found == (self@.dom().contains(slot as int) && self@[slot as int].weak_handles() >= 1),
    {
        slot < self.blocks.len() && self.blocks[slot].has_weak_handle()
    }

    /// Puts the block of a newly loaded resource at the lowest slot that
    /// holds none, and returns that slot.
    pub fn insert(&mut self) -> (slot: usize)
        requires
            old(self).wf(),
        ensures
            final(self).wf(),
            !old(self)@.dom().contains(slot as int),
            forall|lower: int| 0 <= lower < slot ==> old(self)@.dom().contains(lower),
            final(self)@ == old(self)@.insert(slot as int, RcCounts::initial()),
    {
        let ghost before = self@;
        let mut slot: usize = 0;
        while slot < self.blocks.len()
            invariant
                slot <= self.blocks.len(),
                self.wf(),
                self@ == before,
                before == old(self)@,
                forall|lower: int| 0 <= lower < slot ==> before.dom().contains(lower),
            decreases self.blocks.len() - slot,
        {
            if self.blocks[slot].is_freed() {
                self.blocks.set(slot, RcBlock::new());
                assert(self@ =~= before.insert(slot as int, RcCounts::initial()));
                return slot;
            }
            slot = slot + 1;
        }
        self.blocks.push(RcBlock::new());
        assert(self@ =~= before.insert(slot as int, RcCounts::initial()));
        slot
    }

    /// Carries out `op` on the block at `slot`, and says what it came to. A
    /// block that is left without references leaves the table.
    pub fn apply(&mut self, slot: usize, op: RcOp) -> (counted: Counted)
        requires
            old(self).wf(),
            old(self)@.dom().contains(slot as int),
            old(self)@[slot as int].enabled(op),
            old(self)@[slot as int].fits(op),
        ensures
            final(self).wf(),
            final(self)@ == table_step(old(self)@, slot as int, op),
            counted == old(self)@[slot as int].outcome(op),
            counted.dropped.free == !final(self)@.dom().contains(slot as int),
    {
        assert(self.blocks[slot as int]@.wf());
        let mut block = self.blocks[slot];
        let counted = block.apply(op);
        proof {
            lemma_step_wf(self@[slot as int], op);
        }
        self.blocks.set(slot, block);
        assert(self@ =~= table_step(old(self)@, slot as int, op));
        counted
    }

    /// Whether any resource of the table is alive.
    pub fn any_alive(&self) -> (alive: bool)
        ensures
            alive == holds_alive(self@),
    {
        let mut slot: usize = 0;
        while slot < self.blocks.len()
            invariant
                slot <= self.blocks.len(),
                forall|seen: int|
                    0 <= seen < slot && self@.dom().contains(seen) ==> !(#[trigger] self@[seen])
                        .alive(),
            decreases self.blocks.len() - slot,
        {
            if !self.blocks[slot].is_freed() && self.blocks[slot].strong() > 0 {
                assert(self@.dom().contains(slot as int) && self@[slot as int].alive());
                return true;
            }
            slot = slot + 1;
        }
        false
    }
}

} // verus!

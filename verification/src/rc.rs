use vstd::prelude::*;

verus! {

/// The mathematical content of a counter block: how many strong references
/// and how many weak references one engine resource has.
///
/// All strong handles together hold one implicit weak reference, so a block
/// with `strong > 0` has `weak >= 1`, and the handles that are weak in their
/// own right number `weak - 1`.
pub struct RcCounts {
    pub strong: nat,
    pub weak: nat,
}

/// What a holder of a handle can do to the counter block behind it.
#[derive(Debug, Clone, Copy, PartialEq, Eq, Structural)]
pub enum RcOp {
    /// Copy a strong handle.
    CloneStrong,
    /// Make a weak handle from a strong one.
    Downgrade,
    /// Try to make a strong handle from a weak one.
    Upgrade,
    /// Copy a weak handle.
    CloneWeak,
    /// Give up a strong handle.
    DropStrong,
    /// Give up a weak handle.
    DropWeak,
}

impl RcCounts {
    /// The counts of a block right after its resource was loaded.
    pub open spec fn initial() -> RcCounts {
        RcCounts { strong: 1, weak: 1 }
    }

    /// Strong references imply the implicit weak one.
    pub open spec fn wf(self) -> bool {
        self.strong > 0 ==> self.weak >= 1
    }

    /// The engine resource has not been released yet.
    pub open spec fn alive(self) -> bool {
        self.strong > 0
    }

    /// The block itself is gone: no handle of either kind is left.
    pub open spec fn freed(self) -> bool {
        self.weak == 0
    }

    /// How many handles are weak in their own right.
    pub open spec fn weak_handles(self) -> nat {
        if self.strong == 0 {
            self.weak
        } else if self.weak >= 1 {
            (self.weak - 1) as nat
        } else {
            0
        }
    }

    /// An operation needs a handle of its kind to start from.
    pub open spec fn enabled(self, op: RcOp) -> bool {
        match op {
            RcOp::CloneStrong | RcOp::Downgrade | RcOp::DropStrong => self.strong >= 1,
            RcOp::Upgrade | RcOp::CloneWeak | RcOp::DropWeak => self.weak_handles() >= 1,
        }
    }

    /// The counter that `op` raises, if it raises one, has room for it in a
    /// machine word.
    pub open spec fn fits(self, op: RcOp) -> bool {
        match op {
            RcOp::CloneStrong | RcOp::Upgrade => self.strong < usize::MAX,
            RcOp::Downgrade | RcOp::CloneWeak => self.weak < usize::MAX,
            RcOp::DropStrong | RcOp::DropWeak => true,
        }
    }

    /// The counts after `op`.
    pub open spec fn step(self, op: RcOp) -> RcCounts {
        match op {
            RcOp::CloneStrong => RcCounts { strong: self.strong + 1, weak: self.weak },
            RcOp::Downgrade | RcOp::CloneWeak => RcCounts {
                strong: self.strong,
                weak: self.weak + 1,
            },
            RcOp::Upgrade => if self.strong > 0 {
                RcCounts { strong: self.strong + 1, weak: self.weak }
            } else {
                self
            },
            RcOp::DropStrong => if self.strong == 1 {
                RcCounts { strong: 0, weak: (self.weak - 1) as nat }
            } else {
                RcCounts { strong: (self.strong - 1) as nat, weak: self.weak }
            },
            RcOp::DropWeak => RcCounts { strong: self.strong, weak: (self.weak - 1) as nat },
        }
    }

    /// `op` makes the engine's release call: it gives up the last strong handle.
    pub open spec fn releases(self, op: RcOp) -> bool {
        op is DropStrong && self.strong == 1
    }

    /// `op` frees the block: it gives up the last reference of either kind.
    pub open spec fn frees(self, op: RcOp) -> bool {
        ||| op is DropStrong && self.strong == 1 && self.weak == 1
        ||| op is DropWeak && self.weak == 1
    }

    /// Every operation of `ops` finds a handle of its kind when its turn comes.
    pub open spec fn valid(self, ops: Seq<RcOp>) -> bool
        decreases ops.len(),
    {
        if ops.len() == 0 {
            true
        } else {
            self.enabled(ops[0]) && self.step(ops[0]).valid(ops.drop_first())
        }
    }

    /// The counts after all of `ops`, in order.
    pub open spec fn run(self, ops: Seq<RcOp>) -> RcCounts
        decreases ops.len(),
    {
        if ops.len() == 0 {
            self
        } else {
            self.step(ops[0]).run(ops.drop_first())
        }
    }

    /// How many release calls `ops` makes.
    pub open spec fn release_count(self, ops: Seq<RcOp>) -> nat
        decreases ops.len(),
    {
        if ops.len() == 0 {
            0
        } else {
            (if self.releases(ops[0]) {
                1nat
            } else {
                0nat
            }) + self.step(ops[0]).release_count(ops.drop_first())
        }
    }

    /// How many times `ops` frees the block.
    pub open spec fn free_count(self, ops: Seq<RcOp>) -> nat
        decreases ops.len(),
    {
        if ops.len() == 0 {
            0
        } else {
            (if self.frees(ops[0]) {
                1nat
            } else {
                0nat
            }) + self.step(ops[0]).free_count(ops.drop_first())
        }
    }
}

/// One step keeps the block well-formed.
pub proof fn lemma_step_wf(c: RcCounts, op: RcOp)
    requires
        c.wf(),
        c.enabled(op),
    ensures
        c.step(op).wf(),
{
}

/// A block without strong references never gets one again, and a block
/// without any reference admits no operation at all.
pub proof fn lemma_released_is_final(c: RcCounts, op: RcOp)
    requires
        c.wf(),
    ensures
        c.strong == 0 && c.enabled(op) ==> c.step(op).strong == 0 && !c.releases(op),
        c.freed() ==> !c.enabled(op),
{
}

/// The step that frees the block is the step that brings `weak` to zero, and
/// by then `strong` is zero.
pub proof fn lemma_free_step(c: RcCounts, op: RcOp)
    requires
        c.wf(),
        !c.freed(),
        c.enabled(op),
    ensures
        c.frees(op) <==> c.step(op).weak == 0,
        c.frees(op) ==> c.step(op).strong == 0,
        c.frees(op) && op is DropWeak ==> c.strong == 0,
{
}

/// Running a valid sequence keeps the block well-formed.
pub proof fn lemma_run_wf(c: RcCounts, ops: Seq<RcOp>)
    requires
        c.wf(),
        c.valid(ops),
    ensures
        c.run(ops).wf(),
    decreases ops.len(),
{
    if ops.len() > 0 {
        lemma_step_wf(c, ops[0]);
        lemma_run_wf(c.step(ops[0]), ops.drop_first());
    }
}

/// A valid sequence can be cut anywhere: the part before the cut is valid,
/// the part after it is valid from where the first part ends, and the counts
/// and the calls add up.
pub proof fn lemma_split(c: RcCounts, ops: Seq<RcOp>, at: int)
    requires
        0 <= at <= ops.len(),
    ensures
        c.run(ops) == c.run(ops.take(at)).run(ops.skip(at)),
        c.valid(ops) <==> c.valid(ops.take(at)) && c.run(ops.take(at)).valid(ops.skip(at)),
        c.release_count(ops) == c.release_count(ops.take(at)) + c.run(ops.take(at)).release_count(
            ops.skip(at),
        ),
        c.free_count(ops) == c.free_count(ops.take(at)) + c.run(ops.take(at)).free_count(
            ops.skip(at),
        ),
    decreases at,
{
    if at == 0 {
        assert(ops.skip(0) =~= ops);
        assert(ops.take(0).len() == 0);
    } else {
        let rest = ops.drop_first();
        lemma_split(c.step(ops[0]), rest, at - 1);
        assert(ops.take(at).drop_first() =~= rest.take(at - 1));
        assert(ops.skip(at) =~= rest.skip(at - 1));
        assert(ops.take(at)[0] == ops[0]);
    }
}

/// Release happens exactly once. Over any valid sequence of operations on a
/// block whose resource is alive, the engine's release call is made once if
/// the sequence leaves no strong handle, and not at all otherwise; on a block
/// whose resource was released before, it is never made again.
pub proof fn lemma_release_exactly_once(c: RcCounts, ops: Seq<RcOp>)
    requires
        c.wf(),
        c.valid(ops),
    ensures
        c.alive() ==> c.release_count(ops) == (if c.run(ops).strong == 0 {
            1nat
        } else {
            0nat
        }),
        !c.alive() ==> c.release_count(ops) == 0 && c.run(ops).strong == 0,
    decreases ops.len(),
{
    if ops.len() > 0 {
        lemma_step_wf(c, ops[0]);
        lemma_released_is_final(c, ops[0]);
        lemma_release_exactly_once(c.step(ops[0]), ops.drop_first());
    }
}

/// Release comes with the drop of the last strong handle, and strictly
/// before anything that follows: the operation at `at` releases exactly
/// when it is a drop that finds one strong reference, and from then on no
/// strong handle exists at any later point of the sequence.
pub proof fn lemma_release_after_last_strong(c: RcCounts, ops: Seq<RcOp>, at: int, later: int)
    requires
        c.wf(),
        c.valid(ops),
        0 <= at < later <= ops.len(),
        c.run(ops.take(at)).releases(ops[at]),
    ensures
        ops[at] is DropStrong,
        c.run(ops.take(at)).strong == 1,
        c.run(ops.take(later)).strong == 0,
        c.run(ops.take(at)).release_count(ops.skip(at)) == 1,
{
    let before = c.run(ops.take(at));
    lemma_split(c, ops, at);
    lemma_run_wf(c, ops.take(at));
    // the step at `at`
    let tail = ops.skip(at);
    assert(tail[0] == ops[at]);
    let after = before.step(ops[at]);
    lemma_step_wf(before, ops[at]);
    assert(after.strong == 0);
    // what follows it, up to `later`
    let rest = tail.drop_first();
    lemma_split(after, rest, later - at - 1);
    lemma_release_exactly_once(after, rest.take(later - at - 1));
    lemma_release_exactly_once(after, rest);
    // the same state, reached from the start
    lemma_split(c, ops.take(later), at);
    assert(ops.take(later).take(at) =~= ops.take(at));
    let mid = ops.take(later).skip(at);
    assert(mid[0] == ops[at]);
    assert(mid.drop_first() =~= rest.take(later - at - 1));
}

/// The block is freed exactly once. Over any valid sequence of operations
/// on a block that still exists, it is freed once if the sequence leaves no
/// reference of either kind, and not at all otherwise; when that happens no
/// strong reference is left, and nothing can follow.
pub proof fn lemma_free_exactly_once(c: RcCounts, ops: Seq<RcOp>)
    requires
        c.wf(),
        !c.freed(),
        c.valid(ops),
    ensures
        c.free_count(ops) == (if c.run(ops).weak == 0 {
            1nat
        } else {
            0nat
        }),
        c.run(ops).weak == 0 ==> c.run(ops).strong == 0,
    decreases ops.len(),
{
    if ops.len() > 0 {
        let next = c.step(ops[0]);
        let rest = ops.drop_first();
        lemma_step_wf(c, ops[0]);
        lemma_free_step(c, ops[0]);
        if next.freed() {
            // nothing is enabled on a freed block, so the sequence ends here
            assert(next.valid(rest));
            if rest.len() > 0 {
                assert(next.enabled(rest[0]));
                lemma_released_is_final(next, rest[0]);
            }
            assert(rest.len() == 0);
            assert(next.run(rest) == next);
            assert(next.free_count(rest) == 0);
        } else {
            lemma_free_exactly_once(next, rest);
        }
    }
}

/// The block outlives the resource: as long as the resource is alive the
/// block is not freed, so over a valid sequence a free never comes before
/// the release.
pub proof fn lemma_free_after_release(c: RcCounts, ops: Seq<RcOp>)
    requires
        c.wf(),
        c.alive(),
        c.valid(ops),
    ensures
        c.free_count(ops) <= c.release_count(ops),
    decreases ops.len(),
{
    if ops.len() > 0 {
        let next = c.step(ops[0]);
        let rest = ops.drop_first();
        lemma_step_wf(c, ops[0]);
        if next.alive() {
            lemma_free_after_release(next, rest);
        } else {
            assert(c.releases(ops[0]));
            lemma_release_exactly_once(next, rest);
            if next.freed() {
                assert(next.valid(rest));
                if rest.len() > 0 {
                    assert(next.enabled(rest[0]));
                    lemma_released_is_final(next, rest[0]);
                }
                assert(next.free_count(rest) == 0);
            } else {
                lemma_free_exactly_once(next, rest);
            }
        }
    }
}

/// The whole life of a resource. From the load to the drop of the last
/// handle of either kind, whatever was done in between and in whatever
/// order, the engine's release call is made exactly once and the block is
/// freed exactly once.
pub proof fn lemma_whole_life(ops: Seq<RcOp>)
    requires
        RcCounts::initial().valid(ops),
        RcCounts::initial().run(ops).freed(),
    ensures
        RcCounts::initial().release_count(ops) == 1,
        RcCounts::initial().free_count(ops) == 1,
{
    lemma_free_exactly_once(RcCounts::initial(), ops);
    lemma_release_exactly_once(RcCounts::initial(), ops);
}

/// What giving up a handle asks of its holder.
#[derive(Debug, Clone, Copy, PartialEq, Eq, Structural)]
pub struct Dropped {
    /// The engine's release call for the resource is due now.
    pub release: bool,
    /// The counter block has no reference left and is to be freed now.
    pub free: bool,
}

/// What one operation on a counter block came to.
#[derive(Debug, Clone, Copy, PartialEq, Eq, Structural)]
pub struct Counted {
    /// A new strong handle is counted: the operation was an upgrade, and the
    /// resource was alive.
    pub upgraded: bool,
    /// What the operation asks of its holder, if it gave up a handle.
    pub dropped: Dropped,
}

impl RcCounts {
    /// What `op` comes to on a block with these counts.
    pub open spec fn outcome(self, op: RcOp) -> Counted {
        Counted {
            upgraded: op is Upgrade && self.alive(),
            dropped: Dropped { release: self.releases(op), free: self.frees(op) },
        }
    }
}

/// The counter pair behind one engine resource.
///
/// The counters are plain machine words: a block is meant for one thread.
#[derive(Debug, Clone, Copy)]
pub struct RcBlock {
    strong: usize,
    weak: usize,
}

impl View for RcBlock {
    type V = RcCounts;

    closed spec fn view(&self) -> RcCounts {
        RcCounts { strong: self.strong as nat, weak: self.weak as nat }
    }
}

impl RcBlock {
    /// The block of a resource that was just loaded: one strong handle, and
    /// the weak reference that the strong handles share.
    pub fn new() -> (block: Self)
        ensures
            block@ == RcCounts::initial(),
    {
        RcBlock { strong: 1, weak: 1 }
    }

    /// The number of strong references.
    pub fn strong(&self) -> (n: usize)
        ensures
            n == self@.strong,
    {
        self.strong
    }

    /// The number of weak references, the implicit one included.
    pub fn weak(&self) -> (n: usize)
        ensures
            n == self@.weak,
    {
        self.weak
    }

    /// Whether no reference of either kind is left.
    pub fn is_freed(&self) -> (b: bool)
        ensures
            b == self@.freed(),
    {
        self.weak == 0
    }

    /// Whether a handle that is weak in its own right exists.
    pub fn has_weak_handle(&self) -> (b: bool)
        ensures
            b == (self@.weak_handles() >= 1),
    {
        if self.strong > 0 {
            self.weak > 1
        } else {
            self.weak > 0
        }
    }

    /// Carries out `op`, whichever it is.
    pub fn apply(&mut self, op: RcOp) -> (counted: Counted)
        requires
            old(self)@.wf(),
            old(self)@.enabled(op),
            old(self)@.fits(op),
        ensures
            final(self)@ == old(self)@.step(op),
            counted == old(self)@.outcome(op),
    {
        let kept = Dropped { release: false, free: false };
        match op {
            RcOp::CloneStrong => {
                self.clone_strong();
                Counted { upgraded: false, dropped: kept }
            },
            RcOp::Downgrade => {
                self.downgrade();
                Counted { upgraded: false, dropped: kept }
            },
            RcOp::Upgrade => {
                let upgraded = self.upgrade();
                Counted { upgraded, dropped: kept }
            },
            RcOp::CloneWeak => {
                self.clone_weak();
                Counted { upgraded: false, dropped: kept }
            },
            RcOp::DropStrong => {
                let dropped = self.drop_strong();
                Counted { upgraded: false, dropped }
            },
            RcOp::DropWeak => {
                let dropped = self.drop_weak();
                Counted { upgraded: false, dropped }
            },
        }
    }

    /// Counts a copy of a strong handle.
    pub fn clone_strong(&mut self)
        requires
            old(self)@.enabled(RcOp::CloneStrong),
            old(self)@.strong < usize::MAX,
        ensures
            final(self)@ == old(self)@.step(RcOp::CloneStrong),
    {
        self.strong = self.strong + 1;
    }

    /// Counts a weak handle made from a strong one.
    pub fn downgrade(&mut self)
        requires
            old(self)@.enabled(RcOp::Downgrade),
            old(self)@.weak < usize::MAX,
        ensures
            final(self)@ == old(self)@.step(RcOp::Downgrade),
    {
        self.weak = self.weak + 1;
    }

    /// Counts a copy of a weak handle.
    pub fn clone_weak(&mut self)
        requires
            old(self)@.enabled(RcOp::CloneWeak),
            old(self)@.weak < usize::MAX,
        ensures
            final(self)@ == old(self)@.step(RcOp::CloneWeak),
    {
        self.weak = self.weak + 1;
    }

    /// Tries to turn a weak handle into a strong one. It succeeds, and counts
    /// the new strong handle, exactly when the resource is still alive.
    pub fn upgrade(&mut self) -> (upgraded: bool)
        requires
            old(self)@.enabled(RcOp::Upgrade),
            old(self)@.strong < usize::MAX,
        ensures
            upgraded == old(self)@.alive(),
            final(self)@ == old(self)@.step(RcOp::Upgrade),
            upgraded ==> final(self)@.strong == old(self)@.strong + 1,
            !upgraded ==> final(self)@ == old(self)@,
    {
        if self.strong != 0 {
            self.strong = self.strong + 1;
            true
        } else {
            false
        }
    }

    /// Gives up a strong handle. With the last one the release call falls
    /// due and the implicit weak reference goes too, which frees the block
    /// if no weak handle is left.
    pub fn drop_strong(&mut self) -> (dropped: Dropped)
        requires
            old(self)@.wf(),
            old(self)@.enabled(RcOp::DropStrong),
        ensures
            final(self)@ == old(self)@.step(RcOp::DropStrong),
            dropped.release == old(self)@.releases(RcOp::DropStrong),
            dropped.free == old(self)@.frees(RcOp::DropStrong),
    {
        self.strong = self.strong - 1;
        if self.strong == 0 {
            self.weak = self.weak - 1;
            Dropped { release: true, free: self.weak == 0 }
        } else {
            Dropped { release: false, free: false }
        }
    }

    /// Gives up a weak handle. The release call is never due here; the block
    /// is freed if this was the last reference.
    pub fn drop_weak(&mut self) -> (dropped: Dropped)
        requires
            old(self)@.enabled(RcOp::DropWeak),
        ensures
            final(self)@ == old(self)@.step(RcOp::DropWeak),
            !dropped.release,
            dropped.free == old(self)@.frees(RcOp::DropWeak),
    {
        self.weak = self.weak - 1;
        Dropped { release: false, free: self.weak == 0 }
    }
}

} // verus!

use std::marker::PhantomData;
use std::rc::Rc;

use vstd::prelude::*;

use crate::call::EngineCall;
use crate::context::EngineContext;
use crate::error::DiotekoErr;
use crate::raw::RawRenderTexture;
use crate::rc::RcBlock;
use crate::rc::RcCounts;
use crate::rc::RcOp;

verus! {

/// A strong handle of a render target: it keeps the target on the GPU.
///
/// The handle owns one strong reference in the counter block at its slot,
/// and stays on the thread that made it. It cannot be copied behind the
/// context's back: `RenderTexture::clone` makes a second handle and counts
/// it, `RenderTexture::drop` gives one up.
#[derive(Debug)]
pub struct RenderTexture {
    render_texture: RawRenderTexture,
    rc_count: usize,
    one_thread: PhantomData<Rc<()>>,
}

pub type RenderTexture2D = RenderTexture;

/// A weak handle of a render target: it watches the target without keeping it.
///
/// The handle owns one weak reference in the counter block at its slot, and
/// can become a strong handle for as long as one exists. It stays on the
/// thread that made it.
#[derive(Debug)]
pub struct WeakRenderTexture {
    render_texture: RawRenderTexture,
    rc_count: usize,
    one_thread: PhantomData<Rc<()>>,
}

pub type WeakRenderTexture2D = WeakRenderTexture;

/// The counter block of a render target.
pub type RenderTextureRc = RcBlock;

impl RenderTexture {
    /// The render target that the handle stands for.
    pub closed spec fn raw(&self) -> RawRenderTexture {
        self.render_texture
    }

    /// The slot of the handle's counter block.
    pub closed spec fn slot(&self) -> int {
        self.rc_count as int
    }

    /// The counts of the handle's counter block.
    pub open spec fn counts(&self, ctx: &EngineContext) -> RcCounts {
        ctx@.resources[self.slot()]
    }

    /// The handle's reference is counted in `ctx`.
    pub open spec fn counted_in(&self, ctx: &EngineContext) -> bool {
        ctx@.resources.dom().contains(self.slot()) && self.counts(ctx).enabled(RcOp::DropStrong)
    }

    /// Takes over a render target that the engine was just asked to create,
    /// as its first strong handle.
    ///
    /// The engine reports a failure by an empty render target, so `created`
    /// is put to the probe first. A target that fails it gets no counter
    /// block; one that passes gets a new block at the lowest slot that holds
    /// none.
    ///
    /// It is turned away, and changes nothing, unless the window is up.
    pub fn load(created: RawRenderTexture, ctx: &mut EngineContext) -> (loaded: Result<
        RenderTexture,
        DiotekoErr,
    >)
        requires
            old(ctx).wf(),
        ensures
            final(ctx).wf(),
            loaded is Ok <==> old(ctx)@.ready() && created.loaded(),
            loaded matches Ok(handle) ==> {
                &&& handle.raw() == created
                &&& !old(ctx)@.resources.dom().contains(handle.slot())
                &&& forall|lower: int|
                    0 <= lower < handle.slot() ==> old(ctx)@.resources.dom().contains(lower)
                &&& final(ctx)@ == old(ctx)@.adopts(handle.slot())
                &&& handle.counted_in(final(ctx))
            },
            loaded matches Err(e) ==> {
                &&& final(ctx)@ == old(ctx)@
                &&& e == (if old(ctx)@.ready() {
                    DiotekoErr::LoadImageFailedErr
                } else {
                    DiotekoErr::ProtocolViolation
                })
            },
    {
        match ctx.ensure_ready() {
            Ok(()) => {},
            Err(e) => {
                return Err(e);
            },
        }
        if !created.is_loaded() {
            return Err(DiotekoErr::LoadImageFailedErr);
        }
        match ctx.adopt() {
            Ok(slot) => Ok(
                RenderTexture { render_texture: created, rc_count: slot, one_thread: PhantomData },
            ),
            Err(e) => Err(e),
        }
    }

    /// Whether the handle's reference is counted in `ctx`.
    pub fn is_counted_in(&self, ctx: &EngineContext) -> (counted: bool)
        requires
            ctx.wf(),
        ensures
            counted == self.counted_in(ctx),
    {
        ctx.resources().strong_count(self.rc_count) >= 1
    }

    /// A second strong handle of the same render target.
    pub fn clone(val: &Self, ctx: &mut EngineContext) -> (copy: RenderTexture)
        requires
            old(ctx).wf(),
            val.counted_in(old(ctx)),
            val.counts(old(ctx)).fits(RcOp::CloneStrong),
        ensures
            final(ctx).wf(),
            copy.raw() == val.raw(),
            copy.slot() == val.slot(),
            final(ctx)@ == old(ctx)@.counts(val.slot(), RcOp::CloneStrong),
            copy.counted_in(final(ctx)),
            val.counted_in(final(ctx)),
    {
        ctx.count(val.rc_count, RcOp::CloneStrong);
        RenderTexture {
            render_texture: val.render_texture,
            rc_count: val.rc_count,
            one_thread: PhantomData,
        }
    }

    /// A weak handle of the same render target.
    pub fn downgrade(val: &Self, ctx: &mut EngineContext) -> (weak: WeakRenderTexture)
        requires
            old(ctx).wf(),
            val.counted_in(old(ctx)),
            val.counts(old(ctx)).fits(RcOp::Downgrade),
        ensures
            final(ctx).wf(),
            weak.raw() == val.raw(),
            weak.slot() == val.slot(),
            final(ctx)@ == old(ctx)@.counts(val.slot(), RcOp::Downgrade),
            weak.counted_in(final(ctx)),
            val.counted_in(final(ctx)),
    {
        proof {
            ctx.lemma_wf();
        }
        ctx.count(val.rc_count, RcOp::Downgrade);
        WeakRenderTexture {
            render_texture: val.render_texture,
            rc_count: val.rc_count,
            one_thread: PhantomData,
        }
    }

    /// Gives up the handle. With the last strong handle of the target the
    /// engine's release call falls due, once; it is handed back for the
    /// caller to issue. The window is up when that happens.
    pub fn drop(self, ctx: &mut EngineContext) -> (call: Option<EngineCall>)
        requires
            old(ctx).wf(),
            self.counted_in(old(ctx)),
        ensures
            final(ctx).wf(),
            final(ctx)@ == old(ctx)@.counts(self.slot(), RcOp::DropStrong),
            call == (if self.counts(old(ctx)).releases(RcOp::DropStrong) {
                Some(EngineCall::UnloadRenderTexture(self.raw()))
            } else {
                None
            }),
            call is Some ==> old(ctx)@.ready(),
    {
        let counted = ctx.count(self.rc_count, RcOp::DropStrong);
        if counted.dropped.release {
            Some(EngineCall::UnloadRenderTexture(self.render_texture))
        } else {
            None
        }
    }

    /// The render target as the engine describes it.
    pub fn render_texture(&self) -> (raw: RawRenderTexture)
        ensures
            raw == self.raw(),
    {
        self.render_texture
    }

    /// The slot of the handle's counter block.
    pub fn rc_slot(&self) -> (slot: usize)
        ensures
            slot == self.slot(),
    {
        self.rc_count
    }
}

impl WeakRenderTexture {
    /// The render target that the handle stands for.
    pub closed spec fn raw(&self) -> RawRenderTexture {
        self.render_texture
    }

    /// The slot of the handle's counter block.
    pub closed spec fn slot(&self) -> int {
        self.rc_count as int
    }

    /// The counts of the handle's counter block.
    pub open spec fn counts(&self, ctx: &EngineContext) -> RcCounts {
        ctx@.resources[self.slot()]
    }

    /// The handle's reference is counted in `ctx`.
    pub open spec fn counted_in(&self, ctx: &EngineContext) -> bool {
        ctx@.resources.dom().contains(self.slot()) && self.counts(ctx).enabled(RcOp::DropWeak)
    }

    /// Whether the handle's reference is counted in `ctx`.
    pub fn is_counted_in(&self, ctx: &EngineContext) -> (counted: bool)
        ensures
            counted == self.counted_in(ctx),
    {
        ctx.resources().has_weak_handle(self.rc_count)
    }

    /// A strong handle of the same render target, if the target is still
    /// there: `None` exactly when no strong reference is counted at the time of the
    /// call, and otherwise a new handle, counted.
    pub fn upgrade(&self, ctx: &mut EngineContext) -> (strong: Option<RenderTexture>)
        requires
            old(ctx).wf(),
            self.counted_in(old(ctx)),
            self.counts(old(ctx)).fits(RcOp::Upgrade),
        ensures
            final(ctx).wf(),
            strong is None <==> self.counts(old(ctx)).strong == 0,
            strong is None ==> final(ctx)@ == old(ctx)@,
            strong matches Some(handle) ==> {
                &&& handle.raw() == self.raw()
                &&& handle.slot() == self.slot()
                &&& handle.counted_in(final(ctx))
                &&& self.counts(final(ctx)) == (RcCounts {
                    strong: self.counts(old(ctx)).strong + 1,
                    weak: self.counts(old(ctx)).weak,
                })
            },
            final(ctx)@ == old(ctx)@.counts(self.slot(), RcOp::Upgrade),
            self.counted_in(final(ctx)),
    {
        proof {
            ctx.lemma_wf();
        }
        let counted = ctx.count(self.rc_count, RcOp::Upgrade);
        if counted.upgraded {
            Some(
                RenderTexture {
                    render_texture: self.render_texture,
                    rc_count: self.rc_count,
                    one_thread: PhantomData,
                },
            )
        } else {
            assert(ctx@.resources =~= old(ctx)@.resources);
            None
        }
    }

    /// A second weak handle of the same render target.
    pub fn clone(&self, ctx: &mut EngineContext) -> (copy: WeakRenderTexture)
        requires
            old(ctx).wf(),
            self.counted_in(old(ctx)),
            self.counts(old(ctx)).fits(RcOp::CloneWeak),
        ensures
            final(ctx).wf(),
            copy.raw() == self.raw(),
            copy.slot() == self.slot(),
            final(ctx)@ == old(ctx)@.counts(self.slot(), RcOp::CloneWeak),
            copy.counted_in(final(ctx)),
            self.counted_in(final(ctx)),
    {
        proof {
            ctx.lemma_wf();
        }
        ctx.count(self.rc_count, RcOp::CloneWeak);
        WeakRenderTexture {
            render_texture: self.render_texture,
            rc_count: self.rc_count,
            one_thread: PhantomData,
        }
    }

    /// Gives up the handle. No engine call ever falls due here; the result
    /// says whether the counter block went with it.
    pub fn drop(self, ctx: &mut EngineContext) -> (freed: bool)
        requires
            old(ctx).wf(),
            self.counted_in(old(ctx)),
        ensures
            final(ctx).wf(),
            final(ctx)@ == old(ctx)@.counts(self.slot(), RcOp::DropWeak),
            freed == self.counts(old(ctx)).frees(RcOp::DropWeak),
            freed == !final(ctx)@.resources.dom().contains(self.slot()),
    {
        let counted = ctx.count(self.rc_count, RcOp::DropWeak);
        counted.dropped.free
    }

    /// The render target as the engine describes it.
    pub fn render_texture(&self) -> (raw: RawRenderTexture)
        ensures
            raw == self.raw(),
    {
        self.render_texture
    }

    /// The slot of the handle's counter block.
    pub fn rc_slot(&self) -> (slot: usize)
        ensures
            slot == self.slot(),
    {
        self.rc_count
    }
}

} // verus!

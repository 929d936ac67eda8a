use std::marker::PhantomData;
use std::rc::Rc;

use vstd::prelude::*;

use crate::call::EngineCall;
use crate::color::Color;
use crate::context::EngineContext;
use crate::context::EngineEvent;
use crate::error::DiotekoErr;

verus! {

/// The open frame, owned: the value exists from the call that opens a frame
/// to the call that closes it, and what draws asks for it.
///
/// It cannot be copied, a second one is not handed out while the first is
/// held, and it stays on the thread that made it.
#[derive(Debug)]
pub struct Painter {
    one_thread: PhantomData<Rc<()>>,
}

impl Painter {
    /// Opens a frame: the frame is marked open and the engine's call that
    /// begins it falls due, together with the guard of the frame.
    ///
    /// It is turned away, and changes nothing, unless the window is up and
    /// no frame is open.
    pub fn begin(ctx: &mut EngineContext) -> (opened: Result<(Painter, EngineCall), DiotekoErr>)
        ensures
            opened is Ok <==> old(ctx)@.accepts(EngineEvent::BeginFrame),
            final(ctx)@ == old(ctx)@.step(EngineEvent::BeginFrame),
            old(ctx).wf() ==> final(ctx).wf(),
            opened matches Ok(frame) ==> frame.1 == EngineCall::BeginDrawing,
            opened matches Err(e) ==> e == DiotekoErr::ProtocolViolation,
    {
        match ctx.apply(EngineEvent::BeginFrame) {
            Ok(()) => Ok((Painter { one_thread: PhantomData }, EngineCall::BeginDrawing)),
            Err(e) => Err(e),
        }
    }

    /// Opens a frame, as `begin` does.
    pub fn new(ctx: &mut EngineContext) -> (opened: Result<(Painter, EngineCall), DiotekoErr>)
        ensures
            opened is Ok <==> old(ctx)@.accepts(EngineEvent::BeginFrame),
            final(ctx)@ == old(ctx)@.step(EngineEvent::BeginFrame),
            old(ctx).wf() ==> final(ctx).wf(),
            opened matches Ok(frame) ==> frame.1 == EngineCall::BeginDrawing,
            opened matches Err(e) ==> e == DiotekoErr::ProtocolViolation,
    {
        Painter::begin(ctx)
    }

    /// Fills the frame with `color`: the engine's call for it, for the
    /// caller to issue while the guard is held.
    pub fn clear_background(&self, color: Color) -> (call: EngineCall)
        ensures
            call == EngineCall::ClearBackground(color),
    {
        EngineCall::ClearBackground(color)
    }

    /// Closes the frame: the frame is marked closed and the engine's call
    /// that ends it falls due, once, whether or not anything was drawn. The
    /// guard is used up.
    ///
    /// It is turned away, and changes nothing, unless a frame is open; the
    /// guard is then handed back.
    pub fn drop(self, ctx: &mut EngineContext) -> (call: Result<EngineCall, (Painter, DiotekoErr)>)
        ensures
            call is Ok <==> old(ctx)@.accepts(EngineEvent::EndFrame),
            final(ctx)@ == old(ctx)@.step(EngineEvent::EndFrame),
            old(ctx).wf() ==> final(ctx).wf(),
            call matches Ok(due) ==> due == EngineCall::EndDrawing,
            call matches Err(back) ==> back.0 == self && back.1 == DiotekoErr::ProtocolViolation,
    {
        match ctx.apply(EngineEvent::EndFrame) {
            Ok(()) => Ok(EngineCall::EndDrawing),
            Err(e) => Err((self, e)),
        }
    }
}

} // verus!

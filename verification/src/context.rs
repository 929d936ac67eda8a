use std::marker::PhantomData;
use std::rc::Rc;

use vstd::prelude::*;

use crate::error::DiotekoErr;
use crate::rc::lemma_step_wf;
use crate::rc::Counted;
use crate::rc::RcCounts;
use crate::rc::RcOp;
use crate::table::holds_alive;
use crate::table::table_step;
use crate::table::RcTable;

verus! {

/// Where the one window session of a process stands. The order is one-way:
/// from `Uninitialized` over `Initializing` to `Ready` and on to `Closed`, or
/// from `Initializing` straight to `Closed` when the engine did not come up.
#[derive(Debug, Clone, Copy, PartialEq, Eq, Structural)]
pub enum SessionState {
    /// No window was asked for yet.
    Uninitialized,
    /// The calls that create the window are out; the engine was not yet asked
    /// whether it is ready.
    Initializing,
    /// The window is up.
    Ready,
    /// The window is gone, or never came up. Nothing follows.
    Closed,
}

/// What the program asks of the engine's process-wide state.
#[derive(Debug, Clone, Copy, PartialEq, Eq, Structural)]
pub enum EngineEvent {
    /// Start to create the window.
    OpenSession,
    /// The engine answered the readiness probe, with this answer.
    SessionProbed(bool),
    /// Destroy the window.
    CloseSession,
    /// Open a frame.
    BeginFrame,
    /// Close the open frame.
    EndFrame,
}

/// The engine's process-wide state as this layer tracks it: the window
/// session, the open frame, and the counts of the GPU resources by the slots
/// of their counter blocks.
pub struct ContextState {
    pub session: SessionState,
    pub frame_active: bool,
    pub resources: Map<int, RcCounts>,
}

impl SessionState {
    /// How far along its one-way order a session is.
    pub open spec fn rank(self) -> nat {
        match self {
            SessionState::Uninitialized => 0,
            SessionState::Initializing => 1,
            SessionState::Ready => 2,
            SessionState::Closed => 3,
        }
    }
}

impl ContextState {
    /// The state of a process that has not touched the engine.
    pub open spec fn initial() -> ContextState {
        ContextState {
            session: SessionState::Uninitialized,
            frame_active: false,
            resources: Map::empty(),
        }
    }

    /// A frame is open only while the window is up, a GPU resource is alive
    /// only while the window is up, and every counter block has a reference
    /// left and keeps the implicit weak reference while it has strong ones.
    pub open spec fn wf(self) -> bool {
        &&& self.frame_active ==> self.session is Ready
        &&& holds_alive(self.resources) ==> self.session is Ready
        &&& forall|slot: int| #[trigger]
            self.resources.dom().contains(slot) ==> self.resources[slot].wf()
                && !self.resources[slot].freed()
    }

    /// The window is up.
    pub open spec fn ready(self) -> bool {
        self.session is Ready
    }

    /// Whether the engine's call order admits `event` now.
    pub open spec fn accepts(self, event: EngineEvent) -> bool {
        match event {
            EngineEvent::OpenSession => self.session is Uninitialized,
            EngineEvent::SessionProbed(_) => self.session is Initializing,
            EngineEvent::CloseSession => self.session is Ready && !self.frame_active
                && !holds_alive(self.resources),
            EngineEvent::BeginFrame => self.session is Ready && !self.frame_active,
            EngineEvent::EndFrame => self.session is Ready && self.frame_active,
        }
    }

    /// The state after `event`; an event that is not admitted changes nothing.
    pub open spec fn step(self, event: EngineEvent) -> ContextState {
        if !self.accepts(event) {
            self
        } else {
            match event {
                EngineEvent::OpenSession => ContextState {
                    session: SessionState::Initializing,
                    ..self
                },
                EngineEvent::SessionProbed(ready) => ContextState {
                    session: if ready {
                        SessionState::Ready
                    } else {
                        SessionState::Closed
                    },
                    ..self
                },
                EngineEvent::CloseSession => ContextState { session: SessionState::Closed, ..self },
                EngineEvent::BeginFrame => ContextState { frame_active: true, ..self },
                EngineEvent::EndFrame => ContextState { frame_active: false, ..self },
            }
        }
    }

    /// The state after a resource was loaded and its counter block put at
    /// `slot`.
    pub open spec fn adopts(self, slot: int) -> ContextState {
        ContextState { resources: self.resources.insert(slot, RcCounts::initial()), ..self }
    }

    /// The state after `op` on the counter block at `slot`.
    pub open spec fn counts(self, slot: int, op: RcOp) -> ContextState {
        ContextState { resources: table_step(self.resources, slot, op), ..self }
    }

    /// The state after all of `events`, in order.
    pub open spec fn run(self, events: Seq<EngineEvent>) -> ContextState
        decreases events.len(),
    {
        if events.len() == 0 {
            self
        } else {
            self.step(events[0]).run(events.drop_first())
        }
    }

    /// How many of `events` are admitted when their turn comes and equal
    /// `counted`.
    pub open spec fn admitted(self, events: Seq<EngineEvent>, counted: EngineEvent) -> nat
        decreases events.len(),
    {
        if events.len() == 0 {
            0
        } else {
            (if events[0] == counted && self.accepts(counted) {
                1nat
            } else {
                0nat
            }) + self.step(events[0]).admitted(events.drop_first(), counted)
        }
    }
}

/// One step keeps a frame inside a session and never moves the session
/// backwards.
pub proof fn lemma_step(state: ContextState, event: EngineEvent)
    requires
        state.wf(),
    ensures
        state.step(event).wf(),
        state.session.rank() <= state.step(event).session.rank(),
{
}

/// A closed session admits nothing, and stays closed.
pub proof fn lemma_closed_is_terminal(state: ContextState, event: EngineEvent)
    requires
        state.wf(),
        state.session is Closed,
    ensures
        !state.accepts(event),
        state.step(event) == state,
{
}

/// What needs the window is admitted only while the window is up.
pub proof fn lemma_ready_only(state: ContextState, event: EngineEvent)
    requires
        event is CloseSession || event is BeginFrame || event is EndFrame,
        state.accepts(event),
    ensures
        state.ready(),
{
}

/// While a frame is open a second one is not admitted, nor is closing the
/// window.
pub proof fn lemma_one_frame(state: ContextState)
    requires
        state.frame_active,
    ensures
        !state.accepts(EngineEvent::BeginFrame),
        !state.accepts(EngineEvent::CloseSession),
{
}

/// No GPU resource outlives the window: while one is alive the window is up
/// and is not closed, and once the window is closed none is alive, none
/// comes alive again and no release call falls due.
pub proof fn lemma_resources_inside_session(state: ContextState, slot: int, op: RcOp)
    requires
        state.wf(),
        state.resources.dom().contains(slot),
        state.resources[slot].enabled(op),
    ensures
        state.resources[slot].alive() ==> state.ready() && !state.accepts(
            EngineEvent::CloseSession,
        ),
        state.resources[slot].releases(op) ==> state.ready(),
        state.resources[slot].step(op).alive() ==> state.ready(),
        state.counts(slot, op).wf(),
{
    let after = state.counts(slot, op);
    lemma_step_wf(state.resources[slot], op);
    if state.resources[slot].alive() {
        assert(holds_alive(state.resources));
    }
    if holds_alive(after.resources) {
        let live = choose|live: int|
            after.resources.dom().contains(live) && (#[trigger] after.resources[live]).alive();
        if live == slot {
            assert(state.resources[slot].alive());
        } else {
            assert(state.resources[live].alive());
        }
    }
}

/// Over any sequence of events the state stays well-formed and the session
/// never moves backwards.
pub proof fn lemma_run(state: ContextState, events: Seq<EngineEvent>)
    requires
        state.wf(),
    ensures
        state.run(events).wf(),
        state.session.rank() <= state.run(events).session.rank(),
    decreases events.len(),
{
    if events.len() > 0 {
        lemma_step(state, events[0]);
        lemma_run(state.step(events[0]), events.drop_first());
    }
}

/// There is one session per process: over any sequence of events, however
/// often the program asks, the window is created at most once, comes up at
/// most once and is destroyed at most once, and it is destroyed only if it
/// came up.
pub proof fn lemma_single_session(state: ContextState, events: Seq<EngineEvent>)
    requires
        state.wf(),
    ensures
        state.admitted(events, EngineEvent::OpenSession) <= (if state.session is Uninitialized {
            1nat
        } else {
            0nat
        }),
        state.admitted(events, EngineEvent::SessionProbed(true)) <= (if state.session.rank() <= 1 {
            1nat
        } else {
            0nat
        }),
        state.admitted(events, EngineEvent::CloseSession) <= (if state.session.rank() <= 2 {
            1nat
        } else {
            0nat
        }),
        state.admitted(events, EngineEvent::CloseSession) == 1 ==> state.session is Ready
            || state.admitted(events, EngineEvent::SessionProbed(true)) == 1,
    decreases events.len(),
{
    if events.len() > 0 {
        lemma_step(state, events[0]);
        lemma_single_session(state.step(events[0]), events.drop_first());
    }
}

/// Frames come one at a time and are closed as often as they are opened:
/// over any sequence of events, the frames opened are the frames closed,
/// plus the one that is open at the end, less the one that was open at the
/// start.
pub proof fn lemma_frames_bracket(state: ContextState, events: Seq<EngineEvent>)
    requires
        state.wf(),
    ensures
        state.admitted(events, EngineEvent::BeginFrame) + (if state.frame_active {
            1nat
        } else {
            0nat
        }) == state.admitted(events, EngineEvent::EndFrame) + (if state.run(events).frame_active {
            1nat
        } else {
            0nat
        }),
    decreases events.len(),
{
    if events.len() > 0 {
        lemma_step(state, events[0]);
        lemma_frames_bracket(state.step(events[0]), events.drop_first());
    }
}

/// The engine's process-wide state, as a value that the program threads
/// through every operation that depends on the call order.
///
/// The native engine keeps its window, its open frame and its GPU resources
/// in globals and checks nothing. This value mirrors them: an operation out
/// of order is turned away here, before any call reaches the engine. Like
/// the engine, the value belongs to one thread.
#[derive(Debug)]
pub struct EngineContext {
    session: SessionState,
    frame_active: bool,
    resources: RcTable,
    one_thread: PhantomData<Rc<()>>,
}

impl View for EngineContext {
    type V = ContextState;

    closed spec fn view(&self) -> ContextState {
        ContextState {
            session: self.session,
            frame_active: self.frame_active,
            resources: self.resources@,
        }
    }
}

impl EngineContext {
    /// What every operation keeps: the state is well-formed, and so is the
    /// table of the counter blocks.
    pub closed spec fn wf(&self) -> bool {
        self.resources.wf() && self@.wf()
    }

    /// A well-formed context has a well-formed state.
    pub proof fn lemma_wf(&self)
        requires
            self.wf(),
        ensures
            self@.wf(),
    {
    }

    /// The context of a process that has not touched the engine.
    pub fn new() -> (ctx: Self)
        ensures
            ctx@ == ContextState::initial(),
            ctx.wf(),
    {
        EngineContext {
            session: SessionState::Uninitialized,
            frame_active: false,
            resources: RcTable::new(),
            one_thread: PhantomData,
        }
    }

    /// Where the session stands.
    pub fn session(&self) -> (session: SessionState)
        ensures
            session == self@.session,
    {
        self.session
    }

    /// Whether the window is up.
    pub fn is_ready(&self) -> (ready: bool)
        ensures
            ready == self@.ready(),
    {
        match self.session {
            SessionState::Ready => true,
            _ => false,
        }
    }

    /// Whether a frame is open.
    pub fn is_frame_active(&self) -> (active: bool)
        ensures
            active == self@.frame_active,
    {
        self.frame_active
    }

    /// The counter blocks of the GPU resources.
    pub fn resources(&self) -> (table: &RcTable)
        ensures
            table@ == self@.resources,
            self.wf() ==> table.wf(),
    {
        &self.resources
    }

    /// The check that goes before every operation that needs the window:
    /// it passes exactly while the window is up.
    pub fn ensure_ready(&self) -> (checked: Result<(), DiotekoErr>)
        ensures
            checked is Ok <==> self@.ready(),
            checked matches Err(e) ==> e == DiotekoErr::ProtocolViolation,
    {
        if self.is_ready() {
            Ok(())
        } else {
            Err(DiotekoErr::ProtocolViolation)
        }
    }

    /// Whether the call order admits `event` now.
    pub fn accepts(&self, event: EngineEvent) -> (admitted: bool)
        ensures
            admitted == self@.accepts(event),
    {
        match event {
            EngineEvent::OpenSession => match self.session {
                SessionState::Uninitialized => true,
                _ => false,
            },
            EngineEvent::SessionProbed(_) => match self.session {
                SessionState::Initializing => true,
                _ => false,
            },
            EngineEvent::CloseSession => self.is_ready() && !self.frame_active
                && !self.resources.any_alive(),
            EngineEvent::BeginFrame => self.is_ready() && !self.frame_active,
            EngineEvent::EndFrame => self.is_ready() && self.frame_active,
        }
    }

    /// Takes `event` if the call order admits it, and turns it away
    /// otherwise, leaving the state as it was. It stays inside the crate:
    /// the operations that hand out the engine calls of an event are the
    /// only way to bring the event about.
    pub(crate) fn apply(&mut self, event: EngineEvent) -> (taken: Result<(), DiotekoErr>)
        ensures
            taken is Ok <==> old(self)@.accepts(event),
            taken matches Err(e) ==> e == DiotekoErr::ProtocolViolation,
            final(self)@ == old(self)@.step(event),
            old(self).wf() ==> final(self).wf(),
    {
        if !self.accepts(event) {
            return Err(DiotekoErr::ProtocolViolation);
        }
        match event {
            EngineEvent::OpenSession => {
                self.session = SessionState::Initializing;
            },
            EngineEvent::SessionProbed(ready) => {
                if ready {
                    self.session = SessionState::Ready;
                } else {
                    self.session = SessionState::Closed;
                }
            },
            EngineEvent::CloseSession => {
                self.session = SessionState::Closed;
            },
            EngineEvent::BeginFrame => {
                self.frame_active = true;
            },
            EngineEvent::EndFrame => {
                self.frame_active = false;
            },
        }
        Ok(())
    }

    /// Puts the counter block of a GPU resource that was just loaded at the
    /// lowest slot that holds none, and returns that slot.
    ///
    /// It is turned away, and changes nothing, unless the window is up.
    pub(crate) fn adopt(&mut self) -> (adopted: Result<usize, DiotekoErr>)
        requires
            old(self).wf(),
        ensures
            final(self).wf(),
            adopted is Ok <==> old(self)@.ready(),
            adopted matches Err(e) ==> e == DiotekoErr::ProtocolViolation && final(self)@ == old(
                self,
            )@,
            adopted matches Ok(slot) ==> {
                &&& !old(self)@.resources.dom().contains(slot as int)
                &&& forall|lower: int|
                    0 <= lower < slot ==> old(self)@.resources.dom().contains(lower)
                &&& final(self)@ == old(self)@.adopts(slot as int)
            },
    {
        if !self.is_ready() {
            return Err(DiotekoErr::ProtocolViolation);
        }
        let slot = self.resources.insert();
        Ok(slot)
    }

    /// Carries out `op` on the counter block at `slot` for a handle of that
    /// block, and says what it came to.
    pub(crate) fn count(&mut self, slot: usize, op: RcOp) -> (counted: Counted)
        requires
            old(self).wf(),
            old(self)@.resources.dom().contains(slot as int),
            old(self)@.resources[slot as int].enabled(op),
            old(self)@.resources[slot as int].fits(op),
        ensures
            final(self).wf(),
            final(self)@ == old(self)@.counts(slot as int, op),
            counted == old(self)@.resources[slot as int].outcome(op),
            counted.dropped.free == !final(self)@.resources.dom().contains(slot as int),
            counted.dropped.release ==> old(self)@.ready(),
    {
        proof {
            lemma_resources_inside_session(self@, slot as int, op);
        }
        self.resources.apply(slot, op)
    }
}

} // verus!

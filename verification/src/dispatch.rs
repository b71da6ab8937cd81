//! The application loop's state machine: which calls the renderer receives
//! for each event, and how the control flow evolves.
//!
//! The loop is event-driven and synchronous: for each event pulled from the
//! platform, [`LoopState::begin`] says what the host must do; where that work
//! involves the renderer, the host reports the renderer's answer back through
//! [`LoopState::after_input`] or [`LoopState::after_render`], which finish the
//! step. [`LoopState::step`] and [`LoopState::drive`] run the same machine
//! over given renderer replies, so whole event sequences can be examined.

use vstd::prelude::*;

use crate::events::Event;
use crate::events::Key;
use crate::events::KeyState;
use crate::events::RenderOutcome;
use crate::events::RendererCall;
use crate::events::RendererReplies;
use crate::events::Size;
use crate::events::WindowPayload;

verus! {

/// The continue/exit directive governing loop termination. Initially
/// `Continue`; once `Exit`, the loop is done for good.
#[derive(Clone, Copy, Debug, PartialEq, Eq, Structural)]
pub enum ControlFlow {
    Continue,
    Exit,
}

/// What the loop asks its host to do for the event just pulled.
#[derive(Clone, Copy, Debug, PartialEq, Eq, Structural)]
pub enum Directive {
    /// Offer the payload to the renderer's `input`, then report whether it
    /// was claimed through [`LoopState::after_input`].
    ForwardInput(WindowPayload),
    /// Call the renderer's `update` then `render`, then report the outcome
    /// and the renderer's current size through [`LoopState::after_render`].
    RunFrame,
    /// Ask the main window to schedule a redraw.
    RequestRedraw,
    /// Nothing to do for this event.
    Idle,
}

/// What remains to be done after a frame's `render` call returned.
#[derive(Clone, Copy, Debug, PartialEq, Eq, Structural)]
pub enum FrameFollowUp {
    /// The frame is dealt with; nothing further.
    Done,
    /// Reconfigure the surface: call the renderer's `resize` with its own
    /// current size.
    Reconfigure(Size),
    /// Log the failure and drop the frame; the loop goes on.
    DropFrame,
}

/// The state the application loop owns: the identity of the main window that
/// events are routed against, and the control flow.
#[derive(Clone, Copy, Debug, PartialEq, Eq, Structural)]
pub struct LoopState {
    pub main_window: u64,
    pub flow: ControlFlow,
}

/// Does this payload carry a pressed Escape key?
pub open spec fn escape_pressed(p: WindowPayload) -> bool {
    &&& p matches WindowPayload::KeyboardInput { state, key }
    &&& state == KeyState::Pressed
    &&& key == Key::Escape
}

/// Does this payload, left unclaimed by the renderer, end the loop?
pub open spec fn wants_exit(p: WindowPayload) -> bool {
    p is CloseRequested || escape_pressed(p)
}

/// The size an unclaimed payload asks the renderer to take, if any. A DPI
/// scale-factor change is treated exactly like a pixel resize.
pub open spec fn resize_request(p: WindowPayload) -> Option<Size> {
    match p {
        WindowPayload::Resized(sz) => Some(sz),
        WindowPayload::ScaleFactorChanged(sz) => Some(sz),
        _ => None,
    }
}

/// What the loop does with one event: nothing once the flow is `Exit`,
/// nothing for a window event that is not the main window's, and otherwise
/// the dispatch the event kind asks for.
pub open spec fn directive_for(s: LoopState, ev: Event) -> Directive {
    if s.flow is Exit {
        Directive::Idle
    } else {
        match ev {
            Event::Window { id, payload } => if id == s.main_window {
                Directive::ForwardInput(payload)
            } else {
                Directive::Idle
            },
            Event::RedrawRequested => Directive::RunFrame,
            Event::MainEventsCleared => Directive::RequestRedraw,
            Event::Other => Directive::Idle,
        }
    }
}

/// The control flow after the renderer answered `input`: a claimed event is
/// the renderer's alone, an unclaimed close request or Escape press exits.
pub open spec fn flow_after_input(s: LoopState, p: WindowPayload, claimed: bool) -> ControlFlow {
    if !claimed && wants_exit(p) {
        ControlFlow::Exit
    } else {
        s.flow
    }
}

/// The control flow after a frame: only an out-of-memory failure exits.
pub open spec fn flow_after_render(s: LoopState, outcome: RenderOutcome) -> ControlFlow {
    if outcome is OutOfMemory {
        ControlFlow::Exit
    } else {
        s.flow
    }
}

/// What remains after `render` returned: a lost surface is reconfigured in
/// place with the renderer's own current size, any other failure is logged
/// and the frame dropped, success needs nothing.
pub open spec fn frame_follow_up(outcome: RenderOutcome, current_size: Size) -> FrameFollowUp {
    match outcome {
        RenderOutcome::Presented => FrameFollowUp::Done,
        RenderOutcome::SurfaceLost => FrameFollowUp::Reconfigure(current_size),
        RenderOutcome::OutOfMemory => FrameFollowUp::Done,
        RenderOutcome::OtherError => FrameFollowUp::DropFrame,
    }
}

/// The loop state after one whole event was handled, given what the renderer
/// replied during that step.
pub open spec fn step_next(s: LoopState, ev: Event, r: RendererReplies) -> LoopState {
    match directive_for(s, ev) {
        Directive::ForwardInput(p) => LoopState {
            main_window: s.main_window,
            flow: flow_after_input(s, p, r.claimed),
        },
        Directive::RunFrame => LoopState {
            main_window: s.main_window,
            flow: flow_after_render(s, r.render),
        },
        Directive::RequestRedraw => s,
        Directive::Idle => s,
    }
}

/// The calls the renderer receives while one event is handled, in order,
/// given what it replied during that step.
pub open spec fn step_calls(s: LoopState, ev: Event, r: RendererReplies) -> Seq<RendererCall> {
    match directive_for(s, ev) {
        Directive::ForwardInput(p) => {
            let offered = seq![RendererCall::Input(p)];
            if r.claimed {
                offered
            } else {
                match resize_request(p) {
                    Some(sz) => offered.push(RendererCall::Resize(sz)),
                    None => offered,
                }
            }
        },
        Directive::RunFrame => {
            let frame = seq![RendererCall::Update, RendererCall::Render];
            match frame_follow_up(r.render, r.current_size) {
                FrameFollowUp::Reconfigure(sz) => frame.push(RendererCall::Resize(sz)),
                _ => frame,
            }
        },
        Directive::RequestRedraw => Seq::empty(),
        Directive::Idle => Seq::empty(),
    }
}

/// The loop state after a whole sequence of events, each paired with the
/// renderer's replies for its step.
pub open spec fn run_next(s: LoopState, script: Seq<(Event, RendererReplies)>) -> LoopState
    decreases script.len(),
{
    if script.len() == 0 {
        s
    } else {
        run_next(step_next(s, script[0].0, script[0].1), script.skip(1))
    }
}

/// Every call the renderer receives over a whole sequence of events, in order.
pub open spec fn run_calls(s: LoopState, script: Seq<(Event, RendererReplies)>) -> Seq<
    RendererCall,
>
    decreases script.len(),
{
    if script.len() == 0 {
        Seq::empty()
    } else {
        step_calls(s, script[0].0, script[0].1) + run_calls(
            step_next(s, script[0].0, script[0].1),
            script.skip(1),
        )
    }
}

/// Handling one more event at the end of a script handles the script first
/// and then that event in the state the script reached.
proof fn lemma_run_snoc(
    s: LoopState,
    script: Seq<(Event, RendererReplies)>,
    e: (Event, RendererReplies),
)
    ensures
        run_next(s, script.push(e)) == step_next(run_next(s, script), e.0, e.1),
        run_calls(s, script.push(e)) == run_calls(s, script) + step_calls(
            run_next(s, script),
            e.0,
            e.1,
        ),
    decreases script.len(),
{
    if script.len() == 0 {
        let singleton = script.push(e);
        assert(singleton[0] == e);
        assert(singleton.skip(1) =~= Seq::<(Event, RendererReplies)>::empty());
        assert(run_next(s, script) == s);
        assert(run_calls(s, script) =~= Seq::<RendererCall>::empty());
        assert(run_next(step_next(s, e.0, e.1), singleton.skip(1)) == step_next(s, e.0, e.1));
        assert(run_calls(step_next(s, e.0, e.1), singleton.skip(1)) =~= Seq::<
            RendererCall,
        >::empty());
        assert(run_calls(s, singleton) =~= step_calls(s, e.0, e.1));
        assert(run_calls(s, script) + step_calls(run_next(s, script), e.0, e.1) =~= step_calls(
            s,
            e.0,
            e.1,
        ));
    } else {
        assert(script.push(e)[0] == script[0]);
        assert(script.push(e).skip(1) =~= script.skip(1).push(e));
        lemma_run_snoc(step_next(s, script[0].0, script[0].1), script.skip(1), e);
        assert(run_calls(s, script.push(e)) =~= run_calls(s, script) + step_calls(
            run_next(s, script),
            e.0,
            e.1,
        ));
    }
}

/// A run splits at any point: the second part starts in the state the first
/// part reached, and the trace is the two parts' traces in order.
proof fn lemma_run_split(
    s: LoopState,
    fst: Seq<(Event, RendererReplies)>,
    snd: Seq<(Event, RendererReplies)>,
)
    ensures
        run_next(s, fst + snd) == run_next(run_next(s, fst), snd),
        run_calls(s, fst + snd) == run_calls(s, fst) + run_calls(run_next(s, fst), snd),
    decreases fst.len(),
{
    if fst.len() == 0 {
        assert(fst + snd =~= snd);
        assert(run_calls(s, fst) + run_calls(run_next(s, fst), snd) =~= run_calls(s, snd));
    } else {
        assert((fst + snd)[0] == fst[0]);
        assert((fst + snd).skip(1) =~= fst.skip(1) + snd);
        lemma_run_split(step_next(s, fst[0].0, fst[0].1), fst.skip(1), snd);
        assert(run_calls(s, fst + snd) =~= run_calls(s, fst) + run_calls(run_next(s, fst), snd));
    }
}

impl LoopState {
    /// A fresh loop for the given main window, ready to continue.
    pub fn new(main_window: u64) -> (s: Self)
        ensures
            s == (LoopState { main_window, flow: ControlFlow::Continue }),
    {
        LoopState { main_window, flow: ControlFlow::Continue }
    }

    /// Decide what to do for one event. Once the flow is `Exit` every event
    /// is idle: nothing more is dispatched to the renderer or the window.
    pub fn begin(&self, ev: &Event) -> (d: Directive)
        ensures
            d == directive_for(*self, *ev),
    {
        match self.flow {
            ControlFlow::Exit => Directive::Idle,
            ControlFlow::Continue => match *ev {
                Event::Window { id, payload } => if id == self.main_window {
                    Directive::ForwardInput(payload)
                } else {
                    Directive::Idle
                },
                Event::RedrawRequested => Directive::RunFrame,
                Event::MainEventsCleared => Directive::RequestRedraw,
                Event::Other => Directive::Idle,
            },
        }
    }

    /// Finish a window event after the renderer's `input` answered. A claimed
    /// event gets no further handling. An unclaimed close request or pressed
    /// Escape sets the flow to `Exit`; an unclaimed resize or scale-factor
    /// change hands back the size the renderer must be resized to, exactly as
    /// it arrived, zero-area included.
    pub fn after_input(&mut self, payload: &WindowPayload, claimed: bool) -> (resize: Option<
        Size,
    >)
        ensures
            final(self).main_window == old(self).main_window,
            final(self).flow == flow_after_input(*old(self), *payload, claimed),
            resize == if claimed { None::<Size> } else { resize_request(*payload) },
    {
        if claimed {
            None
        } else {
            match *payload {
                WindowPayload::CloseRequested => {
                    self.flow = ControlFlow::Exit;
                    None
                },
                WindowPayload::KeyboardInput { state, key } => {
                    if state == KeyState::Pressed && key == Key::Escape {
                        self.flow = ControlFlow::Exit;
                    }
                    None
                },
                WindowPayload::Resized(sz) => Some(sz),
                WindowPayload::ScaleFactorChanged(sz) => Some(sz),
                WindowPayload::Other => None,
            }
        }
    }

    /// Finish a frame after `render` returned. Out of memory sets the flow to
    /// `Exit`; a lost surface asks for one reconfiguring resize with the
    /// renderer's own current size and the loop keeps running; any other
    /// failure is dropped with the frame.
    pub fn after_render(&mut self, outcome: &RenderOutcome, current_size: Size) -> (f:
        FrameFollowUp)
        ensures
            final(self).main_window == old(self).main_window,
            final(self).flow == flow_after_render(*old(self), *outcome),
            f == frame_follow_up(*outcome, current_size),
    {
        match *outcome {
            RenderOutcome::Presented => FrameFollowUp::Done,
            RenderOutcome::SurfaceLost => FrameFollowUp::Reconfigure(current_size),
            RenderOutcome::OutOfMemory => {
                self.flow = ControlFlow::Exit;
                FrameFollowUp::Done
            },
            RenderOutcome::OtherError => FrameFollowUp::DropFrame,
        }
    }

    /// Handle one whole event against the renderer replies given, returning
    /// every call the renderer received for it, in order. This is the same
    /// machine the phased interface runs, taken in one piece.
    pub fn step(&mut self, ev: &Event, replies: &RendererReplies) -> (calls: Vec<RendererCall>)
        ensures
            *final(self) == step_next(*old(self), *ev, *replies),
            calls@ == step_calls(*old(self), *ev, *replies),
    {
        let mut calls: Vec<RendererCall> = Vec::new();
        match self.begin(ev) {
            Directive::ForwardInput(p) => {
                calls.push(RendererCall::Input(p));
                match self.after_input(&p, replies.claimed) {
                    Some(sz) => calls.push(RendererCall::Resize(sz)),
                    None => (),
                }
            },
            Directive::RunFrame => {
                calls.push(RendererCall::Update);
                calls.push(RendererCall::Render);
                match self.after_render(&replies.render, replies.current_size) {
                    FrameFollowUp::Reconfigure(sz) => calls.push(RendererCall::Resize(sz)),
                    FrameFollowUp::Done => (),
                    FrameFollowUp::DropFrame => (),
                }
            },
            Directive::RequestRedraw => (),
            Directive::Idle => (),
        }
        proof {
            assert(calls@ =~= step_calls(*old(self), *ev, *replies));
        }
        calls
    }

    /// Handle a whole scripted sequence of events in arrival order, each
    /// against the renderer replies paired with it, returning every call the
    /// renderer received over the sequence, in order.
    pub fn drive(&mut self, script: &Vec<(Event, RendererReplies)>) -> (calls: Vec<RendererCall>)
        ensures
            *final(self) == run_next(*old(self), script@),
            calls@ == run_calls(*old(self), script@),
    {
        let mut calls: Vec<RendererCall> = Vec::new();
        let mut i: usize = 0;
        while i < script.len()
            invariant
                i <= script@.len(),
                *self == run_next(*old(self), script@.take(i as int)),
                calls@ == run_calls(*old(self), script@.take(i as int)),
            decreases script@.len() - i,
        {
            let ev = script[i].0;
            let replies = script[i].1;
            let mut more = self.step(&ev, &replies);
            calls.append(&mut more);
            proof {
                assert(script@.take(i + 1) =~= script@.take(i as int).push(script@[i as int]));
                lemma_run_snoc(*old(self), script@.take(i as int), script@[i as int]);
            }
            i = i + 1;
        }
        proof {
            assert(script@.take(script@.len() as int) =~= script@);
        }
        calls
    }
}

/// Exit is terminal: once the flow is `Exit`, no event sequence of any length
/// dispatches anything further to the renderer, and the state never changes
/// again.
pub proof fn exit_is_terminal(s: LoopState, script: Seq<(Event, RendererReplies)>)
    requires
        s.flow is Exit,
    ensures
        run_next(s, script) == s,
        run_calls(s, script) == Seq::<RendererCall>::empty(),
    decreases script.len(),
{
    if script.len() > 0 {
        assert(step_next(s, script[0].0, script[0].1) == s);
        exit_is_terminal(s, script.skip(1));
        assert(run_calls(s, script) =~= Seq::<RendererCall>::empty());
    }
}

/// Once some prefix of a script has driven the flow to `Exit`, the rest of
/// the script adds no renderer call: the whole trace is the prefix's trace.
pub proof fn exit_cuts_trace(s: LoopState, script: Seq<(Event, RendererReplies)>, n: int)
    requires
        0 <= n <= script.len(),
        run_next(s, script.take(n)).flow is Exit,
    ensures
        run_calls(s, script) == run_calls(s, script.take(n)),
        run_next(s, script) == run_next(s, script.take(n)),
{
    assert(script.take(n) + script.skip(n) =~= script);
    lemma_run_split(s, script.take(n), script.skip(n));
    exit_is_terminal(run_next(s, script.take(n)), script.skip(n));
    assert(run_calls(s, script.take(n)) + Seq::<RendererCall>::empty() =~= run_calls(
        s,
        script.take(n),
    ));
}

/// Routing: a window event whose identity is not the main window's reaches
/// the renderer with no call at all and leaves the loop unchanged.
pub proof fn foreign_window_ignored(
    s: LoopState,
    id: u64,
    payload: WindowPayload,
    r: RendererReplies,
)
    requires
        id != s.main_window,
    ensures
        step_next(s, Event::Window { id, payload }, r) == s,
        step_calls(s, Event::Window { id, payload }, r) == Seq::<RendererCall>::empty(),
{
}

/// A claimed input event is the renderer's alone: the loop's own handling is
/// skipped, so the flow does not change and the offer of the event is the
/// only call made — no resize, whatever the payload was.
pub proof fn claimed_input_preempts(s: LoopState, payload: WindowPayload, r: RendererReplies)
    requires
        s.flow is Continue,
        r.claimed,
    ensures
        step_next(s, Event::Window { id: s.main_window, payload }, r) == s,
        step_calls(s, Event::Window { id: s.main_window, payload }, r) == seq![
            RendererCall::Input(payload),
        ],
{
}

/// An unclaimed resize or scale-factor change of any size, zero-area
/// included, is forwarded to the renderer's `resize` exactly as it arrived,
/// and the flow does not change.
pub proof fn resize_forwarded_unmodified(s: LoopState, sz: Size, r: RendererReplies)
    requires
        s.flow is Continue,
        !r.claimed,
    ensures
        step_calls(s, Event::Window { id: s.main_window, payload: WindowPayload::Resized(sz) }, r)
            == seq![
            RendererCall::Input(WindowPayload::Resized(sz)),
            RendererCall::Resize(sz),
        ],
        step_next(s, Event::Window { id: s.main_window, payload: WindowPayload::Resized(sz) }, r)
            == s,
        step_calls(
            s,
            Event::Window { id: s.main_window, payload: WindowPayload::ScaleFactorChanged(sz) },
            r,
        ) == seq![
            RendererCall::Input(WindowPayload::ScaleFactorChanged(sz)),
            RendererCall::Resize(sz),
        ],
        step_next(
            s,
            Event::Window { id: s.main_window, payload: WindowPayload::ScaleFactorChanged(sz) },
            r,
        ) == s,
{
    assert(step_calls(
        s,
        Event::Window { id: s.main_window, payload: WindowPayload::Resized(sz) },
        r,
    ) =~= seq![RendererCall::Input(WindowPayload::Resized(sz)), RendererCall::Resize(sz)]);
    assert(step_calls(
        s,
        Event::Window { id: s.main_window, payload: WindowPayload::ScaleFactorChanged(sz) },
        r,
    ) =~= seq![
        RendererCall::Input(WindowPayload::ScaleFactorChanged(sz)),
        RendererCall::Resize(sz),
    ]);
}

/// A lost surface is answered within the same step by exactly one `resize`
/// carrying the renderer's own reported current size — after the failed
/// render and before any later call — and the loop keeps running.
pub proof fn surface_lost_reconfigures(s: LoopState, r: RendererReplies)
    requires
        s.flow is Continue,
        r.render is SurfaceLost,
    ensures
        step_calls(s, Event::RedrawRequested, r) == seq![
            RendererCall::Update,
            RendererCall::Render,
            RendererCall::Resize(r.current_size),
        ],
        step_next(s, Event::RedrawRequested, r) == s,
{
    assert(step_calls(s, Event::RedrawRequested, r) =~= seq![
        RendererCall::Update,
        RendererCall::Render,
        RendererCall::Resize(r.current_size),
    ]);
}

/// Running out of memory ends the loop: the flow becomes `Exit`, the failed
/// frame gets no recovery call, and no later event produces a render attempt
/// — or any renderer call at all.
pub proof fn out_of_memory_exits(
    s: LoopState,
    r: RendererReplies,
    rest: Seq<(Event, RendererReplies)>,
)
    requires
        s.flow is Continue,
        r.render is OutOfMemory,
    ensures
        step_next(s, Event::RedrawRequested, r).flow is Exit,
        step_calls(s, Event::RedrawRequested, r) == seq![
            RendererCall::Update,
            RendererCall::Render,
        ],
        run_calls(step_next(s, Event::RedrawRequested, r), rest) == Seq::<RendererCall>::empty(),
{
    assert(step_calls(s, Event::RedrawRequested, r) =~= seq![
        RendererCall::Update,
        RendererCall::Render,
    ]);
    exit_is_terminal(step_next(s, Event::RedrawRequested, r), rest);
}

} // verus!

//! The guest lifecycle manager and invocation wrapper.
//!
//! [`ComponentRuntime`] owns the host scratch state for exactly one live
//! guest instantiation and presents one call per lifecycle event.  The guest
//! itself stands behind the [`GuestComponent`] trait: one entry point runs to
//! completion and reports the capability calls it issued, in order, together
//! with whether it trapped.  Nothing is assumed about a guest: every
//! guarantee below holds whatever a guest does.
//!
//! Around every guest call the wrapper (1) enters the target phase,
//! resetting the frame output buffer if the phase is `Frame`, (2) lets the
//! guest run, (3) applies the guest's capability calls under the phase gate,
//! (4) extracts the sticky redraw flag and, for a frame call, the frame
//! output, and (5) exits to `Idle` — extraction and exit happen whether or
//! not the guest trapped, so one bad call can neither wedge the phase
//! machine nor leak drawing state into the next call.

use vstd::prelude::*;

use crate::host::{
    enter_spec, lemma_steps_envelope, steps, FrameOutput, FrameView, HostCall, HostCtx, HostView,
    Phase,
};
use crate::model::{KeyEvent, LogicalSize, PointerEvent};

verus! {

/// Where a guest binary comes from: a reloadable file path, or an immutable
/// in-memory payload with a label.
#[derive(Clone, Debug)]
pub enum ComponentSource {
    Path { path: String },
    Embedded { bytes: Vec<u8>, label: String },
}

impl ComponentSource {
    pub fn from_path(path: String) -> (r: ComponentSource)
        ensures
            r == (ComponentSource::Path { path }),
    {
        ComponentSource::Path { path }
    }

    pub fn embedded(label: &str, bytes: &[u8]) -> (r: ComponentSource)
        ensures
            (r matches ComponentSource::Embedded { bytes: b, label: l } && b@ == bytes@ && l@
                == label@),
    {
        ComponentSource::Embedded {
            bytes: vstd::slice::slice_to_vec(bytes),
            label: label.to_owned(),
        }
    }
}

/// Why a guest could not be (re)loaded: the source bytes are missing or are
/// not a valid guest binary (`Load`), or the binary is valid but cannot be
/// linked against the capability surface (`Instantiation`).  Either failure
/// is atomic: no partially built runtime remains.
#[derive(Clone, Debug)]
pub enum SetupError {
    Load { message: String },
    Instantiation { message: String },
}

/// A trap or error reported by the guest while one entry point ran.
#[derive(Clone, Debug)]
pub struct GuestTrap {
    pub message: String,
}

/// What one guest entry point did: the capability calls it issued, in issue
/// order, and whether it trapped.  Calls issued before a trap are kept: the
/// host still applies them, exactly as they landed before the trap.
#[derive(Debug)]
pub struct GuestRun {
    pub calls: Vec<HostCall>,
    pub trap: Option<GuestTrap>,
}

/// A guest instantiation, as driven by the runtime.  Implementations adapt
/// a concrete sandbox substrate: each entry point invokes the guest and
/// reports the capability calls the guest made.  The runtime assumes
/// nothing about an implementation; its guarantees hold for every one.
pub trait GuestComponent {
    /// Tears the live instance down and builds a fresh one from the
    /// original source, reporting the capability calls made while the new
    /// instance started up.
    fn reinstantiate(&mut self) -> Result<Vec<HostCall>, SetupError>;

    fn init(&mut self, size: LogicalSize) -> GuestRun;

    fn resize(&mut self, size: LogicalSize) -> GuestRun;

    fn pointer_down(&mut self, event: &PointerEvent) -> GuestRun;

    fn pointer_up(&mut self, event: &PointerEvent) -> GuestRun;

    fn pointer_move(&mut self, event: &PointerEvent) -> GuestRun;

    fn key_down(&mut self, event: &KeyEvent) -> GuestRun;

    fn key_up(&mut self, event: &KeyEvent) -> GuestRun;

    fn frame(&mut self, dt_ms: u32) -> GuestRun;
}

/// The result of a non-frame lifecycle call.
#[derive(Clone, Copy, Debug)]
pub struct CallResult {
    pub requested_redraw: bool,
}

/// The result of a frame call: the redraw hint and the frame output,
/// consumed once by the presentation layer.
#[derive(Debug)]
pub struct FrameResult {
    pub requested_redraw: bool,
    pub frame: FrameOutput,
}

/// A guest trapped or errored during a lifecycle call.  Recoverable: the
/// phase machine is back at rest and the instance stays usable, but the
/// attempted event's effects are void.
#[derive(Clone, Debug)]
pub struct GuestCallError {
    pub phase: Phase,
    pub message: String,
}

impl GuestCallError {
    /// A single diagnostic line naming the phase and the guest-reported
    /// cause.
    pub fn describe(&self) -> (r: String)
        ensures
            r@ == "guest call failed during "@ + self.phase.spec_name() + ": "@ + self.message@,
    {
        let mut s = String::from_str("guest call failed during ");
        s.append(self.phase.name());
        s.append(": ");
        s.append(self.message.as_str());
        s
    }
}

/// The lifecycle manager: the stored guest source, the live guest
/// instantiation and the host scratch state bound to it.
pub struct ComponentRuntime<G: GuestComponent> {
    source: ComponentSource,
    guest: G,
    host: HostCtx,
}

impl<G: GuestComponent> ComponentRuntime<G> {
    /// The abstract host state bound to the live instantiation.
    pub closed spec fn host_state(self) -> HostView {
        self.host@
    }

    /// The stored guest source.
    pub closed spec fn spec_source(self) -> ComponentSource {
        self.source
    }

    /// Between calls the runtime is at rest: phase `Idle`, frame output
    /// buffer empty, no pending redraw request, and the log ring within its
    /// capacity.
    pub open spec fn inv(self) -> bool {
        &&& self.host_state().wf()
        &&& (self.host_state().phase is Idle)
        &&& (self.host_state().frame.clear_color is None)
        &&& self.host_state().frame.commands.len() == 0
        &&& !self.host_state().redraw_requested
    }

    /// Binds a freshly instantiated guest to fresh host state.  The
    /// capability calls the guest made while starting up are applied at
    /// rest: logs land in the ring, drawing and redraw requests are
    /// dropped.
    pub fn new(source: ComponentSource, guest: G, startup_calls: Vec<HostCall>) -> (r:
        ComponentRuntime<G>)
        ensures
            r.inv(),
            r.spec_source() == source,
            r.host_state() == steps(HostView::initial(), startup_calls.deep_view()),
    {
        let mut r = ComponentRuntime { source, guest, host: HostCtx::new() };
        r.adopt_fresh_instance(&startup_calls);
        r
    }

    /// Discards the old instance state wholesale and adopts the state of a
    /// freshly started instance: everything is reset, then the capability
    /// calls made while the new instance started up are applied at rest —
    /// logs land in the fresh ring, drawing and redraw requests are
    /// dropped.
    pub fn adopt_fresh_instance(&mut self, startup_calls: &Vec<HostCall>)
        ensures
            final(self).spec_source() == old(self).spec_source(),
            final(self).host_state() == steps(HostView::initial(), startup_calls.deep_view()),
            final(self).inv(),
    {
        self.host = HostCtx::new();
        self.host.apply_calls(startup_calls);
        proof {
            lemma_steps_envelope(HostView::initial(), startup_calls.deep_view());
        }
    }

    /// Re-loads the guest from the stored source and re-instantiates it in
    /// place.  On success the old instance state — its drawing state and
    /// its diagnostic history — is discarded wholesale; on failure the old
    /// host state is left untouched.
    pub fn reload(&mut self) -> (r: Result<(), SetupError>)
        requires
            old(self).inv(),
        ensures
            final(self).inv(),
            final(self).spec_source() == old(self).spec_source(),
            (r is Err ==> final(self).host_state() == old(self).host_state()),
    {
        match self.guest.reinstantiate() {
            Ok(startup_calls) => {
                self.adopt_fresh_instance(&startup_calls);
                Ok(())
            },
            Err(e) => Err(e),
        }
    }

    /// Applies what a guest did during a non-frame call and closes the
    /// call: capability calls are applied under the phase gate, the sticky
    /// redraw flag is extracted, the phase machine exits to rest, and a
    /// trap is normalized into a [`GuestCallError`] naming the phase.
    /// Extraction and exit happen whether or not the guest trapped.
    pub fn conclude_event_call(&mut self, phase: Phase, run: GuestRun) -> (r: Result<
        CallResult,
        GuestCallError,
    >)
        requires
            old(self).host_state().wf(),
            old(self).host_state().phase == phase,
            !(phase is Frame),
        ensures
            final(self).spec_source() == old(self).spec_source(),
            final(self).host_state() == (HostView {
                phase: Phase::Idle,
                redraw_requested: false,
                ..steps(old(self).host_state(), run.calls.deep_view())
            }),
            final(self).host_state().wf(),
            (r is Ok <==> run.trap is None),
            (r matches Ok(c) ==> c.requested_redraw == steps(
                old(self).host_state(),
                run.calls.deep_view(),
            ).redraw_requested),
            (r matches Err(e) ==> e.phase == phase && (run.trap matches Some(t) && e.message
                == t.message)),
    {
        self.host.apply_calls(&run.calls);
        let requested = self.host.take_redraw_request();
        self.host.exit_phase();
        proof {
            assert(self.host@ =~~= (HostView {
                phase: Phase::Idle,
                redraw_requested: false,
                ..steps(old(self).host_state(), run.calls.deep_view())
            }));
        }
        match run.trap {
            None => Ok(CallResult { requested_redraw: requested }),
            Some(t) => Err(GuestCallError { phase, message: t.message }),
        }
    }

    /// Applies what a guest did during a frame call and closes the call:
    /// as [`Self::conclude_event_call`], and additionally the frame output
    /// is extracted, leaving the buffer empty.  On a trap the extracted
    /// frame is discarded as a unit: no partial frame ever reaches the
    /// caller.
    pub fn conclude_frame_call(&mut self, run: GuestRun) -> (r: Result<
        FrameResult,
        GuestCallError,
    >)
        requires
            old(self).host_state().wf(),
            (old(self).host_state().phase is Frame),
        ensures
            final(self).spec_source() == old(self).spec_source(),
            final(self).host_state() == (HostView {
                phase: Phase::Idle,
                frame: FrameView::empty(),
                redraw_requested: false,
                logs: steps(old(self).host_state(), run.calls.deep_view()).logs,
            }),
            final(self).host_state().wf(),
            (r is Ok <==> run.trap is None),
            (r matches Ok(f) ==> f.requested_redraw == steps(
                old(self).host_state(),
                run.calls.deep_view(),
            ).redraw_requested && f.frame@ == steps(
                old(self).host_state(),
                run.calls.deep_view(),
            ).frame),
            (r matches Err(e) ==> (e.phase is Frame) && (run.trap matches Some(t) && e.message
                == t.message)),
    {
        self.host.apply_calls(&run.calls);
        let requested = self.host.take_redraw_request();
        let frame = self.host.take_frame_output();
        self.host.exit_phase();
        proof {
            assert(self.host@ =~~= (HostView {
                phase: Phase::Idle,
                frame: FrameView::empty(),
                redraw_requested: false,
                logs: steps(old(self).host_state(), run.calls.deep_view()).logs,
            }));
        }
        match run.trap {
            None => Ok(FrameResult { requested_redraw: requested, frame }),
            Some(t) => Err(GuestCallError { phase: Phase::Frame, message: t.message }),
        }
    }

    /// Wraps the guest's `init` entry point in the `Init` phase.
    pub fn call_init(&mut self, size: LogicalSize) -> (r: Result<CallResult, GuestCallError>)
        requires
            old(self).inv(),
        ensures
            final(self).inv(),
            final(self).spec_source() == old(self).spec_source(),
            (r matches Err(e) ==> (e.phase is Init)),
    {
        self.host.enter_phase(Phase::Init);
        let run = self.guest.init(size);
        let ghost calls = run.calls.deep_view();
        let r = self.conclude_event_call(Phase::Init, run);
        proof {
            lemma_steps_envelope(enter_spec(old(self).host_state(), Phase::Init), calls);
        }
        r
    }

    /// Wraps the guest's `resize` entry point in the `Resize` phase.
    pub fn call_resize(&mut self, size: LogicalSize) -> (r: Result<CallResult, GuestCallError>)
        requires
            old(self).inv(),
        ensures
            final(self).inv(),
            final(self).spec_source() == old(self).spec_source(),
            (r matches Err(e) ==> (e.phase is Resize)),
    {
        self.host.enter_phase(Phase::Resize);
        let run = self.guest.resize(size);
        let ghost calls = run.calls.deep_view();
        let r = self.conclude_event_call(Phase::Resize, run);
        proof {
            lemma_steps_envelope(enter_spec(old(self).host_state(), Phase::Resize), calls);
        }
        r
    }

    /// Wraps the guest's `pointer-down` entry point in the `Event` phase.
    pub fn call_pointer_down(&mut self, event: &PointerEvent) -> (r: Result<
        CallResult,
        GuestCallError,
    >)
        requires
            old(self).inv(),
        ensures
            final(self).inv(),
            final(self).spec_source() == old(self).spec_source(),
            (r matches Err(e) ==> (e.phase is Event)),
    {
        self.host.enter_phase(Phase::Event);
        let run = self.guest.pointer_down(event);
        let ghost calls = run.calls.deep_view();
        let r = self.conclude_event_call(Phase::Event, run);
        proof {
            lemma_steps_envelope(enter_spec(old(self).host_state(), Phase::Event), calls);
        }
        r
    }

    /// Wraps the guest's `pointer-up` entry point in the `Event` phase.
    pub fn call_pointer_up(&mut self, event: &PointerEvent) -> (r: Result<
        CallResult,
        GuestCallError,
    >)
        requires
            old(self).inv(),
        ensures
            final(self).inv(),
            final(self).spec_source() == old(self).spec_source(),
            (r matches Err(e) ==> (e.phase is Event)),
    {
        self.host.enter_phase(Phase::Event);
        let run = self.guest.pointer_up(event);
        let ghost calls = run.calls.deep_view();
        let r = self.conclude_event_call(Phase::Event, run);
        proof {
            lemma_steps_envelope(enter_spec(old(self).host_state(), Phase::Event), calls);
        }
        r
    }

    /// Wraps the guest's `pointer-move` entry point in the `Event` phase.
    pub fn call_pointer_move(&mut self, event: &PointerEvent) -> (r: Result<
        CallResult,
        GuestCallError,
    >)
        requires
            old(self).inv(),
        ensures
            final(self).inv(),
            final(self).spec_source() == old(self).spec_source(),
            (r matches Err(e) ==> (e.phase is Event)),
    {
        self.host.enter_phase(Phase::Event);
        let run = self.guest.pointer_move(event);
        let ghost calls = run.calls.deep_view();
        let r = self.conclude_event_call(Phase::Event, run);
        proof {
            lemma_steps_envelope(enter_spec(old(self).host_state(), Phase::Event), calls);
        }
        r
    }

    /// Wraps the guest's `key-down` entry point in the `Event` phase.
    pub fn call_key_down(&mut self, event: &KeyEvent) -> (r: Result<CallResult, GuestCallError>)
        requires
            old(self).inv(),
        ensures
            final(self).inv(),
            final(self).spec_source() == old(self).spec_source(),
            (r matches Err(e) ==> (e.phase is Event)),
    {
        self.host.enter_phase(Phase::Event);
        let run = self.guest.key_down(event);
        let ghost calls = run.calls.deep_view();
        let r = self.conclude_event_call(Phase::Event, run);
        proof {
            lemma_steps_envelope(enter_spec(old(self).host_state(), Phase::Event), calls);
        }
        r
    }

    /// Wraps the guest's `key-up` entry point in the `Event` phase.
    pub fn call_key_up(&mut self, event: &KeyEvent) -> (r: Result<CallResult, GuestCallError>)
        requires
            old(self).inv(),
        ensures
            final(self).inv(),
            final(self).spec_source() == old(self).spec_source(),
            (r matches Err(e) ==> (e.phase is Event)),
    {
        self.host.enter_phase(Phase::Event);
        let run = self.guest.key_up(event);
        let ghost calls = run.calls.deep_view();
        let r = self.conclude_event_call(Phase::Event, run);
        proof {
            lemma_steps_envelope(enter_spec(old(self).host_state(), Phase::Event), calls);
        }
        r
    }

    /// Wraps the guest's `frame` entry point in the `Frame` phase.  The
    /// frame output buffer is reset on entry, so the returned frame holds
    /// what this call drew and nothing else.  A trap is returned as a
    /// [`GuestCallError`] naming the `Frame` phase, with the phase machine
    /// back at rest.
    pub fn call_frame(&mut self, dt_ms: u32) -> (r: Result<FrameResult, GuestCallError>)
        requires
            old(self).inv(),
        ensures
            final(self).inv(),
            final(self).spec_source() == old(self).spec_source(),
            (r matches Err(e) ==> (e.phase is Frame)),
    {
        self.host.enter_phase(Phase::Frame);
        let run = self.guest.frame(dt_ms);
        self.conclude_frame_call(run)
    }

    /// A read-only snapshot of the ring of recent guest log lines, oldest
    /// first; the ring itself is left untouched.
    pub fn recent_logs(&self) -> (r: Vec<String>)
        ensures
            r.deep_view() == self.host_state().logs,
    {
        self.host.recent_logs_snapshot()
    }
}

} // verus!

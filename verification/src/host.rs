//! The host capability surface and its phase state machine.
//!
//! A guest affects the host only through five capability operations: clear,
//! fill-rect, draw-text, request-redraw and log.  Each one is gated on the
//! lifecycle [`Phase`] that is active while the guest runs.  Drawing
//! operations are legal only during [`Phase::Frame`]; out-of-phase drawing is
//! dropped without faulting the guest.  `request-redraw` is legal in every
//! phase but [`Phase::Idle`].  `log` is never gated: it always appends a
//! formatted line to a bounded ring of recent guest log lines.
//!
//! The whole surface is modelled by one mathematical transition function,
//! [`step`], over the abstract host state [`HostView`].  Every executable
//! capability method is proved to agree with it exactly, and the properties
//! of the surface (out-of-phase drops, command ordering, ring bound, history
//! independence of a frame) are proved about [`step`] itself.

use vstd::prelude::*;
use vstd::string::*;

verus! {

/// Capacity of the ring of recent guest log lines; the oldest line is
/// evicted when a new line arrives at capacity.
pub const RECENT_LOG_LIMIT: usize = 16;

/// An RGBA colour.  Each channel holds the raw 32-bit encoding of the
/// caller's scalar channel value; the host never computes on channels.
#[derive(Clone, Copy, Debug, PartialEq, Eq, Structural)]
pub struct Color {
    pub r: u32,
    pub g: u32,
    pub b: u32,
    pub a: u32,
}

/// A point or extent in logical coordinates, each axis held as the raw
/// 32-bit encoding of the caller's scalar value.
#[derive(Clone, Copy, Debug, PartialEq, Eq, Structural)]
pub struct Vec2 {
    pub x: u32,
    pub y: u32,
}

/// The lifecycle phase active while a guest entry point runs.  `Idle` is the
/// rest state between calls; exactly one phase is active at any instant.
#[derive(Clone, Copy, Debug, PartialEq, Eq, Structural)]
pub enum Phase {
    Idle,
    Init,
    Resize,
    Event,
    Frame,
}

impl Phase {
    /// Drawing operations (clear, fill-rect, draw-text) are legal only
    /// during the frame phase.
    pub open spec fn spec_allows_draw(self) -> bool {
        self is Frame
    }

    #[verifier::when_used_as_spec(spec_allows_draw)]
    pub fn allows_draw(self) -> (r: bool)
        ensures
            r == self.spec_allows_draw(),
    {
        matches!(self, Phase::Frame)
    }

    /// A redraw may be requested during any call, but not at rest.
    pub open spec fn spec_allows_request_frame(self) -> bool {
        !(self is Idle)
    }

    #[verifier::when_used_as_spec(spec_allows_request_frame)]
    pub fn allows_request_frame(self) -> (r: bool)
        ensures
            r == self.spec_allows_request_frame(),
    {
        !matches!(self, Phase::Idle)
    }

    /// The phase's name, as used in diagnostics and errors.
    pub open spec fn spec_name(self) -> Seq<char> {
        match self {
            Phase::Idle => "Idle"@,
            Phase::Init => "Init"@,
            Phase::Resize => "Resize"@,
            Phase::Event => "Event"@,
            Phase::Frame => "Frame"@,
        }
    }

    pub fn name(self) -> (r: &'static str)
        ensures
            r@ == self.spec_name(),
    {
        match self {
            Phase::Idle => "Idle",
            Phase::Init => "Init",
            Phase::Resize => "Resize",
            Phase::Event => "Event",
            Phase::Frame => "Frame",
        }
    }
}

/// Severity of a guest log line.
#[derive(Clone, Copy, Debug, PartialEq, Eq, Structural)]
pub enum LogLevel {
    Trace,
    Debug,
    Info,
    Warn,
    Error,
}

/// The label under which a level appears in a formatted log line.
pub open spec fn spec_level_label(level: LogLevel) -> Seq<char> {
    match level {
        LogLevel::Trace => "TRACE"@,
        LogLevel::Debug => "DEBUG"@,
        LogLevel::Info => "INFO"@,
        LogLevel::Warn => "WARN"@,
        LogLevel::Error => "ERROR"@,
    }
}

pub fn level_label(level: LogLevel) -> (r: &'static str)
    ensures
        r@ == spec_level_label(level),
{
    match level {
        LogLevel::Trace => "TRACE",
        LogLevel::Debug => "DEBUG",
        LogLevel::Info => "INFO",
        LogLevel::Warn => "WARN",
        LogLevel::Error => "ERROR",
    }
}

/// How a guest log line is formatted before it enters the ring:
/// `[LABEL] message`.
pub open spec fn log_line(level: LogLevel, message: Seq<char>) -> Seq<char> {
    "["@ + spec_level_label(level) + "] "@ + message
}

/// Builds the formatted ring entry for one guest log call.
fn format_log_line(level: LogLevel, message: &str) -> (r: String)
    ensures
        r@ == log_line(level, message@),
{
    let mut line = String::from_str("[");
    line.append(level_label(level));
    line.append("] ");
    line.append(message);
    line
}

/// One drawing instruction issued by the guest during a frame.  Later
/// commands draw over earlier ones.
#[derive(Clone, Debug, PartialEq)]
pub enum DrawCommand {
    FillRect { origin: Vec2, size: Vec2, color: Color },
    DrawText { text: String, origin: Vec2, size: u32, color: Color },
}

/// Abstract value of a [`DrawCommand`], with text as a character sequence.
#[verifier::ext_equal]
pub enum CommandView {
    FillRect { origin: Vec2, size: Vec2, color: Color },
    DrawText { text: Seq<char>, origin: Vec2, size: u32, color: Color },
}

impl View for DrawCommand {
    type V = CommandView;

    open spec fn view(&self) -> CommandView {
        match self {
            DrawCommand::FillRect { origin, size, color } => CommandView::FillRect {
                origin: *origin,
                size: *size,
                color: *color,
            },
            DrawCommand::DrawText { text, origin, size, color } => CommandView::DrawText {
                text: text@,
                origin: *origin,
                size: *size,
                color: *color,
            },
        }
    }
}

impl DeepView for DrawCommand {
    type V = CommandView;

    open spec fn deep_view(&self) -> CommandView {
        self.view()
    }
}

/// The drawing result of one frame-phase call: an optional clear colour and
/// the ordered sequence of draw commands.
#[derive(Clone, Debug)]
pub struct FrameOutput {
    pub clear_color: Option<Color>,
    pub commands: Vec<DrawCommand>,
}

/// Abstract value of a [`FrameOutput`].
#[verifier::ext_equal]
pub struct FrameView {
    pub clear_color: Option<Color>,
    pub commands: Seq<CommandView>,
}

impl FrameView {
    /// The state of the frame buffer on entering the frame phase and after
    /// extraction.
    pub open spec fn empty() -> FrameView {
        FrameView { clear_color: None, commands: Seq::empty() }
    }
}

impl View for FrameOutput {
    type V = FrameView;

    open spec fn view(&self) -> FrameView {
        FrameView { clear_color: self.clear_color, commands: self.commands.deep_view() }
    }
}

/// One capability operation as issued by the guest, in issue order.
#[derive(Clone, Debug)]
pub enum HostCall {
    Clear { color: Color },
    FillRect { origin: Vec2, size: Vec2, color: Color },
    DrawText { text: String, origin: Vec2, size: u32, color: Color },
    RequestFrame,
    Log { level: LogLevel, message: String },
}

/// Abstract value of a [`HostCall`].
#[verifier::ext_equal]
pub enum CallView {
    Clear { color: Color },
    FillRect { origin: Vec2, size: Vec2, color: Color },
    DrawText { text: Seq<char>, origin: Vec2, size: u32, color: Color },
    RequestFrame,
    Log { level: LogLevel, message: Seq<char> },
}

impl View for HostCall {
    type V = CallView;

    open spec fn view(&self) -> CallView {
        match self {
            HostCall::Clear { color } => CallView::Clear { color: *color },
            HostCall::FillRect { origin, size, color } => CallView::FillRect {
                origin: *origin,
                size: *size,
                color: *color,
            },
            HostCall::DrawText { text, origin, size, color } => CallView::DrawText {
                text: text@,
                origin: *origin,
                size: *size,
                color: *color,
            },
            HostCall::RequestFrame => CallView::RequestFrame,
            HostCall::Log { level, message } => CallView::Log {
                level: *level,
                message: message@,
            },
        }
    }
}

impl DeepView for HostCall {
    type V = CallView;

    open spec fn deep_view(&self) -> CallView {
        self.view()
    }
}

/// What became of one capability call: applied, or dropped with a warning
/// because drawing was attempted outside the frame phase, or dropped quietly
/// because a redraw was requested at rest.  A dropped call is never surfaced
/// to the guest; the outcome only feeds the host's diagnostics.
#[derive(Clone, Copy, Debug, PartialEq, Eq, Structural)]
pub enum CapabilityOutcome {
    Applied,
    DroppedOutOfPhase,
    DroppedWhileIdle,
}

/// Abstract state of the host scratch context bound to one guest
/// instantiation.
#[verifier::ext_equal]
pub struct HostView {
    pub phase: Phase,
    pub frame: FrameView,
    pub redraw_requested: bool,
    pub logs: Seq<Seq<char>>,
}

impl HostView {
    /// The state a freshly created context is in.
    pub open spec fn initial() -> HostView {
        HostView {
            phase: Phase::Idle,
            frame: FrameView::empty(),
            redraw_requested: false,
            logs: Seq::empty(),
        }
    }

    /// Well-formedness: the ring of recent log lines never exceeds its
    /// capacity.
    pub open spec fn wf(self) -> bool {
        self.logs.len() <= RECENT_LOG_LIMIT
    }
}

/// Appending one line to the ring of recent log lines: at capacity the
/// oldest line is evicted first.
pub open spec fn push_log(logs: Seq<Seq<char>>, line: Seq<char>) -> Seq<Seq<char>> {
    if logs.len() >= RECENT_LOG_LIMIT {
        logs.drop_first().push(line)
    } else {
        logs.push(line)
    }
}

/// The transition function of the capability surface: the host state after
/// one capability call.  Drawing operations require the frame phase,
/// `RequestFrame` requires any phase but `Idle`, and `Log` is never gated; a
/// call whose gate fails leaves the state unchanged.
pub open spec fn step(h: HostView, c: CallView) -> HostView {
    match c {
        CallView::Clear { color } => if h.phase.spec_allows_draw() {
            HostView { frame: FrameView { clear_color: Some(color), ..h.frame }, ..h }
        } else {
            h
        },
        CallView::FillRect { origin, size, color } => if h.phase.spec_allows_draw() {
            HostView {
                frame: FrameView {
                    commands: h.frame.commands.push(
                        CommandView::FillRect { origin, size, color },
                    ),
                    ..h.frame
                },
                ..h
            }
        } else {
            h
        },
        CallView::DrawText { text, origin, size, color } => if h.phase.spec_allows_draw() {
            HostView {
                frame: FrameView {
                    commands: h.frame.commands.push(
                        CommandView::DrawText { text, origin, size, color },
                    ),
                    ..h.frame
                },
                ..h
            }
        } else {
            h
        },
        CallView::RequestFrame => if h.phase.spec_allows_request_frame() {
            HostView { redraw_requested: true, ..h }
        } else {
            h
        },
        CallView::Log { level, message } => HostView {
            logs: push_log(h.logs, log_line(level, message)),
            ..h
        },
    }
}

/// The diagnostic outcome of one capability call in a given state.
pub open spec fn step_outcome(h: HostView, c: CallView) -> CapabilityOutcome {
    match c {
        CallView::Clear { .. } | CallView::FillRect { .. } | CallView::DrawText { .. } => {
            if h.phase.spec_allows_draw() {
                CapabilityOutcome::Applied
            } else {
                CapabilityOutcome::DroppedOutOfPhase
            }
        },
        CallView::RequestFrame => if h.phase.spec_allows_request_frame() {
            CapabilityOutcome::Applied
        } else {
            CapabilityOutcome::DroppedWhileIdle
        },
        CallView::Log { .. } => CapabilityOutcome::Applied,
    }
}

/// The host state after a whole sequence of capability calls, applied in
/// issue order.
pub open spec fn steps(h: HostView, calls: Seq<CallView>) -> HostView
    decreases calls.len(),
{
    if calls.len() == 0 {
        h
    } else {
        steps(step(h, calls.first()), calls.drop_first())
    }
}

/// Entering a phase: entering the frame phase always resets the frame
/// buffer first.
pub open spec fn enter_spec(h: HostView, phase: Phase) -> HostView {
    HostView {
        phase,
        frame: if phase is Frame {
            FrameView::empty()
        } else {
            h.frame
        },
        ..h
    }
}

/// The host scratch state bound to one guest instantiation: the active
/// phase, the frame output buffer, the sticky redraw request and the ring of
/// recent guest log lines.
#[derive(Debug)]
pub struct HostCtx {
    phase: Phase,
    frame: FrameOutput,
    redraw_requested: bool,
    recent_logs: std::collections::VecDeque<String>,
}

impl View for HostCtx {
    type V = HostView;

    closed spec fn view(&self) -> HostView {
        HostView {
            phase: self.phase,
            frame: self.frame@,
            redraw_requested: self.redraw_requested,
            logs: self.recent_logs.deep_view(),
        }
    }
}

impl HostCtx {
    pub fn new() -> (r: HostCtx)
        ensures
            r@ == HostView::initial(),
    {
        let r = HostCtx {
            phase: Phase::Idle,
            frame: FrameOutput { clear_color: None, commands: Vec::new() },
            redraw_requested: false,
            recent_logs: std::collections::VecDeque::new(),
        };
        proof {
            assert(r@ =~~= HostView::initial());
        }
        r
    }

    /// Phase entry, driven by the invocation wrapper around each guest
    /// call; the guest has no way to reach it.
    pub fn enter_phase(&mut self, phase: Phase)
        ensures
            final(self)@ == enter_spec(old(self)@, phase),
    {
        if matches!(phase, Phase::Frame) {
            self.frame.clear_color = None;
            self.frame.commands.clear();
        }
        self.phase = phase;
        proof {
            assert(self@ =~~= enter_spec(old(self)@, phase));
        }
    }

    /// Phase exit: unconditionally back to rest.
    pub fn exit_phase(&mut self)
        ensures
            final(self)@ == (HostView { phase: Phase::Idle, ..old(self)@ }),
    {
        self.phase = Phase::Idle;
    }

    /// Hands the accumulated frame output over, leaving the buffer empty.
    pub fn take_frame_output(&mut self) -> (out: FrameOutput)
        ensures
            out@ == old(self)@.frame,
            final(self)@ == (HostView { frame: FrameView::empty(), ..old(self)@ }),
    {
        let mut commands: Vec<DrawCommand> = Vec::new();
        core::mem::swap(&mut commands, &mut self.frame.commands);
        let clear_color = self.frame.clear_color.take();
        proof {
            assert(self@ =~~= (HostView { frame: FrameView::empty(), ..old(self)@ }));
        }
        FrameOutput { clear_color, commands }
    }

    /// Consumes the sticky redraw request.
    pub fn take_redraw_request(&mut self) -> (requested: bool)
        ensures
            requested == old(self)@.redraw_requested,
            final(self)@ == (HostView { redraw_requested: false, ..old(self)@ }),
    {
        let requested = self.redraw_requested;
        self.redraw_requested = false;
        requested
    }

    /// A read-only snapshot of the ring of recent guest log lines, oldest
    /// first.
    pub fn recent_logs_snapshot(&self) -> (r: Vec<String>)
        ensures
            r.deep_view() == self@.logs,
    {
        let mut r: Vec<String> = Vec::new();
        let n = self.recent_logs.len();
        for i in 0..n
            invariant
                n == self.recent_logs.len(),
                r@.len() == i,
                forall|j: int| 0 <= j < i ==> r@[j]@ == self@.logs[j],
        {
            let line = self.recent_logs[i].clone();
            proof {
                assert(line@ == self@.logs[i as int]);
            }
            r.push(line);
        }
        proof {
            assert forall|j: int| 0 <= j < n implies r.deep_view()[j] == self@.logs[j] by {
                assert(r.deep_view()[j] == r@[j]@);
            }
            assert(r.deep_view() =~= self@.logs);
        }
        r
    }

    /// Appends one formatted line to the ring, evicting the oldest line
    /// when the ring is at capacity.
    fn record_guest_log(&mut self, level: LogLevel, message: &str)
        requires
            old(self)@.wf(),
        ensures
            final(self)@ == (HostView {
                logs: push_log(old(self)@.logs, log_line(level, message@)),
                ..old(self)@
            }),
            final(self)@.wf(),
    {
        let ghost logs0 = self@.logs;
        if self.recent_logs.len() == RECENT_LOG_LIMIT {
            let ghost pre = self.recent_logs;
            self.recent_logs.pop_front();
            proof {
                lemma_pop_front_deep_view(pre, self.recent_logs);
            }
        }
        let ghost pre = self.recent_logs;
        let line = format_log_line(level, message);
        self.recent_logs.push_back(line);
        proof {
            lemma_push_back_deep_view(pre, self.recent_logs, line);
            assert(self@ =~~= (HostView {
                logs: push_log(logs0, log_line(level, message@)),
                ..old(self)@
            }));
        }
    }

    /// Capability: overwrite the clear colour for the current frame.  Legal
    /// only during the frame phase; otherwise the call is dropped.
    pub fn clear(&mut self, color: Color) -> (outcome: CapabilityOutcome)
        ensures
            final(self)@ == step(old(self)@, CallView::Clear { color }),
            outcome == step_outcome(old(self)@, CallView::Clear { color }),
    {
        if self.phase.allows_draw() {
            self.frame.clear_color = Some(color);
            proof {
                assert(self@ =~~= step(old(self)@, CallView::Clear { color }));
            }
            CapabilityOutcome::Applied
        } else {
            CapabilityOutcome::DroppedOutOfPhase
        }
    }

    /// Capability: append a rectangle-fill command to the frame output.
    /// Legal only during the frame phase; otherwise the call is dropped.
    pub fn fill_rect(&mut self, origin: Vec2, size: Vec2, color: Color) -> (outcome:
        CapabilityOutcome)
        ensures
            final(self)@ == step(old(self)@, CallView::FillRect { origin, size, color }),
            outcome == step_outcome(old(self)@, CallView::FillRect { origin, size, color }),
    {
        if self.phase.allows_draw() {
            let ghost pre = self.frame.commands;
            self.frame.commands.push(DrawCommand::FillRect { origin, size, color });
            proof {
                lemma_push_deep_view(pre, self.frame.commands, DrawCommand::FillRect {
                    origin,
                    size,
                    color,
                });
                assert(self@ =~~= step(old(self)@, CallView::FillRect { origin, size, color }));
            }
            CapabilityOutcome::Applied
        } else {
            CapabilityOutcome::DroppedOutOfPhase
        }
    }

    /// Capability: append a text-draw command to the frame output.  Legal
    /// only during the frame phase; otherwise the call is dropped.
    pub fn draw_text(&mut self, text: String, origin: Vec2, size: u32, color: Color) -> (outcome:
        CapabilityOutcome)
        ensures
            final(self)@ == step(old(self)@, CallView::DrawText { text: text@, origin, size, color }),
            outcome == step_outcome(
                old(self)@,
                CallView::DrawText { text: text@, origin, size, color },
            ),
    {
        if self.phase.allows_draw() {
            let ghost pre = self.frame.commands;
            let ghost t = text@;
            self.frame.commands.push(DrawCommand::DrawText { text, origin, size, color });
            proof {
                lemma_push_deep_view(pre, self.frame.commands, DrawCommand::DrawText {
                    text,
                    origin,
                    size,
                    color,
                });
                assert(self@ =~~= step(old(self)@, CallView::DrawText { text: t, origin, size, color }));
            }
            CapabilityOutcome::Applied
        } else {
            CapabilityOutcome::DroppedOutOfPhase
        }
    }

    /// Capability: set the sticky redraw request.  Legal during any call;
    /// at rest the request is dropped quietly.
    pub fn request_frame(&mut self) -> (outcome: CapabilityOutcome)
        ensures
            final(self)@ == step(old(self)@, CallView::RequestFrame),
            outcome == step_outcome(old(self)@, CallView::RequestFrame),
    {
        if self.phase.allows_request_frame() {
            self.redraw_requested = true;
            proof {
                assert(self@ =~~= step(old(self)@, CallView::RequestFrame));
            }
            CapabilityOutcome::Applied
        } else {
            CapabilityOutcome::DroppedWhileIdle
        }
    }

    /// Capability: record one guest log line.  Never gated: the line enters
    /// the ring in every phase.
    pub fn log(&mut self, level: LogLevel, message: &str) -> (outcome: CapabilityOutcome)
        requires
            old(self)@.wf(),
        ensures
            final(self)@ == step(old(self)@, CallView::Log { level, message: message@ }),
            outcome == step_outcome(old(self)@, CallView::Log { level, message: message@ }),
    {
        self.record_guest_log(level, message);
        CapabilityOutcome::Applied
    }

    /// Dispatches one recorded capability call to its operation.
    pub fn apply_call(&mut self, call: &HostCall) -> (outcome: CapabilityOutcome)
        requires
            old(self)@.wf(),
        ensures
            final(self)@ == step(old(self)@, call.deep_view()),
            outcome == step_outcome(old(self)@, call.deep_view()),
            final(self)@.wf(),
    {
        proof {
            lemma_step_preserves_wf(self@, call.deep_view());
        }
        match call {
            HostCall::Clear { color } => self.clear(*color),
            HostCall::FillRect { origin, size, color } => self.fill_rect(*origin, *size, *color),
            HostCall::DrawText { text, origin, size, color } => {
                let t = text.clone();
                self.draw_text(t, *origin, *size, *color)
            },
            HostCall::RequestFrame => self.request_frame(),
            HostCall::Log { level, message } => self.log(*level, message.as_str()),
        }
    }

    /// Applies a whole sequence of capability calls in issue order, exactly
    /// as the guest issued them.
    pub fn apply_calls(&mut self, calls: &Vec<HostCall>)
        requires
            old(self)@.wf(),
        ensures
            final(self)@ == steps(old(self)@, calls.deep_view()),
            final(self)@.wf(),
    {
        let ghost orig = self@;
        let n = calls.len();
        for i in 0..n
            invariant
                n == calls@.len(),
                orig.wf(),
                self@ == steps(orig, calls.deep_view().take(i as int)),
                self@.wf(),
        {
            proof {
                assert(calls.deep_view().take(i + 1) =~= calls.deep_view().take(i as int).push(
                    calls.deep_view()[i as int],
                ));
                lemma_steps_push(orig, calls.deep_view().take(i as int), calls.deep_view()[i as int]);
            }
            self.apply_call(&calls[i]);
        }
        proof {
            assert(calls.deep_view().take(n as int) =~= calls.deep_view());
        }
    }
}

/// The deep view of a vector after a push is the old deep view with the
/// pushed element's view appended.
proof fn lemma_push_deep_view<T: DeepView>(v1: Vec<T>, v2: Vec<T>, x: T)
    requires
        v2@ == v1@.push(x),
    ensures
        v2.deep_view() =~= v1.deep_view().push(x.deep_view()),
{
    assert forall|j: int|
        0 <= j < v2@.len() implies v2.deep_view()[j] == v1.deep_view().push(x.deep_view())[j] by {
        if j < v1@.len() {
            assert(v2@[j] == v1@[j]);
        } else {
            assert(v2@[j] == x);
        }
    }
}

/// The same relation for appending at the back of a deque.
proof fn lemma_push_back_deep_view<T: DeepView>(
    v1: std::collections::VecDeque<T>,
    v2: std::collections::VecDeque<T>,
    x: T,
)
    requires
        v2@ == v1@.push(x),
    ensures
        v2.deep_view() =~= v1.deep_view().push(x.deep_view()),
{
    assert forall|j: int|
        0 <= j < v2@.len() implies v2.deep_view()[j] == v1.deep_view().push(x.deep_view())[j] by {
        if j < v1@.len() {
            assert(v2@[j] == v1@[j]);
        } else {
            assert(v2@[j] == x);
        }
    }
}

/// Removing the front of a deque drops the first element of its deep view.
proof fn lemma_pop_front_deep_view<T: DeepView>(
    v1: std::collections::VecDeque<T>,
    v2: std::collections::VecDeque<T>,
)
    requires
        v1@.len() > 0,
        v2@ == v1@.subrange(1, v1@.len() as int),
    ensures
        v2.deep_view() =~= v1.deep_view().drop_first(),
{
    assert forall|j: int|
        0 <= j < v2@.len() implies v2.deep_view()[j] == v1.deep_view().drop_first()[j] by {
        assert(v2@[j] == v1@[j + 1]);
    }
}

/// One capability call keeps the ring of recent log lines within its
/// capacity.
pub proof fn lemma_step_preserves_wf(h: HostView, c: CallView)
    requires
        h.wf(),
    ensures
        step(h, c).wf(),
{
}

/// Applying a recorded call sequence one call at a time agrees with
/// applying it as a whole.
pub proof fn lemma_steps_push(h: HostView, s: Seq<CallView>, c: CallView)
    ensures
        steps(h, s.push(c)) == step(steps(h, s), c),
    decreases s.len(),
{
    if s.len() == 0 {
        assert(s.push(c).first() == c);
        assert(s.push(c).drop_first() =~= s);
        assert(steps(h, s.push(c)) == steps(step(h, c), s));
        assert(steps(step(h, c), s) == step(h, c));
        assert(steps(h, s) == h);
    } else {
        assert(s.push(c).first() == s.first());
        assert(s.push(c).drop_first() =~= s.drop_first().push(c));
        assert(steps(h, s.push(c)) == steps(step(h, s.first()), s.drop_first().push(c)));
        assert(steps(h, s) == steps(step(h, s.first()), s.drop_first()));
        lemma_steps_push(step(h, s.first()), s.drop_first(), c);
    }
}

/// A whole call sequence keeps the ring of recent log lines within its
/// capacity.
pub proof fn lemma_steps_preserve_wf(h: HostView, calls: Seq<CallView>)
    requires
        h.wf(),
    ensures
        steps(h, calls).wf(),
    decreases calls.len(),
{
    if calls.len() > 0 {
        lemma_step_preserves_wf(h, calls.first());
        lemma_steps_preserve_wf(step(h, calls.first()), calls.drop_first());
    }
}

/// A drawing operation issued outside the frame phase has no effect on any
/// host state and yields exactly one out-of-phase diagnostic.
pub proof fn lemma_out_of_phase_draw_dropped(h: HostView, c: CallView)
    requires
        !(h.phase is Frame),
        (c is Clear || c is FillRect || c is DrawText),
    ensures
        step(h, c) == h,
        (step_outcome(h, c) is DroppedOutOfPhase),
{
}

/// Draw command ordering is stable: a rectangle fill followed by a text
/// draw within one frame-phase call lands in the frame output in exactly
/// that order, after whatever was already buffered.
pub proof fn lemma_draw_order_stable(
    h: HostView,
    origin1: Vec2,
    size1: Vec2,
    color1: Color,
    text: Seq<char>,
    origin2: Vec2,
    size2: u32,
    color2: Color,
)
    requires
        h.phase is Frame,
    ensures
        steps(
            h,
            seq![
                CallView::FillRect { origin: origin1, size: size1, color: color1 },
                CallView::DrawText { text, origin: origin2, size: size2, color: color2 },
            ],
        ).frame.commands == h.frame.commands.push(
            CommandView::FillRect { origin: origin1, size: size1, color: color1 },
        ).push(CommandView::DrawText { text, origin: origin2, size: size2, color: color2 }),
{
    let c1 = CallView::FillRect { origin: origin1, size: size1, color: color1 };
    let c2 = CallView::DrawText { text, origin: origin2, size: size2, color: color2 };
    let s = seq![c1, c2];
    assert(s.first() == c1);
    assert(s.drop_first() =~= seq![c2]);
    assert(steps(h, s) == steps(step(h, c1), seq![c2]));
    assert(seq![c2].first() == c2);
    assert(seq![c2].drop_first() =~= Seq::<CallView>::empty());
    assert(steps(step(h, c1), seq![c2]) == steps(step(step(h, c1), c2), Seq::<CallView>::empty()));
    assert(steps(step(step(h, c1), c2), Seq::<CallView>::empty()) == step(step(h, c1), c2));
}

/// A redraw request during any call sets the sticky flag and changes
/// nothing else; a redraw request at rest has no effect at all.
pub proof fn lemma_request_frame_gating(h: HostView)
    ensures
        !(h.phase is Idle) ==> step(h, CallView::RequestFrame) == (HostView {
            redraw_requested: true,
            ..h
        }),
        h.phase is Idle ==> step(h, CallView::RequestFrame) == h,
        h.phase is Idle ==> (step_outcome(h, CallView::RequestFrame) is DroppedWhileIdle),
{
}

/// A log call is never gated: in every phase it appends its formatted line
/// to the ring and touches nothing else.  The ring never exceeds its
/// capacity: a line pushed at capacity evicts the oldest line, and a line
/// pushed below capacity evicts nothing.
pub proof fn lemma_log_ring_eviction(h: HostView, level: LogLevel, message: Seq<char>)
    requires
        h.wf(),
    ensures
        (step_outcome(h, CallView::Log { level, message }) is Applied),
        step(h, CallView::Log { level, message }) == (HostView {
            logs: push_log(h.logs, log_line(level, message)),
            ..h
        }),
        step(h, CallView::Log { level, message }).logs.len() <= RECENT_LOG_LIMIT,
        h.logs.len() == RECENT_LOG_LIMIT ==> step(h, CallView::Log { level, message }).logs
            == h.logs.drop_first().push(log_line(level, message)),
        h.logs.len() < RECENT_LOG_LIMIT ==> step(h, CallView::Log { level, message }).logs
            == h.logs.push(log_line(level, message)),
{
}

/// Capability calls never change the active phase; outside the frame phase
/// they never touch the frame buffer; and at rest they never set the redraw
/// flag.
pub proof fn lemma_steps_envelope(h: HostView, calls: Seq<CallView>)
    ensures
        steps(h, calls).phase == h.phase,
        !(h.phase is Frame) ==> steps(h, calls).frame == h.frame,
        h.phase is Idle ==> steps(h, calls).redraw_requested == h.redraw_requested,
    decreases calls.len(),
{
    if calls.len() > 0 {
        lemma_steps_envelope(step(h, calls.first()), calls.drop_first());
    }
}

/// The frame state reached by a call sequence depends only on the starting
/// phase and starting frame buffer, never on the rest of the host state.
proof fn lemma_frame_depends_only_on_phase_and_buffer(
    h1: HostView,
    h2: HostView,
    calls: Seq<CallView>,
)
    requires
        h1.phase == h2.phase,
        h1.frame == h2.frame,
    ensures
        steps(h1, calls).phase == steps(h2, calls).phase,
        steps(h1, calls).frame == steps(h2, calls).frame,
    decreases calls.len(),
{
    if calls.len() > 0 {
        lemma_frame_depends_only_on_phase_and_buffer(
            step(h1, calls.first()),
            step(h2, calls.first()),
            calls.drop_first(),
        );
    }
}

/// The frame output buffer is reset on entering the frame phase, so the
/// frame state produced by a frame-phase call is a function of the calls
/// the guest issues during it alone: no earlier history — not even the
/// previous frame's contents — can reach it.
pub proof fn lemma_frame_output_history_independent(
    h1: HostView,
    h2: HostView,
    calls: Seq<CallView>,
)
    ensures
        steps(enter_spec(h1, Phase::Frame), calls).frame == steps(
            enter_spec(h2, Phase::Frame),
            calls,
        ).frame,
{
    lemma_frame_depends_only_on_phase_and_buffer(
        enter_spec(h1, Phase::Frame),
        enter_spec(h2, Phase::Frame),
        calls,
    );
}

} // verus!

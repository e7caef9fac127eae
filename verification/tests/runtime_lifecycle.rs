use frontier_wasm_host::host::{Color, DrawCommand, HostCall, LogLevel, Phase, Vec2};
use frontier_wasm_host::model::{KeyEvent, LogicalSize, Modifiers, PointerButtons, PointerEvent, PointerKind};
use frontier_wasm_host::runtime::{
    ComponentRuntime, ComponentSource, GuestComponent, GuestRun, GuestTrap, SetupError,
};

fn color_of(r: f32, g: f32, b: f32, a: f32) -> Color {
    Color { r: r.to_bits(), g: g.to_bits(), b: b.to_bits(), a: a.to_bits() }
}

fn point_of(x: f32, y: f32) -> Vec2 {
    Vec2 { x: x.to_bits(), y: y.to_bits() }
}

fn size_of(width: f32, height: f32, scale_factor: f32) -> LogicalSize {
    LogicalSize {
        width: width.to_bits(),
        height: height.to_bits(),
        scale_factor: scale_factor.to_bits(),
    }
}

fn pointer_event_at(x: f32, y: f32) -> PointerEvent {
    PointerEvent {
        kind: PointerKind::Mouse,
        position: [x.to_bits(), y.to_bits()],
        buttons: PointerButtons { primary: false, secondary: false },
        modifiers: Modifiers { shift: false, ctrl: false, alt: false, meta: false },
        pointer_id: 0,
    }
}

fn key_event_for(key: &str) -> KeyEvent {
    KeyEvent {
        key: String::from(key),
        code: String::from(key),
        modifiers: Modifiers { shift: false, ctrl: false, alt: false, meta: false },
        is_repeat: false,
    }
}

/// A guest driven by fixed scripts: each entry point replays its script and
/// optionally traps.  `reinstantiate` can be made to fail.
struct ScriptedGuest {
    init_script: Vec<HostCall>,
    init_trap: Option<String>,
    event_script: Vec<HostCall>,
    frame_script: Vec<HostCall>,
    frame_trap: Option<String>,
    frame_traps_once: bool,
    reinstantiate_error: Option<SetupError>,
}

impl ScriptedGuest {
    fn quiet() -> ScriptedGuest {
        ScriptedGuest {
            init_script: Vec::new(),
            init_trap: None,
            event_script: Vec::new(),
            frame_script: Vec::new(),
            frame_trap: None,
            frame_traps_once: false,
            reinstantiate_error: None,
        }
    }

    fn run(calls: &[HostCall], trap: &Option<String>) -> GuestRun {
        GuestRun {
            calls: calls.to_vec(),
            trap: trap.as_ref().map(|message| GuestTrap { message: message.clone() }),
        }
    }
}

impl GuestComponent for ScriptedGuest {
    fn reinstantiate(&mut self) -> Result<Vec<HostCall>, SetupError> {
        match self.reinstantiate_error.take() {
            Some(err) => Err(err),
            None => Ok(Vec::new()),
        }
    }

    fn init(&mut self, _size: LogicalSize) -> GuestRun {
        Self::run(&self.init_script, &self.init_trap)
    }

    fn resize(&mut self, _size: LogicalSize) -> GuestRun {
        Self::run(&self.event_script, &None)
    }

    fn pointer_down(&mut self, _event: &PointerEvent) -> GuestRun {
        Self::run(&self.event_script, &None)
    }

    fn pointer_up(&mut self, _event: &PointerEvent) -> GuestRun {
        Self::run(&self.event_script, &None)
    }

    fn pointer_move(&mut self, _event: &PointerEvent) -> GuestRun {
        Self::run(&self.event_script, &None)
    }

    fn key_down(&mut self, _event: &KeyEvent) -> GuestRun {
        Self::run(&self.event_script, &None)
    }

    fn key_up(&mut self, _event: &KeyEvent) -> GuestRun {
        Self::run(&self.event_script, &None)
    }

    fn frame(&mut self, _dt_ms: u32) -> GuestRun {
        let run = Self::run(&self.frame_script, &self.frame_trap);
        if self.frame_traps_once {
            self.frame_trap = None;
            self.frame_traps_once = false;
        }
        run
    }
}

fn counter_like_guest() -> ScriptedGuest {
    let mut guest = ScriptedGuest::quiet();
    guest.init_script = vec![HostCall::RequestFrame];
    guest.frame_script = vec![
        HostCall::Clear { color: color_of(0.09, 0.1, 0.12, 1.0) },
        HostCall::FillRect {
            origin: point_of(48.0, 48.0),
            size: point_of(704.0, 504.0),
            color: color_of(0.12, 0.14, 0.18, 1.0),
        },
        HostCall::DrawText {
            text: String::from("0"),
            origin: point_of(400.0, 300.0),
            size: 48.0f32.to_bits(),
            color: color_of(0.92, 0.94, 0.98, 1.0),
        },
    ];
    guest
}

fn demo_source() -> ComponentSource {
    ComponentSource::from_path(String::from("target/wasm32-wasip1/debug/counter_component.wasm"))
}

#[test]
fn counter_component_lifecycle() {
    let source = demo_source();
    let mut runtime = ComponentRuntime::new(source, counter_like_guest(), Vec::new());

    let init = runtime
        .call_init(size_of(800.0, 600.0, 1.0))
        .expect("call init");
    assert!(init.requested_redraw, "guest should request redraw on init");

    let frame = runtime.call_frame(16.0f32.to_bits()).expect("call frame");
    assert!(
        !frame.frame.commands.is_empty(),
        "frame should contain drawing commands"
    );
}

#[test]
fn init_redraw_and_exact_frame_output() {
    // A guest whose init handler requests a redraw and whose frame handler
    // clears to black, fills one rectangle and draws one text.
    let mut guest = ScriptedGuest::quiet();
    guest.init_script = vec![HostCall::RequestFrame];
    guest.frame_script = vec![
        HostCall::Clear { color: color_of(0.0, 0.0, 0.0, 1.0) },
        HostCall::FillRect {
            origin: point_of(10.0, 10.0),
            size: point_of(5.0, 5.0),
            color: color_of(1.0, 1.0, 1.0, 1.0),
        },
        HostCall::DrawText {
            text: String::from("hi"),
            origin: point_of(0.0, 0.0),
            size: 12.0f32.to_bits(),
            color: color_of(1.0, 1.0, 1.0, 1.0),
        },
    ];
    let mut runtime = ComponentRuntime::new(demo_source(), guest, Vec::new());

    let init = runtime.call_init(size_of(800.0, 600.0, 1.0)).unwrap();
    assert!(init.requested_redraw);

    let frame = runtime.call_frame(16.0f32.to_bits()).unwrap();
    assert_eq!(frame.frame.clear_color, Some(color_of(0.0, 0.0, 0.0, 1.0)));
    assert_eq!(
        frame.frame.commands,
        vec![
            DrawCommand::FillRect {
                origin: point_of(10.0, 10.0),
                size: point_of(5.0, 5.0),
                color: color_of(1.0, 1.0, 1.0, 1.0),
            },
            DrawCommand::DrawText {
                text: String::from("hi"),
                origin: point_of(0.0, 0.0),
                size: 12.0f32.to_bits(),
                color: color_of(1.0, 1.0, 1.0, 1.0),
            },
        ]
    );
}

#[test]
fn out_of_phase_draw_in_init_is_dropped_not_deferred() {
    // A guest that calls fill-rect inside its init handler, i.e. in the
    // wrong phase: init succeeds and a later frame with no frame-phase
    // drawing stays empty.
    let mut guest = ScriptedGuest::quiet();
    guest.init_script = vec![HostCall::FillRect {
        origin: point_of(10.0, 10.0),
        size: point_of(5.0, 5.0),
        color: color_of(1.0, 1.0, 1.0, 1.0),
    }];
    let mut runtime = ComponentRuntime::new(demo_source(), guest, Vec::new());

    let init = runtime.call_init(size_of(800.0, 600.0, 1.0)).unwrap();
    assert!(!init.requested_redraw);

    let frame = runtime.call_frame(16.0f32.to_bits()).unwrap();
    assert!(frame.frame.clear_color.is_none());
    assert!(frame.frame.commands.is_empty());
}

#[test]
fn trap_during_frame_is_recoverable() {
    let mut guest = counter_like_guest();
    guest.frame_trap = Some(String::from("boom"));
    guest.frame_traps_once = true;
    let mut runtime = ComponentRuntime::new(demo_source(), guest, Vec::new());

    runtime.call_init(size_of(800.0, 600.0, 1.0)).unwrap();

    let err = runtime.call_frame(16.0f32.to_bits()).unwrap_err();
    assert_eq!(err.phase, Phase::Frame);
    assert_eq!(err.message, String::from("boom"));
    assert_eq!(
        err.describe(),
        String::from("guest call failed during Frame: boom")
    );

    // The phase machine is back at rest: subsequent calls succeed, and the
    // partial draws of the trapped frame were discarded as a unit.
    let init = runtime.call_init(size_of(800.0, 600.0, 1.0)).unwrap();
    assert!(init.requested_redraw);
    let frame = runtime.call_frame(16.0f32.to_bits()).unwrap();
    assert_eq!(frame.frame.commands.len(), 2);
}

#[test]
fn trap_during_init_names_the_init_phase() {
    let mut guest = ScriptedGuest::quiet();
    guest.init_trap = Some(String::from("bad handler"));
    let mut runtime = ComponentRuntime::new(demo_source(), guest, Vec::new());

    let err = runtime.call_init(size_of(800.0, 600.0, 1.0)).unwrap_err();
    assert_eq!(err.phase, Phase::Init);
    assert_eq!(err.message, String::from("bad handler"));
}

#[test]
fn logs_survive_a_trap_but_draws_do_not() {
    let mut guest = ScriptedGuest::quiet();
    guest.frame_script = vec![
        HostCall::FillRect {
            origin: point_of(0.0, 0.0),
            size: point_of(1.0, 1.0),
            color: color_of(1.0, 1.0, 1.0, 1.0),
        },
        HostCall::Log { level: LogLevel::Error, message: String::from("about to trap") },
    ];
    guest.frame_trap = Some(String::from("trapped"));
    guest.frame_traps_once = true;
    let mut runtime = ComponentRuntime::new(demo_source(), guest, Vec::new());

    runtime.call_frame(16.0f32.to_bits()).unwrap_err();
    assert_eq!(runtime.recent_logs(), vec![String::from("[ERROR] about to trap")]);

    // The draws issued before the trap never reach a later frame.
    let frame = runtime.call_frame(16.0f32.to_bits()).unwrap();
    assert_eq!(frame.frame.commands.len(), 1);
}

#[test]
fn reload_discards_drawing_state_and_logs() {
    let mut guest = counter_like_guest();
    guest.frame_script.push(HostCall::Log {
        level: LogLevel::Info,
        message: String::from("drew a frame"),
    });
    let mut runtime = ComponentRuntime::new(demo_source(), guest, Vec::new());

    runtime.call_init(size_of(800.0, 600.0, 1.0)).unwrap();
    let frame = runtime.call_frame(16.0f32.to_bits()).unwrap();
    assert!(!frame.frame.commands.is_empty());
    assert!(!runtime.recent_logs().is_empty());

    runtime.reload().expect("reload");
    assert!(runtime.recent_logs().is_empty());

    // The first frame after a reload starts from an empty buffer; the
    // reloaded guest still draws its own commands afresh.
    let frame = runtime.call_frame(16.0f32.to_bits()).unwrap();
    assert_eq!(frame.frame.commands.len(), 2);
}

#[test]
fn failed_reload_keeps_the_old_state() {
    let mut guest = counter_like_guest();
    guest.reinstantiate_error = Some(SetupError::Load {
        message: String::from("component bytes unreadable"),
    });
    let mut runtime = ComponentRuntime::new(demo_source(), guest, Vec::new());

    runtime.call_init(size_of(800.0, 600.0, 1.0)).unwrap();
    runtime
        .call_frame(16.0f32.to_bits())
        .unwrap()
        .frame
        .commands
        .iter()
        .for_each(|_| {});

    let err = runtime.reload().unwrap_err();
    assert!(matches!(err, SetupError::Load { .. }));

    // The runtime stays usable with the old instance.
    let frame = runtime.call_frame(16.0f32.to_bits()).unwrap();
    assert_eq!(frame.frame.commands.len(), 2);
}

#[test]
fn reload_can_fail_with_instantiation_error() {
    let mut guest = ScriptedGuest::quiet();
    guest.reinstantiate_error = Some(SetupError::Instantiation {
        message: String::from("missing capability import"),
    });
    let mut runtime = ComponentRuntime::new(demo_source(), guest, Vec::new());

    let err = runtime.reload().unwrap_err();
    match err {
        SetupError::Instantiation { message } => {
            assert_eq!(message, String::from("missing capability import"));
        }
        SetupError::Load { .. } => panic!("wrong error variant"),
    }
}

#[test]
fn startup_calls_are_applied_at_rest() {
    // Capability calls made while the instance starts up run at rest:
    // logging lands in the ring, drawing and redraw requests are dropped.
    let startup = vec![
        HostCall::Log { level: LogLevel::Debug, message: String::from("guest starting") },
        HostCall::FillRect {
            origin: point_of(0.0, 0.0),
            size: point_of(1.0, 1.0),
            color: color_of(1.0, 1.0, 1.0, 1.0),
        },
        HostCall::RequestFrame,
    ];
    let mut runtime = ComponentRuntime::new(demo_source(), ScriptedGuest::quiet(), startup);

    assert_eq!(runtime.recent_logs(), vec![String::from("[DEBUG] guest starting")]);
    let init = runtime.call_init(size_of(800.0, 600.0, 1.0)).unwrap();
    assert!(!init.requested_redraw);
    let frame = runtime.call_frame(16.0f32.to_bits()).unwrap();
    assert!(frame.frame.commands.is_empty());
}

#[test]
fn event_calls_run_and_consume_no_redraw() {
    let mut runtime = ComponentRuntime::new(demo_source(), ScriptedGuest::quiet(), Vec::new());

    assert!(!runtime.call_resize(size_of(640.0, 480.0, 1.0)).unwrap().requested_redraw);
    assert!(!runtime.call_pointer_down(&pointer_event_at(5.0, 5.0)).unwrap().requested_redraw);
    assert!(!runtime.call_pointer_up(&pointer_event_at(5.0, 5.0)).unwrap().requested_redraw);
    assert!(!runtime.call_pointer_move(&pointer_event_at(6.0, 6.0)).unwrap().requested_redraw);
    assert!(!runtime.call_key_down(&key_event_for("+")).unwrap().requested_redraw);
    assert!(!runtime.call_key_up(&key_event_for("+")).unwrap().requested_redraw);
}

#[test]
fn event_calls_can_request_redraw() {
    let mut guest = ScriptedGuest::quiet();
    guest.event_script = vec![HostCall::RequestFrame];
    let mut runtime = ComponentRuntime::new(demo_source(), guest, Vec::new());

    assert!(runtime.call_pointer_move(&pointer_event_at(1.0, 1.0)).unwrap().requested_redraw);
    assert!(runtime.call_key_down(&key_event_for("-")).unwrap().requested_redraw);
    // The flag is consumed once per call, never carried over.
    let mut quiet = ComponentRuntime::new(demo_source(), ScriptedGuest::quiet(), Vec::new());
    assert!(!quiet.call_key_up(&key_event_for("-")).unwrap().requested_redraw);
}

#[test]
fn component_source_constructors_keep_their_input() {
    match ComponentSource::from_path(String::from("guest.wasm")) {
        ComponentSource::Path { path } => assert_eq!(path, String::from("guest.wasm")),
        ComponentSource::Embedded { .. } => panic!("wrong variant"),
    }
    match ComponentSource::embedded("demo", &[0x00, 0x61, 0x73, 0x6d]) {
        ComponentSource::Embedded { bytes, label } => {
            assert_eq!(bytes, vec![0x00, 0x61, 0x73, 0x6d]);
            assert_eq!(label, String::from("demo"));
        }
        ComponentSource::Path { .. } => panic!("wrong variant"),
    }
}

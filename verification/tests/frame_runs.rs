use scripthost::driver::CallEvent;
use scripthost::driver::Driver;
use scripthost::driver::FrameOutcome;
use scripthost::driver::Phase;
use scripthost::registry::CommandError;
use scripthost::registry::CommandKind;
use scripthost::registry::ScriptValue;

fn text(s: &str) -> ScriptValue {
    ScriptValue::Text(String::from(s))
}

#[test]
fn compile_error_emits_nothing() {
    let mut d = Driver::new(100);
    let _h = d.begin_frame();
    let o = d.compile_failed(String::from("syntax error at line 1"));
    assert!(matches!(o, FrameOutcome::CompileError(ref m) if m == "syntax error at line 1"));
    assert_eq!(d.emitted_commands().len(), 0);
    assert_eq!(d.phase, Phase::Idle);
}

#[test]
fn n_labels_in_order_no_buttons() {
    let mut d = Driver::new(100);
    let h = d.begin_frame();
    d.compiled();
    let texts = ["a", "b", "c", "d", "e"];
    for t in texts.iter() {
        let r = d.command(CommandKind::Label, &ScriptValue::Handle(h), &text(t));
        assert_eq!(r, Ok(String::from(*t)));
    }
    let emitted = d.emitted_commands();
    assert_eq!(emitted.len(), texts.len());
    for (i, t) in texts.iter().enumerate() {
        assert_eq!(emitted[i].kind, CommandKind::Label);
        assert_eq!(emitted[i].text, *t);
    }
    assert!(emitted.iter().all(|c| c.kind != CommandKind::Button));
}

#[test]
fn button_with_integer_argument_is_refused() {
    let mut d = Driver::new(100);
    let h = d.begin_frame();
    d.compiled();
    let r = d.command(CommandKind::Button, &ScriptValue::Handle(h), &ScriptValue::Integer(42));
    assert_eq!(r, Err(CommandError::ArgumentType));
    assert_eq!(d.phase, Phase::Aborted);
    assert_eq!(d.emitted_commands().len(), 0);
    let o = d.runtime_failed(String::from("Expected a string for the button label"));
    assert!(matches!(o, FrameOutcome::RuntimeError(_)));
    // the failure is confined to its frame: the next frame runs normally
    let h2 = d.begin_frame();
    d.compiled();
    let r2 = d.command(CommandKind::Label, &ScriptValue::Handle(h2), &text("fine"));
    assert_eq!(r2, Ok(String::from("fine")));
    let o2 = d.complete(String::from("ok"));
    assert!(matches!(o2, FrameOutcome::Completed(_)));
}

#[test]
fn stashed_handle_fails_in_later_frame() {
    let mut d = Driver::new(100);
    // frame K: the adversarial script stashes its handle in a global
    let stashed = d.begin_frame();
    d.compiled();
    let r = d.command(CommandKind::Label, &ScriptValue::Handle(stashed), &text("k"));
    assert!(r.is_ok());
    let _ = d.complete(String::from("ok"));
    // frame K+1: the stashed handle must not resolve
    let _fresh = d.begin_frame();
    d.compiled();
    let r2 = d.command(CommandKind::Label, &ScriptValue::Handle(stashed), &text("late"));
    assert_eq!(r2, Err(CommandError::InvalidHandle));
    assert_eq!(d.emitted_commands().len(), 0);
    assert_eq!(d.phase, Phase::Aborted);
}

#[test]
fn same_script_same_emissions_each_frame() {
    let mut d = Driver::new(100);
    let mut traces: Vec<Vec<(CommandKind, String)>> = Vec::new();
    for _ in 0..3 {
        let h = d.begin_frame();
        d.compiled();
        // the same source produces the same calls, against the current handle
        let calls = vec![
            CallEvent { kind: CommandKind::Label, v0: ScriptValue::Handle(h), v1: text("hi") },
            CallEvent { kind: CommandKind::Button, v0: ScriptValue::Handle(h), v1: text("go") },
        ];
        let r = d.run_calls(&calls);
        assert!(r.is_ok());
        traces.push(
            d.emitted_commands().iter().map(|c| (c.kind, c.text.clone())).collect(),
        );
        let _ = d.complete(String::from("ok"));
    }
    assert_eq!(traces[0], traces[1]);
    assert_eq!(traces[1], traces[2]);
}

#[test]
fn end_to_end_label_then_button() {
    let mut d = Driver::new(100);
    let h = d.begin_frame();
    d.compiled();
    let r1 = d.command(CommandKind::Label, &ScriptValue::Handle(h), &text("hi"));
    assert_eq!(r1, Ok(String::from("hi")));
    let r2 = d.command(CommandKind::Button, &ScriptValue::Handle(h), &text("go"));
    assert_eq!(r2, Ok(String::from("go")));
    let o = d.complete(String::from("Lua code executed successfully!"));
    assert!(matches!(o, FrameOutcome::Completed(ref m) if m == "Lua code executed successfully!"));
    let emitted = d.emitted_commands();
    assert_eq!(emitted.len(), 2);
    assert_eq!(emitted[0].kind, CommandKind::Label);
    assert_eq!(emitted[0].text, "hi");
    assert_eq!(emitted[1].kind, CommandKind::Button);
    assert_eq!(emitted[1].text, "go");
}

#[test]
fn run_stops_at_first_refusal() {
    let mut d = Driver::new(100);
    let h = d.begin_frame();
    d.compiled();
    let calls = vec![
        CallEvent { kind: CommandKind::Label, v0: ScriptValue::Handle(h), v1: text("kept") },
        CallEvent { kind: CommandKind::Label, v0: ScriptValue::Handle(h), v1: ScriptValue::Nil },
        CallEvent { kind: CommandKind::Label, v0: ScriptValue::Handle(h), v1: text("never") },
    ];
    let r = d.run_calls(&calls);
    assert_eq!(r, Err(CommandError::ArgumentType));
    assert_eq!(d.phase, Phase::Aborted);
    let emitted = d.emitted_commands();
    assert_eq!(emitted.len(), 1);
    assert_eq!(emitted[0].text, "kept");
}

#[test]
fn non_handle_first_argument_is_a_type_error() {
    let mut d = Driver::new(100);
    let _h = d.begin_frame();
    d.compiled();
    for v0 in [ScriptValue::Nil, ScriptValue::Boolean(true), ScriptValue::Integer(7), text("lui"), ScriptValue::Opaque] {
        let mut fresh = Driver::new(100);
        let _ = fresh.begin_frame();
        fresh.compiled();
        let r = fresh.command(CommandKind::Label, &v0, &text("x"));
        assert_eq!(r, Err(CommandError::ArgumentType));
    }
}

#[test]
fn budget_exhaustion_aborts_the_frame() {
    let mut d = Driver::new(2);
    let _h = d.begin_frame();
    d.compiled();
    assert!(d.consume_step());
    assert!(d.consume_step());
    assert!(!d.consume_step());
    assert_eq!(d.phase, Phase::Aborted);
    let o = d.runtime_failed(String::from("execution budget exceeded"));
    assert!(matches!(o, FrameOutcome::RuntimeError(ref m) if m == "execution budget exceeded"));
    // next frame starts fresh
    let _ = d.begin_frame();
    d.compiled();
    assert!(d.consume_step());
}

use shotflow::flow::{
    flow_decision, flow_prompt, flow_step, parse_delay, parse_u64, run_interactive, FlowState,
    PromptEvent,
};
use shotflow::options::{CaptureKind, ImageFormat, SaveHow};
use shotflow::orchestrator::{
    outcome_result, take, take_action, take_init, take_plan, take_step, TakeAction, TakeEvent,
    TakeOutcome, TakeState,
};
use shotflow::FlowError;
use shotflow::prompt::{menu_args, menu_input};
use shotflow::filename::Timestamp;

fn chosen(s: &str) -> PromptEvent {
    PromptEvent::Chosen(s.to_string())
}

#[test]
fn number_parsing_is_exact() {
    assert_eq!(parse_u64("123"), Some(123));
    assert_eq!(parse_u64("0"), Some(0));
    assert_eq!(parse_u64("007"), Some(7));
    assert_eq!(parse_u64("+5"), Some(5));
    assert_eq!(parse_u64(""), None);
    assert_eq!(parse_u64("+"), None);
    assert_eq!(parse_u64("abc"), None);
    assert_eq!(parse_u64("12a"), None);
    assert_eq!(parse_u64("-3"), None);
    assert_eq!(parse_u64("18446744073709551615"), Some(u64::MAX));
    assert_eq!(parse_u64("18446744073709551616"), None);
}

#[test]
fn delay_parsing_strips_suffix_and_defaults_to_five() {
    assert_eq!(parse_delay("5s"), 5);
    assert_eq!(parse_delay("10s"), 10);
    assert_eq!(parse_delay("60s"), 60);
    assert_eq!(parse_delay("30"), 30);
    assert_eq!(parse_delay("10ss"), 10);
    assert_eq!(parse_delay("junk"), 5);
    assert_eq!(parse_delay(""), 5);
    assert_eq!(parse_delay("s"), 5);
}

#[test]
fn menu_input_preserves_order() {
    let opts = vec!["Immediate".to_string(), "Delayed".to_string()];
    assert_eq!(menu_input(&opts), "Immediate\nDelayed");
    assert_eq!(menu_input(&vec!["one".to_string()]), "one");
    assert_eq!(menu_input(&vec![]), "");
}

#[test]
fn menu_args_with_and_without_config() {
    let base = menu_args("How to save", None);
    assert_eq!(base, vec!["-dmenu", "-i", "-no-show-icons", "-p", "How to save"]);
    let with_cfg = menu_args("How to save", Some("/etc/rofi.rasi"));
    assert_eq!(
        with_cfg,
        vec!["-dmenu", "-i", "-no-show-icons", "-p", "How to save", "-config", "/etc/rofi.rasi"]
    );
}

#[test]
fn interactive_flow_immediate_path() {
    let events = vec![chosen("Immediate"), chosen("Capture Everything"), chosen("Copy")];
    assert_eq!(
        run_interactive(&events),
        FlowState::Done { delay: 0, kind: CaptureKind::Screen, how: SaveHow::Copy }
    );
}

#[test]
fn interactive_flow_delayed_path() {
    let events = vec![
        chosen("Delayed"),
        chosen("20s"),
        chosen("Capture Selection"),
        chosen("Edit"),
    ];
    assert_eq!(
        run_interactive(&events),
        FlowState::Done { delay: 20, kind: CaptureKind::Area, how: SaveHow::Edit }
    );
}

#[test]
fn interactive_flow_unparsable_timer_defaults_to_five() {
    let events = vec![
        chosen("Delayed"),
        chosen("soon"),
        chosen("Capture Active Display"),
        chosen("Copy & Save"),
    ];
    assert_eq!(
        run_interactive(&events),
        FlowState::Done { delay: 5, kind: CaptureKind::Output, how: SaveHow::Copysave }
    );
}

#[test]
fn cancellation_at_each_step_aborts_the_flow() {
    assert_eq!(run_interactive(&vec![PromptEvent::Cancelled]), FlowState::Cancelled);
    assert_eq!(
        run_interactive(&vec![chosen("Delayed"), PromptEvent::Cancelled]),
        FlowState::Cancelled
    );
    assert_eq!(
        run_interactive(&vec![chosen("Immediate"), PromptEvent::Cancelled]),
        FlowState::Cancelled
    );
    assert_eq!(
        run_interactive(&vec![
            chosen("Delayed"),
            chosen("10s"),
            chosen("Capture Everything"),
            PromptEvent::Cancelled,
        ]),
        FlowState::Cancelled
    );
    // A cancelled flow prompts nothing further: no capture can start.
    assert_eq!(flow_prompt(&FlowState::Cancelled), None);
}

#[test]
fn flow_prompts_in_fixed_order() {
    let (title, opts) = flow_prompt(&FlowState::AskTiming).unwrap();
    assert_eq!(title, "Take screenshot");
    assert_eq!(opts, vec!["Immediate", "Delayed"]);
    let (title, opts) = flow_prompt(&FlowState::AskDelay).unwrap();
    assert_eq!(title, "Choose timer");
    assert_eq!(opts, vec!["5s", "10s", "20s", "30s", "60s"]);
    let (title, opts) = flow_prompt(&FlowState::AskKind { delay: 0 }).unwrap();
    assert_eq!(title, "Type of screenshot");
    assert_eq!(opts, vec!["Capture Everything", "Capture Active Display", "Capture Selection"]);
    let (title, opts) = flow_prompt(
        &FlowState::AskHow { delay: 0, kind: CaptureKind::Screen },
    ).unwrap();
    assert_eq!(title, "How to save");
    assert_eq!(opts, vec!["Copy", "Save", "Copy & Save", "Edit"]);
    assert_eq!(
        flow_prompt(&FlowState::Done { delay: 0, kind: CaptureKind::Screen, how: SaveHow::Copy }),
        None
    );
}

#[test]
fn flow_timing_answer_routes_to_timer_or_region() {
    assert_eq!(flow_step(FlowState::AskTiming, &chosen("Delayed")), FlowState::AskDelay);
    assert_eq!(
        flow_step(FlowState::AskTiming, &chosen("Immediate")),
        FlowState::AskKind { delay: 0 }
    );
    assert_eq!(
        flow_step(FlowState::AskTiming, &chosen("whatever")),
        FlowState::AskKind { delay: 0 }
    );
}

#[test]
fn flow_decision_maps_terminal_states_to_the_error_taxonomy() {
    let done = FlowState::Done { delay: 5, kind: CaptureKind::Area, how: SaveHow::Edit };
    assert!(matches!(
        flow_decision(&done),
        Some(Ok((5, CaptureKind::Area, SaveHow::Edit)))
    ));
    assert!(matches!(
        flow_decision(&FlowState::Cancelled),
        Some(Err(FlowError::PromptCancelled))
    ));
    assert!(flow_decision(&FlowState::AskTiming).is_none());
    assert!(flow_decision(&FlowState::AskDelay).is_none());
}

#[test]
fn outcome_result_maps_failures_to_the_error_taxonomy() {
    assert!(matches!(outcome_result(TakeOutcome::Saved), Ok(true)));
    assert!(matches!(outcome_result(TakeOutcome::NoFile), Ok(false)));
    assert!(matches!(
        outcome_result(TakeOutcome::CaptureFailed),
        Err(FlowError::CaptureError)
    ));
    assert!(matches!(
        outcome_result(TakeOutcome::RelocationFailed),
        Err(FlowError::RelocationError)
    ));
}

#[test]
fn plan_reuses_one_filename_for_both_paths() {
    let t = Timestamp { year: 2026, month: 10, day: 12, hour: 9, minute: 5, second: 7 };
    let plan = take_plan(
        CaptureKind::Area,
        SaveHow::Copysave,
        "/shots",
        ImageFormat::Jpg,
        "/home/u",
        &t,
    );
    assert_eq!(plan.filename, "screenshot_12102026_090507.jpg");
    assert_eq!(plan.tmp_path, "/home/u/screenshot_12102026_090507.jpg");
    assert_eq!(plan.dest_path, "/shots/screenshot_12102026_090507.jpg");
    assert!(plan.tmp_path.ends_with(&plan.filename));
    assert!(plan.dest_path.ends_with(&plan.filename));
    assert_eq!(plan.args, vec!["--notify", "copysave", "area", "/home/u/screenshot_12102026_090507.jpg"]);
    assert!(plan.want_freeze);
    let plan2 = take_plan(
        CaptureKind::Screen,
        SaveHow::Save,
        "/shots",
        ImageFormat::Png,
        "/home/u",
        &t,
    );
    assert!(!plan2.want_freeze);
    assert_eq!(plan2.args[1], "save");
    assert_eq!(plan2.args[2], "screen");
}

#[test]
fn orchestration_happy_path_with_freeze() {
    let mut st = take_init(true, true);
    assert_eq!(st, TakeState::Freeze);
    assert_eq!(take_action(&st), Some(TakeAction::SpawnFreeze));
    st = take_step(st, TakeEvent::Froze(true));
    assert_eq!(take_action(&st), Some(TakeAction::RunProvider));
    st = take_step(st, TakeEvent::Captured(true));
    assert_eq!(take_action(&st), Some(TakeAction::KillFreeze));
    st = take_step(st, TakeEvent::Killed);
    assert_eq!(take_action(&st), Some(TakeAction::ProbeTmp));
    st = take_step(st, TakeEvent::Probed(true));
    assert_eq!(take_action(&st), Some(TakeAction::TryRename));
    st = take_step(st, TakeEvent::Renamed(true));
    assert_eq!(take_action(&st), Some(TakeAction::NotifySaved));
    st = take_step(st, TakeEvent::Notified);
    assert_eq!(st, TakeState::Done { outcome: TakeOutcome::Saved });
    assert_eq!(take_action(&st), None);
}

#[test]
fn freeze_helper_is_killed_even_when_capture_fails() {
    let mut st = take_init(true, true);
    st = take_step(st, TakeEvent::Froze(true));
    st = take_step(st, TakeEvent::Captured(false));
    // The teardown comes before the failure is reported.
    assert_eq!(st, TakeState::Teardown { success: false });
    assert_eq!(take_action(&st), Some(TakeAction::KillFreeze));
    st = take_step(st, TakeEvent::Killed);
    // No relocation, no notification: the run is over.
    assert_eq!(st, TakeState::Done { outcome: TakeOutcome::CaptureFailed });
    assert_eq!(take_action(&st), None);
}

#[test]
fn capture_failure_without_freeze_fails_directly() {
    let mut st = take_init(false, true);
    assert_eq!(st, TakeState::Capture { froze: false });
    st = take_step(st, TakeEvent::Captured(false));
    assert_eq!(st, TakeState::Done { outcome: TakeOutcome::CaptureFailed });
}

#[test]
fn missing_file_after_success_is_silent() {
    let mut st = take_init(false, false);
    st = take_step(st, TakeEvent::Captured(true));
    assert_eq!(take_action(&st), Some(TakeAction::ProbeTmp));
    st = take_step(st, TakeEvent::Probed(false));
    // Not an error, and no notification action follows.
    assert_eq!(st, TakeState::Done { outcome: TakeOutcome::NoFile });
    assert_eq!(take_action(&st), None);
}

#[test]
fn copy_fallback_tolerates_failed_delete() {
    let mut st = TakeState::Place;
    st = take_step(st, TakeEvent::Renamed(false));
    assert_eq!(take_action(&st), Some(TakeAction::TryCopy));
    st = take_step(st, TakeEvent::Copied(true));
    assert_eq!(take_action(&st), Some(TakeAction::DeleteTmp));
    st = take_step(st, TakeEvent::Deleted(false));
    assert_eq!(take_action(&st), Some(TakeAction::NotifySaved));
    st = take_step(st, TakeEvent::Notified);
    assert_eq!(st, TakeState::Done { outcome: TakeOutcome::Saved });
}

#[test]
fn both_relocation_strategies_failing_is_fatal() {
    let mut st = TakeState::Place;
    st = take_step(st, TakeEvent::Renamed(false));
    st = take_step(st, TakeEvent::Copied(false));
    assert_eq!(st, TakeState::Done { outcome: TakeOutcome::RelocationFailed });
}

#[test]
fn replayed_invocation_builds_plan_and_outcome() {
    let events = vec![
        TakeEvent::Captured(true),
        TakeEvent::Probed(true),
        TakeEvent::Renamed(true),
        TakeEvent::Notified,
    ];
    let (plan, st) = take(
        CaptureKind::Screen,
        SaveHow::Save,
        "/shots",
        ImageFormat::Png,
        "/home/u",
        false,
        &events,
    );
    assert_eq!(st, TakeState::Done { outcome: TakeOutcome::Saved });
    assert!(plan.filename.starts_with("screenshot_"));
    assert!(plan.filename.ends_with(".png"));
    assert_eq!(plan.tmp_path, format!("/home/u/{}", plan.filename));
    assert_eq!(plan.dest_path, format!("/shots/{}", plan.filename));
    assert!(!plan.want_freeze);
}

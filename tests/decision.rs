use btwd::decision::{handle_transcript, Decision, DecisionConfig};
use btwd::executor::{ExecStatus, Executor, RoutedIntent};

fn routed(id: Option<&str>, score: Option<u32>, dangerous: bool) -> RoutedIntent {
    RoutedIntent {
        command_id: id.map(|s| s.to_string()),
        parameters: serde_json::Value::Null,
        deterministic_score: score,
        dangerous,
    }
}

fn no_route() -> RoutedIntent {
    routed(None, None, false)
}

fn cfg(search_enabled: bool) -> DecisionConfig {
    DecisionConfig { deterministic_threshold: 800, search_enabled }
}

#[test]
fn scenario_lights_off_executes_immediately() {
    let mut exec = Executor::new(10_000);
    let d = handle_transcript(
        "turn off the lights",
        &mut exec,
        routed(Some("lights_off"), Some(920), false),
        &cfg(true),
        0,
    );
    assert!(matches!(d, Decision::Command(ExecStatus::Executed(i))
        if i.command_id.as_deref() == Some("lights_off")));
    assert!(!exec.has_pending());
}

#[test]
fn scenario_delete_files_confirmed_after_ignored_reply() {
    let mut exec = Executor::new(10_000);
    let d = handle_transcript(
        "delete all files",
        &mut exec,
        routed(Some("delete_files"), Some(950), true),
        &cfg(true),
        0,
    );
    let id = match d {
        Decision::Command(ExecStatus::AwaitingConfirmation(id)) => id,
        _ => panic!("expected a pending confirmation"),
    };
    // anything else while pending is ignored
    let d = handle_transcript("banana", &mut exec, no_route(), &cfg(true), 1);
    assert!(matches!(d, Decision::Ignored));
    assert_eq!(exec.pending_request_id(), Some(id));
    // even a confident command does not interrupt the pending one
    let d = handle_transcript(
        "turn off the lights",
        &mut exec,
        routed(Some("lights_off"), Some(990), false),
        &cfg(true),
        2,
    );
    assert!(matches!(d, Decision::Ignored));
    assert_eq!(exec.pending_request_id(), Some(id));
    let d = handle_transcript("Yes.", &mut exec, no_route(), &cfg(true), 3);
    assert!(matches!(d, Decision::Confirmation(ExecStatus::Executed(i))
        if i.command_id.as_deref() == Some("delete_files")));
    assert!(!exec.has_pending());
}

#[test]
fn negative_reply_cancels_pending() {
    let mut exec = Executor::new(10_000);
    handle_transcript("rm", &mut exec, routed(Some("rm"), Some(900), true), &cfg(false), 0);
    let d = handle_transcript("  STOP!", &mut exec, no_route(), &cfg(false), 1);
    assert!(matches!(d, Decision::Confirmation(ExecStatus::Canceled(_))));
    assert!(!exec.has_pending());
}

#[test]
fn low_score_is_a_question_even_with_a_command() {
    let mut exec = Executor::new(10_000);
    let d = handle_transcript(
        " what is the capital of france ",
        &mut exec,
        routed(Some("lights_off"), Some(799), true),
        &cfg(true),
        0,
    );
    assert!(matches!(d, Decision::SearchQuestion(q) if q == "what is the capital of france"));
    assert!(!exec.has_pending());
}

#[test]
fn missing_score_counts_as_zero() {
    let mut exec = Executor::new(10_000);
    let d = handle_transcript("open mail", &mut exec, routed(Some("mail"), None, false), &cfg(false), 0);
    assert!(matches!(d, Decision::DirectQuestion(q) if q == "open mail"));
}

#[test]
fn score_at_threshold_is_accepted() {
    let mut exec = Executor::new(10_000);
    let d = handle_transcript("mail", &mut exec, routed(Some("mail"), Some(800), false), &cfg(false), 0);
    assert!(matches!(d, Decision::Command(ExecStatus::Executed(_))));
}

#[test]
fn no_command_goes_to_question_paths() {
    let mut exec = Executor::new(10_000);
    let d = handle_transcript("who are you", &mut exec, no_route(), &cfg(false), 0);
    assert!(matches!(d, Decision::DirectQuestion(q) if q == "who are you"));
    let d = handle_transcript("   ", &mut exec, no_route(), &cfg(true), 0);
    assert!(matches!(d, Decision::Empty));
}

use btwd::executor::{ExecStatus, Executor, RoutedIntent};

fn intent(id: &str, dangerous: bool) -> RoutedIntent {
    RoutedIntent {
        command_id: Some(id.to_string()),
        parameters: serde_json::Value::Null,
        deterministic_score: Some(950),
        dangerous,
    }
}

#[test]
fn harmless_command_executes_at_once() {
    let mut exec = Executor::new(10_000);
    let st = exec.handle_intent(intent("lights_off", false), 0);
    assert!(matches!(st, ExecStatus::Executed(i) if i.command_id.as_deref() == Some("lights_off")));
    assert!(!exec.has_pending());
}

#[test]
fn dangerous_command_waits_then_confirm_executes() {
    let mut exec = Executor::new(10_000);
    let st = exec.handle_intent(intent("delete_files", true), 100);
    let id = match st {
        ExecStatus::AwaitingConfirmation(id) => id,
        _ => panic!("expected a pending confirmation"),
    };
    assert_eq!(exec.pending_request_id(), Some(id));
    let st = exec.confirm_pending();
    assert!(matches!(st, ExecStatus::Executed(i) if i.command_id.as_deref() == Some("delete_files")));
    assert!(!exec.has_pending());
    assert!(matches!(exec.confirm_pending(), ExecStatus::NothingPending));
}

#[test]
fn second_dangerous_command_is_rejected() {
    let mut exec = Executor::new(10_000);
    let first = exec.handle_intent(intent("a", true), 0);
    let id = match first {
        ExecStatus::AwaitingConfirmation(id) => id,
        _ => panic!("expected a pending confirmation"),
    };
    let second = exec.handle_intent(intent("b", true), 5);
    assert!(matches!(second, ExecStatus::AlreadyPending(x) if x == id));
    assert_eq!(exec.pending_request_id(), Some(id));
    assert!(matches!(exec.confirm_pending(), ExecStatus::Executed(i) if i.command_id.as_deref() == Some("a")));
}

#[test]
fn fresh_ids_for_successive_confirmations() {
    let mut exec = Executor::new(10_000);
    let a = match exec.handle_intent(intent("a", true), 0) {
        ExecStatus::AwaitingConfirmation(id) => id,
        _ => panic!(),
    };
    exec.cancel_pending();
    let b = match exec.handle_intent(intent("b", true), 0) {
        ExecStatus::AwaitingConfirmation(id) => id,
        _ => panic!(),
    };
    assert_ne!(a, b);
}

#[test]
fn tick_expires_at_deadline_without_executing() {
    let mut exec = Executor::new(5_000);
    exec.handle_intent(intent("a", true), 1_000);
    assert!(matches!(exec.handle_tick(5_999), ExecStatus::StillPending(_)));
    assert!(exec.has_pending());
    assert!(matches!(exec.handle_tick(6_000), ExecStatus::Expired(_)));
    assert!(!exec.has_pending());
    assert!(matches!(exec.handle_tick(7_000), ExecStatus::NothingPending));
}

#[test]
fn cancel_discards_without_executing() {
    let mut exec = Executor::new(5_000);
    exec.handle_intent(intent("a", true), 0);
    assert!(matches!(exec.cancel_pending(), ExecStatus::Canceled(_)));
    assert!(!exec.has_pending());
    assert!(matches!(exec.cancel_pending(), ExecStatus::NothingPending));
}

#[test]
fn confirmation_text_sets() {
    for word in ["yes", "confirm", "do it"] {
        let mut exec = Executor::new(5_000);
        exec.handle_intent(intent("a", true), 0);
        assert!(matches!(exec.handle_confirmation_text(word), ExecStatus::Executed(_)));
    }
    for word in ["no", "cancel", "stop"] {
        let mut exec = Executor::new(5_000);
        exec.handle_intent(intent("a", true), 0);
        assert!(matches!(exec.handle_confirmation_text(word), ExecStatus::Canceled(_)));
    }
    let mut exec = Executor::new(5_000);
    exec.handle_intent(intent("a", true), 0);
    assert!(matches!(exec.handle_confirmation_text("maybe"), ExecStatus::StillPending(_)));
    assert!(exec.has_pending());
}

#[test]
fn channel_tokens_are_trimmed_and_case_folded() {
    let mut exec = Executor::new(5_000);
    exec.handle_intent(intent("a", true), 0);
    assert!(matches!(exec.handle_channel_token("  maybe\n"), ExecStatus::StillPending(_)));
    assert!(matches!(exec.handle_channel_token(" YES\n"), ExecStatus::Executed(_)));
    let mut exec = Executor::new(5_000);
    exec.handle_intent(intent("a", true), 0);
    assert!(matches!(exec.handle_channel_token("No"), ExecStatus::Canceled(_)));
    assert!(!exec.has_pending());
}

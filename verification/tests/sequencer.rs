use forge_bootstrap::sequencer::{Action, DATABASE_URL, FATAL_MESSAGE};

fn due(outcomes: &[bool]) -> Action {
    let mut action = Action::first();
    for outcome in outcomes {
        action = action.next(*outcome);
    }
    action
}

#[test]
fn database_url_names_the_sqlite_file() {
    assert_eq!(DATABASE_URL, "sqlite:forge.db");
}

#[test]
fn fatal_message_is_fixed() {
    assert_eq!(FATAL_MESSAGE, "error while running tauri application");
}

#[test]
fn start_up_begins_with_the_database() {
    assert_eq!(Action::first(), Action::RegisterDatabase);
}

#[test]
fn successful_start_up_is_linear() {
    assert_eq!(Action::RegisterDatabase.next(true), Action::RegisterLogging);
    assert_eq!(Action::RegisterLogging.next(true), Action::RunShell);
    assert_eq!(Action::RunShell.next(true), Action::Exit);
    assert_eq!(due(&[true, true, true]), Action::Exit);
}

#[test]
fn database_comes_before_logging_and_logging_before_the_shell() {
    assert_eq!(due(&[]), Action::RegisterDatabase);
    assert_eq!(due(&[true]), Action::RegisterLogging);
    assert_eq!(due(&[true, true]), Action::RunShell);
}

#[test]
fn shell_failure_aborts() {
    assert_eq!(Action::RunShell.next(false), Action::Abort);
    assert_eq!(due(&[true, true, false]), Action::Abort);
}

#[test]
fn registration_failure_aborts() {
    assert_eq!(Action::RegisterDatabase.next(false), Action::Abort);
    assert_eq!(Action::RegisterLogging.next(false), Action::Abort);
    assert_eq!(due(&[false]), Action::Abort);
    assert_eq!(due(&[true, false]), Action::Abort);
}

#[test]
fn nothing_follows_the_abort() {
    assert_eq!(Action::Abort.next(true), Action::Abort);
    assert_eq!(Action::Abort.next(false), Action::Abort);
    assert_eq!(due(&[false, true, true, true]), Action::Abort);
}

#[test]
fn nothing_follows_the_exit() {
    assert_eq!(Action::Exit.next(true), Action::Exit);
    assert_eq!(Action::Exit.next(false), Action::Exit);
    assert_eq!(due(&[true, true, true, false]), Action::Exit);
}

#[test]
fn only_exit_and_abort_are_terminal() {
    assert!(Action::Exit.terminal());
    assert!(Action::Abort.terminal());
    assert!(!Action::RegisterDatabase.terminal());
    assert!(!Action::RegisterLogging.terminal());
    assert!(!Action::RunShell.terminal());
}

#[test]
fn start_up_ends_after_three_reports() {
    for a in [true, false] {
        for b in [true, false] {
            for c in [true, false] {
                assert!(due(&[a, b, c]).terminal());
            }
        }
    }
}

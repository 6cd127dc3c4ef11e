use frontend::launch::{exit_status, fatal_message, launch_outcome, Launch};

#[test]
fn failed_host_terminates_with_nonzero_status() {
    let l = launch_outcome(false);
    assert_eq!(l, Launch::Terminate);
    assert!(l.is_fatal());
    assert_eq!(exit_status(l), 101);
    assert_ne!(exit_status(l), 0);
}

#[test]
fn running_host_completes() {
    let l = launch_outcome(true);
    assert_eq!(l, Launch::Completed);
    assert!(!l.is_fatal());
    assert_eq!(exit_status(l), 0);
}

#[test]
fn fatal_message_text() {
    assert_eq!(fatal_message(), "error while running tauri application");
}

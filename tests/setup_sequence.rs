use frontend::setup::{
    main_window_label, missing_window_warning, setup_actions, Action, Event, Phase, Setup,
};

#[test]
fn release_build_registers_nothing() {
    for plugin_ok in [false, true] {
        for window_found in [false, true] {
            let actions = setup_actions(false, plugin_ok, window_found);
            assert_eq!(actions, vec![Action::Succeed]);
            assert!(!actions.contains(&Action::RegisterLogPlugin));
            assert!(!actions.contains(&Action::OpenDevtools));
        }
    }
}

#[test]
fn debug_build_with_window_opens_devtools_once() {
    let actions = setup_actions(true, true, true);
    assert_eq!(
        actions,
        vec![
            Action::RegisterLogPlugin,
            Action::LookUpWindow,
            Action::OpenDevtools,
            Action::Succeed,
        ]
    );
    assert_eq!(actions.iter().filter(|a| **a == Action::OpenDevtools).count(), 1);
    assert!(!actions.contains(&Action::WarnMissingWindow));
}

#[test]
fn debug_build_without_window_warns_once() {
    let actions = setup_actions(true, true, false);
    assert_eq!(
        actions,
        vec![
            Action::RegisterLogPlugin,
            Action::LookUpWindow,
            Action::WarnMissingWindow,
            Action::Succeed,
        ]
    );
    assert_eq!(actions.iter().filter(|a| **a == Action::WarnMissingWindow).count(), 1);
    assert!(!actions.contains(&Action::OpenDevtools));
    assert_eq!(actions.last(), Some(&Action::Succeed));
}

#[test]
fn plugin_failure_returns_error() {
    for window_found in [false, true] {
        let actions = setup_actions(true, false, window_found);
        assert_eq!(actions, vec![Action::RegisterLogPlugin, Action::Fail]);
    }
}

#[test]
fn machine_steps_through_debug_setup() {
    let mut m = Setup::new(true);
    assert_eq!(m.phase, Phase::Start);
    assert!(!m.is_finished());
    assert_eq!(m.handle(Event::Begin), Action::RegisterLogPlugin);
    assert_eq!(m.phase, Phase::AwaitingPlugin);
    assert_eq!(m.handle(Event::PluginRegistered), Action::LookUpWindow);
    assert_eq!(m.phase, Phase::AwaitingWindow);
    assert_eq!(m.handle(Event::WindowMissing), Action::WarnMissingWindow);
    assert_eq!(m.phase, Phase::Reporting);
    assert!(!m.is_finished());
    assert_eq!(m.handle(Event::Performed), Action::Succeed);
    assert_eq!(m.phase, Phase::Done);
    assert!(m.is_finished());
    assert!(m.debug);
}

#[test]
fn machine_ignores_out_of_order_events() {
    let mut m = Setup::new(true);
    assert_eq!(m.handle(Event::WindowFound), Action::Ignore);
    assert_eq!(m.phase, Phase::Start);
    assert_eq!(m.handle(Event::Begin), Action::RegisterLogPlugin);
    assert_eq!(m.handle(Event::Performed), Action::Ignore);
    assert_eq!(m.phase, Phase::AwaitingPlugin);
    assert_eq!(m.handle(Event::PluginFailed), Action::Fail);
    assert_eq!(m.phase, Phase::Failed);
    assert!(m.is_finished());
    assert_eq!(m.handle(Event::Begin), Action::Ignore);
    assert_eq!(m.phase, Phase::Failed);
}

#[test]
fn release_machine_finishes_on_begin() {
    let mut m = Setup::new(false);
    assert_eq!(m.handle(Event::Begin), Action::Succeed);
    assert_eq!(m.phase, Phase::Done);
    assert!(m.is_finished());
}

#[test]
fn labels_and_messages() {
    assert_eq!(main_window_label(), "main");
    assert_eq!(
        missing_window_warning(),
        "warning: main window not found, label may need to be configured"
    );
}

use splash_shell::command::{
    close_command_str, close_splashscreen, handle_invoke, resolve_close_outcome, ProcessStatus,
};
use splash_shell::model::{splashscreen_label, AppModel, WindowModel};
use splash_shell::startup::{boot, BootOutcome, ConfigModel};

fn window(label: &str, visible: bool, closable: bool) -> WindowModel {
    WindowModel { label: label.to_owned(), visible, closable }
}

#[test]
fn names_are_fixed() {
    assert_eq!(splashscreen_label(), "splashscreen");
    assert_eq!(close_command_str(), "close_splashscreen");
}

#[test]
fn close_removes_present_closable_splashscreen() {
    let mut app = AppModel {
        windows: vec![window("splashscreen", true, true), window("main", true, true)],
    };
    let status = close_splashscreen(&mut app);
    assert_eq!(status, ProcessStatus::Running);
    assert_eq!(app.find_window("splashscreen"), None);
    assert_eq!(app.find_window("main"), Some(0));
    assert!(app.windows[0].visible);
    assert_eq!(app.windows.len(), 1);
}

#[test]
fn close_without_splashscreen_is_a_noop() {
    let mut app = AppModel { windows: vec![window("main", true, true)] };
    let before = app.clone();
    let status = close_splashscreen(&mut app);
    assert_eq!(status, ProcessStatus::Running);
    assert_eq!(app, before);
}

#[test]
fn close_on_empty_registry_is_a_noop() {
    let mut app = AppModel { windows: Vec::new() };
    let status = close_splashscreen(&mut app);
    assert_eq!(status, ProcessStatus::Running);
    assert!(app.windows.is_empty());
}

#[test]
fn failed_close_aborts_the_process() {
    let mut app = AppModel {
        windows: vec![window("main", true, true), window("splashscreen", true, false)],
    };
    let before = app.clone();
    let status = close_splashscreen(&mut app);
    assert_eq!(status, ProcessStatus::Aborted);
    assert_eq!(app, before);
}

#[test]
fn close_keeps_every_other_window_in_order() {
    let mut app = AppModel {
        windows: vec![
            window("settings", false, true),
            window("splashscreen", true, true),
            window("main", true, true),
        ],
    };
    let status = close_splashscreen(&mut app);
    assert_eq!(status, ProcessStatus::Running);
    assert_eq!(app.windows.len(), 2);
    assert_eq!(app.windows[0].label, "settings");
    assert_eq!(app.windows[1].label, "main");
}

#[test]
fn close_twice_second_run_is_a_noop() {
    let mut app = AppModel { windows: vec![window("splashscreen", true, true)] };
    assert_eq!(close_splashscreen(&mut app), ProcessStatus::Running);
    let after_first = app.clone();
    assert_eq!(close_splashscreen(&mut app), ProcessStatus::Running);
    assert_eq!(app, after_first);
}

#[test]
fn resolve_close_outcome_is_crash_on_error() {
    assert_eq!(resolve_close_outcome(true), ProcessStatus::Running);
    assert_eq!(resolve_close_outcome(false), ProcessStatus::Aborted);
}

#[test]
fn known_command_is_dispatched() {
    let mut app = AppModel { windows: vec![window("splashscreen", true, true)] };
    let r = handle_invoke(&mut app, "close_splashscreen");
    assert_eq!(r, Some(ProcessStatus::Running));
    assert_eq!(app.find_window("splashscreen"), None);
}

#[test]
fn unknown_command_is_not_dispatched() {
    let mut app = AppModel { windows: vec![window("splashscreen", true, true)] };
    let before = app.clone();
    let r = handle_invoke(&mut app, "open_devtools");
    assert_eq!(r, None);
    assert_eq!(app, before);
}

#[test]
fn find_window_reports_the_right_index() {
    let app = AppModel {
        windows: vec![window("a", true, true), window("b", false, true), window("c", true, true)],
    };
    assert_eq!(app.find_window("a"), Some(0));
    assert_eq!(app.find_window("b"), Some(1));
    assert_eq!(app.find_window("c"), Some(2));
    assert_eq!(app.find_window("d"), None);
}

#[test]
fn find_window_on_empty_registry() {
    let app = AppModel { windows: Vec::new() };
    assert_eq!(app.find_window("splashscreen"), None);
}

#[test]
fn boot_valid_config_enters_event_loop() {
    let cfg = ConfigModel {
        valid: true,
        windows: vec![window("splashscreen", true, true), window("main", false, true)],
    };
    match boot(cfg.clone()) {
        BootOutcome::EventLoop(app) => assert_eq!(app.windows, cfg.windows),
        BootOutcome::StartupAbort => panic!("a well-formed configuration must boot"),
    }
}

#[test]
fn boot_invalid_config_aborts() {
    let cfg = ConfigModel { valid: false, windows: vec![window("main", true, true)] };
    assert!(matches!(boot(cfg), BootOutcome::StartupAbort));
}

#[test]
fn boot_duplicate_labels_aborts() {
    let cfg = ConfigModel {
        valid: true,
        windows: vec![window("main", true, true), window("main", false, true)],
    };
    assert!(matches!(boot(cfg), BootOutcome::StartupAbort));
}

#[test]
fn boot_empty_config_enters_event_loop() {
    let cfg = ConfigModel { valid: true, windows: Vec::new() };
    assert!(matches!(boot(cfg), BootOutcome::EventLoop(_)));
}

#[test]
fn splashscreen_lifecycle() {
    // App starts from a valid configuration that declares the splashscreen
    // and the main window.
    let cfg = ConfigModel {
        valid: true,
        windows: vec![window("splashscreen", true, true), window("main", true, true)],
    };
    let mut app = match boot(cfg) {
        BootOutcome::EventLoop(app) => app,
        BootOutcome::StartupAbort => panic!("a well-formed configuration must boot"),
    };
    assert_eq!(app.find_window("splashscreen"), Some(0));

    // The front end invokes the registered command once the main UI is ready.
    let status = handle_invoke(&mut app, "close_splashscreen");
    assert_eq!(status, Some(ProcessStatus::Running));

    // The splashscreen is gone, the main window is still visible, and the
    // process keeps running until a user-initiated exit.
    assert_eq!(app.find_window("splashscreen"), None);
    let main_ix = app.find_window("main").expect("main window must remain");
    assert!(app.windows[main_ix].visible);
}

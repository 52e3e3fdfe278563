use koe::menu::{menu_action, toggle_label, MenuAction};
use koe::settings::{open_system_settings, OpenAttempt, SettingsPane};

#[test]
fn menu_entries_have_their_actions() {
    assert_eq!(menu_action("quit"), MenuAction::Quit);
    assert_eq!(menu_action("toggle"), MenuAction::Toggle);
    assert_eq!(menu_action("Quit"), MenuAction::Nothing);
    assert_eq!(menu_action(""), MenuAction::Nothing);
    assert_eq!(menu_action("toggle "), MenuAction::Nothing);
}

#[test]
fn toggle_label_names_the_shortcuts() {
    assert_eq!(toggle_label(true), "Toggle Dictation (fn/Globe · ⌥Space)");
    assert_eq!(toggle_label(false), "Toggle Dictation (⌥Space)");
}

#[test]
fn panes_have_their_addresses() {
    assert_eq!(
        SettingsPane::Microphone.url(),
        "x-apple.systempreferences:com.apple.preference.security?Privacy_Microphone"
    );
    assert_eq!(
        SettingsPane::SpeechRecognition.url(),
        "x-apple.systempreferences:com.apple.preference.security?Privacy_SpeechRecognition"
    );
    assert_eq!(
        SettingsPane::Accessibility.url(),
        "x-apple.systempreferences:com.apple.preference.security?Privacy_Accessibility"
    );
}

#[test]
fn opening_a_pane_reports_each_failure() {
    assert_eq!(open_system_settings(&OpenAttempt::Ran { success: true }), Ok(()));
    assert_eq!(
        open_system_settings(&OpenAttempt::Ran { success: false }),
        Err("System Settings returned a non-zero status".to_string())
    );
    assert_eq!(
        open_system_settings(&OpenAttempt::NotStarted { reason: "no such file".to_string() }),
        Err("failed to launch System Settings: no such file".to_string())
    );
    assert_eq!(
        open_system_settings(&OpenAttempt::Unsupported),
        Err("Opening System Settings is only supported on macOS".to_string())
    );
}

//! The panes of the system settings that grant what dictation needs, and
//! what to report after an attempt to open one.

use vstd::prelude::*;

verus! {

/// A pane of the privacy settings.
#[derive(Clone, Copy, Debug, PartialEq, Eq)]
pub enum SettingsPane {
    Microphone,
    SpeechRecognition,
    Accessibility,
}

/// The address of a pane.
pub open spec fn pane_url(pane: SettingsPane) -> Seq<char> {
    match pane {
        SettingsPane::Microphone =>
            "x-apple.systempreferences:com.apple.preference.security?Privacy_Microphone"@,
        SettingsPane::SpeechRecognition =>
            "x-apple.systempreferences:com.apple.preference.security?Privacy_SpeechRecognition"@,
        SettingsPane::Accessibility =>
            "x-apple.systempreferences:com.apple.preference.security?Privacy_Accessibility"@,
    }
}

impl SettingsPane {
    /// The address that opens the pane.
    pub fn url(&self) -> (url: &'static str)
        ensures
            url@ == pane_url(*self),
    {
        match self {
            SettingsPane::Microphone =>
                "x-apple.systempreferences:com.apple.preference.security?Privacy_Microphone",
            SettingsPane::SpeechRecognition =>
                "x-apple.systempreferences:com.apple.preference.security?Privacy_SpeechRecognition",
            SettingsPane::Accessibility =>
                "x-apple.systempreferences:com.apple.preference.security?Privacy_Accessibility",
        }
    }
}

/// How the attempt to open a pane went.
#[derive(Debug, PartialEq, Eq)]
pub enum OpenAttempt {
    /// The opener ran and ended, with or without success.
    Ran { success: bool },
    /// The opener could not be started.
    NotStarted { reason: String },
    /// The platform has no such settings.
    Unsupported,
}

/// The complaint after a failed attempt, or nothing after a success.
pub open spec fn open_complaint(attempt: OpenAttempt) -> Option<Seq<char>> {
    match attempt {
        OpenAttempt::Ran { success } => if success {
            None
        } else {
            Some("System Settings returned a non-zero status"@)
        },
        OpenAttempt::NotStarted { reason } => Some("failed to launch System Settings: "@ + reason@),
        OpenAttempt::Unsupported => Some("Opening System Settings is only supported on macOS"@),
    }
}

/// What to report after an attempt to open a pane.
pub fn open_system_settings(attempt: &OpenAttempt) -> (outcome: Result<(), String>)
    ensures
        outcome is Ok <==> open_complaint(*attempt) is None,
        outcome matches Err(message) ==> Some(message@) == open_complaint(*attempt),
{
    match attempt {
        OpenAttempt::Ran { success } => {
            if *success {
                Ok(())
            } else {
                Err(String::from_str("System Settings returned a non-zero status"))
            }
        },
        OpenAttempt::NotStarted { reason } => {
            let mut message = String::from_str("failed to launch System Settings: ");
            message.append(reason.as_str());
            Err(message)
        },
        OpenAttempt::Unsupported => Err(
            String::from_str("Opening System Settings is only supported on macOS"),
        ),
    }
}

} // verus!

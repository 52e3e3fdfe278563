//! What the session tells the surrounding application.

use vstd::prelude::*;

verus! {

/// A notification for the user interface.
#[derive(Debug, PartialEq, Eq)]
pub enum UiEvent {
    /// The session began or stopped listening.
    ListeningState { listening: bool },
    /// The transcript so far.
    TranscriptPartial { text: String },
    /// The finished transcript.
    TranscriptFinal { text: String },
    /// The microphone level: a floating-point numeral, as the helper
    /// wrote it.
    MicLevel { value: String },
    /// A failure to show to the user.
    SpeechError { message: String },
}

/// A notification as a mathematical value.
pub enum UiEventView {
    ListeningState { listening: bool },
    TranscriptPartial { text: Seq<char> },
    TranscriptFinal { text: Seq<char> },
    MicLevel { value: Seq<char> },
    SpeechError { message: Seq<char> },
}

impl View for UiEvent {
    type V = UiEventView;

    open spec fn view(&self) -> UiEventView {
        match self {
            UiEvent::ListeningState { listening } => UiEventView::ListeningState {
                listening: *listening,
            },
            UiEvent::TranscriptPartial { text } => UiEventView::TranscriptPartial { text: text@ },
            UiEvent::TranscriptFinal { text } => UiEventView::TranscriptFinal { text: text@ },
            UiEvent::MicLevel { value } => UiEventView::MicLevel { value: value@ },
            UiEvent::SpeechError { message } => UiEventView::SpeechError { message: message@ },
        }
    }
}

impl DeepView for UiEvent {
    type V = UiEventView;

    open spec fn deep_view(&self) -> UiEventView {
        self@
    }
}

/// The channel on which an event is published.
pub open spec fn channel_of(event: UiEventView) -> Seq<char> {
    match event {
        UiEventView::ListeningState { .. } => "listening-state"@,
        UiEventView::TranscriptPartial { .. } => "transcript-partial"@,
        UiEventView::TranscriptFinal { .. } => "transcript-final"@,
        UiEventView::MicLevel { .. } => "mic-level"@,
        UiEventView::SpeechError { .. } => "speech-error"@,
    }
}

/// The key under which an event's payload stands in the published object.
pub open spec fn payload_key_of(event: UiEventView) -> Seq<char> {
    match event {
        UiEventView::ListeningState { .. } => "listening"@,
        UiEventView::TranscriptPartial { .. } => "text"@,
        UiEventView::TranscriptFinal { .. } => "text"@,
        UiEventView::MicLevel { .. } => "level"@,
        UiEventView::SpeechError { .. } => "message"@,
    }
}

impl UiEvent {
    /// The channel on which the event is published.
    pub fn channel(&self) -> (name: &'static str)
        ensures
            name@ == channel_of(self@),
    {
        match self {
            UiEvent::ListeningState { .. } => "listening-state",
            UiEvent::TranscriptPartial { .. } => "transcript-partial",
            UiEvent::TranscriptFinal { .. } => "transcript-final",
            UiEvent::MicLevel { .. } => "mic-level",
            UiEvent::SpeechError { .. } => "speech-error",
        }
    }

    /// The key under which the payload stands in the published object.
    pub fn payload_key(&self) -> (key: &'static str)
        ensures
            key@ == payload_key_of(self@),
    {
        match self {
            UiEvent::ListeningState { .. } => "listening",
            UiEvent::TranscriptPartial { .. } => "text",
            UiEvent::TranscriptFinal { .. } => "text",
            UiEvent::MicLevel { .. } => "level",
            UiEvent::SpeechError { .. } => "message",
        }
    }
}

} // verus!

//! Supervision of the recognition helper.
//!
//! The helper is a separate process that listens to the microphone and writes
//! the line protocol of [`crate::protocol`].  This module keeps track of the
//! one helper that may run, of the last finished transcript, and says what to
//! tell the user when a helper ends badly.  Starting, signalling and reading
//! the process is the caller's part.

use crate::events::{UiEvent, UiEventView};
use crate::protocol::{line_meaning, parse_line, Line, LineView};
use crate::text::{decimal, decimal_text};
use vstd::prelude::*;

verus! {

/// How a helper ended.
#[derive(Clone, Copy, Debug, PartialEq, Eq)]
pub enum HelperExit {
    /// The process ended; `code` is its exit code, if it has one.
    Exited { code: Option<i32> },
    /// Waiting for the process failed.
    Lost,
}

impl HelperExit {
    /// Anything but an exit with code zero is a crash.
    pub open spec fn is_crash(self) -> bool {
        !(self matches HelperExit::Exited { code: Some(c) } && c == 0)
    }

    /// What the user is told about a crash.
    pub open spec fn crash_message(self) -> Seq<char> {
        match self {
            HelperExit::Exited { code } => "Speech helper exited unexpectedly (code "@ + decimal(
                match code {
                    Some(c) => c as int,
                    None => -1,
                },
            ) + ")"@,
            HelperExit::Lost => "Speech helper process lost"@,
        }
    }

    pub fn crashed(&self) -> (crash: bool)
        ensures
            crash == self.is_crash(),
    {
        match self {
            HelperExit::Exited { code: Some(c) } => *c != 0,
            _ => true,
        }
    }

    /// The message for a crash.
    pub fn message(&self) -> (text: String)
        ensures
            text@ == self.crash_message(),
    {
        match self {
            HelperExit::Exited { code } => {
                let shown: i32 = match code {
                    Some(c) => *c,
                    None => -1,
                };
                let number = decimal_text(shown);
                let mut text = String::from_str("Speech helper exited unexpectedly (code ");
                text.append(number.as_str());
                text.append(")");
                text
            },
            HelperExit::Lost => String::from_str("Speech helper process lost"),
        }
    }
}

/// The events that follow the end of a helper: none after a clean exit, an
/// error and the return to idle after a crash.
pub open spec fn exit_events(exit: HelperExit) -> Seq<UiEventView> {
    if exit.is_crash() {
        seq![
            UiEventView::SpeechError { message: exit.crash_message() },
            UiEventView::ListeningState { listening: false },
        ]
    } else {
        seq![]
    }
}

/// What the user is told when no helper could be started.
pub open spec fn launch_failure_message(reason: Seq<char>) -> Seq<char> {
    "Failed to start speech helper: "@ + reason
}

/// The events that follow a failed start.
pub open spec fn launch_failure_events(reason: Seq<char>) -> Seq<UiEventView> {
    seq![
        UiEventView::SpeechError { message: launch_failure_message(reason) },
        UiEventView::ListeningState { listening: false },
    ]
}

/// The arguments of the helper for a language and an on-device preference.
pub open spec fn launch_arguments(language: Seq<char>, on_device: bool) -> Seq<Seq<char>> {
    if on_device {
        seq!["--language"@, language, "--on-device"@]
    } else {
        seq!["--language"@, language]
    }
}

/// The event that a line of the helper gives rise to, if any.
pub open spec fn line_event(line: LineView) -> Option<UiEventView> {
    match line {
        LineView::Partial { text } => Some(UiEventView::TranscriptPartial { text }),
        LineView::Final { text } => Some(UiEventView::TranscriptFinal { text }),
        LineView::Level { value } => Some(UiEventView::MicLevel { value }),
        LineView::Error { message } => Some(UiEventView::SpeechError { message }),
        LineView::Ignored => None,
    }
}

/// The transcript buffer after a line of the helper.
pub open spec fn transcript_after(before: Option<Seq<char>>, line: LineView) -> Option<
    Seq<char>,
> {
    match line {
        LineView::Final { text } => Some(text),
        _ => before,
    }
}

/// The helper that is tracked, and the last finished transcript.
#[derive(Debug, PartialEq, Eq)]
pub struct Recognizer {
    /// The process id of the helper that was started last and has not been
    /// signalled or seen to end.
    process: Option<u32>,
    /// The last finished transcript of the running session.
    transcript: Option<String>,
}

/// A recognizer as a mathematical value.
pub struct RecognizerView {
    pub process: Option<u32>,
    pub transcript: Option<Seq<char>>,
}

impl View for Recognizer {
    type V = RecognizerView;

    closed spec fn view(&self) -> RecognizerView {
        RecognizerView {
            process: self.process,
            transcript: match self.transcript {
                Some(text) => Some(text@),
                None => None,
            },
        }
    }
}

impl RecognizerView {
    /// No helper, no transcript.
    pub open spec fn empty() -> RecognizerView {
        RecognizerView { process: None, transcript: None }
    }

    /// The transcript that a stop hands out: the buffer, or nothing.
    pub open spec fn taken(self) -> Seq<char> {
        match self.transcript {
            Some(text) => text,
            None => Seq::empty(),
        }
    }
}

/// What has to happen to start a helper.
#[derive(Debug, PartialEq, Eq)]
pub struct LaunchPlan {
    /// The helper to signal first, so that no two overlap.
    pub terminate: Option<u32>,
    /// The arguments of the new helper.
    pub arguments: Vec<String>,
}

/// What a stop hands out.
#[derive(Debug, PartialEq, Eq)]
pub struct Stopped {
    /// The helper to signal.
    pub terminate: Option<u32>,
    /// The finished transcript; empty where none arrived.
    pub transcript: String,
}

/// The arguments of the helper.
pub fn helper_arguments(language: &str, on_device: bool) -> (arguments: Vec<String>)
    ensures
        arguments.deep_view() == launch_arguments(language@, on_device),
{
    let mut arguments: Vec<String> = Vec::new();
    arguments.push(String::from_str("--language"));
    arguments.push(String::from_str(language));
    if on_device {
        arguments.push(String::from_str("--on-device"));
    }
    assert(arguments.deep_view() =~= launch_arguments(language@, on_device));
    arguments
}

/// Prepares the start of a helper: a tracked helper is given up for
/// termination, the transcript buffer is cleared, and the arguments of the
/// new helper are made.
pub fn start_recognition(
    recognizer: &mut Recognizer,
    language: &str,
    on_device: bool,
) -> (plan: LaunchPlan)
    ensures
        final(recognizer)@ == RecognizerView::empty(),
        plan.terminate == old(recognizer)@.process,
        plan.arguments.deep_view() == launch_arguments(language@, on_device),
{
    let terminate = recognizer.process.take();
    recognizer.transcript = None;
    LaunchPlan { terminate, arguments: helper_arguments(language, on_device) }
}

/// Stops recognition: a tracked helper is given up for termination, and the
/// transcript buffer is handed out and cleared.
pub fn stop_recognition(recognizer: &mut Recognizer) -> (stopped: Stopped)
    ensures
        final(recognizer)@ == RecognizerView::empty(),
        stopped.terminate == old(recognizer)@.process,
        stopped.transcript@ == old(recognizer)@.taken(),
{
    let terminate = recognizer.process.take();
    let transcript = match recognizer.transcript.take() {
        Some(text) => text,
        None => String::new(),
    };
    Stopped { terminate, transcript }
}

/// The events after a failed start of the helper.
pub fn launch_failed(reason: &str) -> (events: Vec<UiEvent>)
    ensures
        events.deep_view() == launch_failure_events(reason@),
{
    let mut message = String::from_str("Failed to start speech helper: ");
    message.append(reason);
    let mut events: Vec<UiEvent> = Vec::new();
    events.push(UiEvent::SpeechError { message });
    events.push(UiEvent::ListeningState { listening: false });
    assert(events.deep_view() =~= launch_failure_events(reason@));
    events
}

impl Recognizer {
    /// A recognizer with no helper and no transcript.
    pub fn new() -> (recognizer: Recognizer)
        ensures
            recognizer@ == RecognizerView::empty(),
    {
        Recognizer { process: None, transcript: None }
    }

    /// The process id of the tracked helper.
    pub fn process(&self) -> (process: Option<u32>)
        ensures
            process == self@.process,
    {
        self.process
    }

    /// The last finished transcript of the running session.
    pub fn transcript(&self) -> (transcript: Option<&str>)
        ensures
            match transcript {
                Some(text) => self@.transcript == Some(text@),
                None => self@.transcript is None,
            },
    {
        match &self.transcript {
            Some(text) => Some(text.as_str()),
            None => None,
        }
    }

    /// Records that the helper with process id `pid` runs.
    pub fn helper_started(&mut self, pid: u32)
        ensures
            final(self)@ == (RecognizerView { process: Some(pid), ..old(self)@ }),
    {
        self.process = Some(pid);
    }

    /// Takes one line of the helper's output: a finished transcript is kept,
    /// and the event that the line gives rise to is returned.
    pub fn helper_line(&mut self, line: &str) -> (event: Option<UiEvent>)
        ensures
            event.deep_view() == line_event(line_meaning(line@)),
            final(self)@ == (RecognizerView {
                transcript: transcript_after(old(self)@.transcript, line_meaning(line@)),
                ..old(self)@
            }),
    {
        match parse_line(line) {
            Line::Partial { text } => Some(UiEvent::TranscriptPartial { text }),
            Line::Final { text } => {
                self.transcript = Some(text.clone());
                Some(UiEvent::TranscriptFinal { text })
            },
            Line::Level { value } => Some(UiEvent::MicLevel { value }),
            Line::Error { message } => Some(UiEvent::SpeechError { message }),
            Line::Ignored => None,
        }
    }

    /// Records that the helper ended, and says what to tell the user.
    pub fn helper_exited(&mut self, exit: HelperExit) -> (events: Vec<UiEvent>)
        ensures
            final(self)@ == (RecognizerView { process: None, ..old(self)@ }),
            events.deep_view() == exit_events(exit),
    {
        self.process = None;
        let mut events: Vec<UiEvent> = Vec::new();
        if exit.crashed() {
            events.push(UiEvent::SpeechError { message: exit.message() });
            events.push(UiEvent::ListeningState { listening: false });
        }
        assert(events.deep_view() =~= exit_events(exit));
        events
    }
}

/// A place where the helper may lie.
#[derive(Debug, PartialEq, Eq)]
pub struct Candidate {
    pub path: String,
    /// Whether a file is there.
    pub exists: bool,
}

/// The name under which the helper is looked for on the search path, where
/// it lies in none of the places tried.
pub open spec fn bare_helper_name() -> Seq<char> {
    "koe-speech-helper"@
}

/// The path of the first candidate, from `from` on, that exists; the bare
/// name where none does.
pub open spec fn chosen_path(candidates: Seq<Candidate>, from: int) -> Seq<char>
    decreases candidates.len() - from,
{
    if from < 0 || from >= candidates.len() {
        bare_helper_name()
    } else if candidates[from].exists {
        candidates[from].path@
    } else {
        chosen_path(candidates, from + 1)
    }
}

/// Chooses the helper among the places tried, which come in order of
/// preference.
pub fn get_helper_path(candidates: &Vec<Candidate>) -> (path: String)
    ensures
        path@ == chosen_path(candidates@, 0),
{
    let mut i: usize = 0;
    while i < candidates.len()
        invariant
            i <= candidates.len(),
            chosen_path(candidates@, i as int) == chosen_path(candidates@, 0),
        decreases candidates.len() - i,
    {
        if candidates[i].exists {
            return candidates[i].path.clone();
        }
        i += 1;
    }
    String::from_str("koe-speech-helper")
}

} // verus!

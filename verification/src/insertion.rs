//! Insertion of text into the frontmost application by way of the clipboard.
//!
//! The text is written to the clipboard and pasted with a synthesized
//! keystroke.  Afterwards the clipboard is set to the text that is to stay
//! there, unless another writer has touched it in the meantime: the
//! clipboard's change counter, sampled after the write and again after the
//! paste, tells.
//!
//! The insertion is a small machine.  It names the next command, the caller
//! carries the command out and reports what it observed.

use vstd::prelude::*;

verus! {

/// The time that a synthesized paste may take before it is cancelled.
pub const PASTE_TIMEOUT_MS: u64 = 5000;

/// The pause between two looks at a paste that is under way.
pub const PASTE_POLL_INTERVAL_MS: u64 = 50;

/// The time given to the target application to read the clipboard.
pub const CLIPBOARD_RESTORE_DELAY_MS: u64 = 150;

/// How an insertion ended.
#[derive(Clone, Copy, Debug, PartialEq, Eq)]
pub enum Outcome {
    /// The text could not be written to the clipboard; nothing was pasted.
    WriteFailed,
    /// The clipboard was set to the text that is to stay.
    Retained,
    /// The write of the text that is to stay was attempted and failed; the
    /// clipboard is left as the failed write left it.
    RetainFailed,
    /// Another writer touched the clipboard; its content was left alone.
    Yielded,
}

/// How a synthesized paste ended.
#[derive(Clone, Copy, Debug, PartialEq, Eq)]
pub enum PasteOutcome {
    /// The keystroke was dispatched.
    Completed,
    /// The dispatch took too long and was cancelled.
    TimedOut,
    /// The dispatch could not be started or watched.
    Failed,
}

/// Where an insertion stands.
#[derive(Clone, Copy, Debug, PartialEq, Eq)]
pub enum Stage {
    /// The text to paste is to be written to the clipboard.
    WritePaste,
    /// The change counter is to be sampled, right after the write.
    SampleBefore,
    /// The paste keystroke is to be synthesized.
    Paste,
    /// The target application is to be given time.
    Settle,
    /// The change counter is to be sampled again.
    SampleAfter,
    /// The text to retain is to be written to the clipboard.
    WriteRetain,
    /// Nothing is left to do.
    Finished { outcome: Outcome },
}

/// What the caller is to do next.
#[derive(Debug, PartialEq, Eq)]
pub enum Command {
    WriteClipboard { text: String },
    SampleChangeCounter,
    SynthesizePaste { timeout_ms: u64 },
    Wait { millis: u64 },
    Done,
}

/// A command as a mathematical value.
pub enum CommandView {
    WriteClipboard { text: Seq<char> },
    SampleChangeCounter,
    SynthesizePaste { timeout_ms: u64 },
    Wait { millis: u64 },
    Done,
}

impl View for Command {
    type V = CommandView;

    open spec fn view(&self) -> CommandView {
        match self {
            Command::WriteClipboard { text } => CommandView::WriteClipboard { text: text@ },
            Command::SampleChangeCounter => CommandView::SampleChangeCounter,
            Command::SynthesizePaste { timeout_ms } => CommandView::SynthesizePaste {
                timeout_ms: *timeout_ms,
            },
            Command::Wait { millis } => CommandView::Wait { millis: *millis },
            Command::Done => CommandView::Done,
        }
    }
}

/// What the caller saw when it carried a command out.
#[derive(Clone, Copy, Debug, PartialEq, Eq)]
pub enum Observation {
    /// The write to the clipboard succeeded or failed.
    Written { ok: bool },
    /// The change counter had this value.
    Counter { value: i64 },
    /// The paste ended.
    Pasted { outcome: PasteOutcome },
    /// The wait is over.
    Waited,
}

/// An observation as a mathematical value.
pub enum ObservationView {
    Written { ok: bool },
    Counter { value: int },
    Pasted { outcome: PasteOutcome },
    Waited,
}

impl View for Observation {
    type V = ObservationView;

    open spec fn view(&self) -> ObservationView {
        match self {
            Observation::Written { ok } => ObservationView::Written { ok: *ok },
            Observation::Counter { value } => ObservationView::Counter { value: *value as int },
            Observation::Pasted { outcome } => ObservationView::Pasted { outcome: *outcome },
            Observation::Waited => ObservationView::Waited,
        }
    }
}

/// One insertion under way.
#[derive(Debug, PartialEq, Eq)]
pub struct Insertion {
    pub stage: Stage,
    /// The text that the target application is to receive.
    pub paste: String,
    /// The text that is to stay on the clipboard.
    pub retain: String,
    /// The change counter as sampled right after the write.
    pub sampled: i64,
}

/// An insertion as a mathematical value.
pub struct InsertionView {
    pub stage: Stage,
    pub paste: Seq<char>,
    pub retain: Seq<char>,
    pub sampled: int,
}

impl View for Insertion {
    type V = InsertionView;

    open spec fn view(&self) -> InsertionView {
        InsertionView {
            stage: self.stage,
            paste: self.paste@,
            retain: self.retain@,
            sampled: self.sampled as int,
        }
    }
}

impl InsertionView {
    /// An insertion before its first command.
    pub open spec fn begin(paste: Seq<char>, retain: Seq<char>) -> InsertionView {
        InsertionView { stage: Stage::WritePaste, paste, retain, sampled: 0 }
    }

    pub open spec fn finished(self) -> bool {
        self.stage is Finished
    }

    /// The next command.
    pub open spec fn command(self) -> CommandView {
        match self.stage {
            Stage::WritePaste => CommandView::WriteClipboard { text: self.paste },
            Stage::SampleBefore => CommandView::SampleChangeCounter,
            Stage::Paste => CommandView::SynthesizePaste { timeout_ms: PASTE_TIMEOUT_MS },
            Stage::Settle => CommandView::Wait { millis: CLIPBOARD_RESTORE_DELAY_MS },
            Stage::SampleAfter => CommandView::SampleChangeCounter,
            Stage::WriteRetain => CommandView::WriteClipboard { text: self.retain },
            Stage::Finished { .. } => CommandView::Done,
        }
    }

    /// The insertion at another stage.
    pub open spec fn at(self, stage: Stage) -> InsertionView {
        InsertionView { stage, ..self }
    }

    /// The insertion after an observation.  An observation that does not
    /// answer the command of the stage changes nothing.
    pub open spec fn advance(self, seen: ObservationView) -> InsertionView {
        match (self.stage, seen) {
            (Stage::WritePaste, ObservationView::Written { ok }) => if ok {
                self.at(Stage::SampleBefore)
            } else {
                self.at(Stage::Finished { outcome: Outcome::WriteFailed })
            },
            (Stage::SampleBefore, ObservationView::Counter { value }) => InsertionView {
                stage: Stage::Paste,
                sampled: value,
                ..self
            },
            (Stage::Paste, ObservationView::Pasted { .. }) => self.at(Stage::Settle),
            (Stage::Settle, ObservationView::Waited) => self.at(Stage::SampleAfter),
            (Stage::SampleAfter, ObservationView::Counter { value }) => if value == self.sampled {
                self.at(Stage::WriteRetain)
            } else {
                self.at(Stage::Finished { outcome: Outcome::Yielded })
            },
            (Stage::WriteRetain, ObservationView::Written { ok }) => if ok {
                self.at(Stage::Finished { outcome: Outcome::Retained })
            } else {
                self.at(Stage::Finished { outcome: Outcome::RetainFailed })
            },
            _ => self,
        }
    }
}

/// Begins the insertion of `text_to_insert` into the frontmost application,
/// after which `text_for_clipboard` is to stay on the clipboard.
pub fn insert_text_with_clipboard(
    text_to_insert: &str,
    text_for_clipboard: &str,
) -> (insertion: Insertion)
    ensures
        insertion@ == InsertionView::begin(text_to_insert@, text_for_clipboard@),
{
    Insertion {
        stage: Stage::WritePaste,
        paste: String::from_str(text_to_insert),
        retain: String::from_str(text_for_clipboard),
        sampled: 0,
    }
}

/// Begins the insertion of `text`, which also stays on the clipboard.
pub fn insert_text(text: &str) -> (insertion: Insertion)
    ensures
        insertion@ == InsertionView::begin(text@, text@),
{
    insert_text_with_clipboard(text, text)
}

impl Insertion {
    pub fn is_finished(&self) -> (finished: bool)
        ensures
            finished == self@.finished(),
    {
        match self.stage {
            Stage::Finished { .. } => true,
            _ => false,
        }
    }

    /// How the insertion ended, once it has.
    pub fn outcome(&self) -> (outcome: Option<Outcome>)
        ensures
            outcome == match self@.stage {
                Stage::Finished { outcome } => Some(outcome),
                _ => None,
            },
    {
        match self.stage {
            Stage::Finished { outcome } => Some(outcome),
            _ => None,
        }
    }

    /// The next command.
    pub fn command(&self) -> (command: Command)
        ensures
            command@ == self@.command(),
    {
        match self.stage {
            Stage::WritePaste => Command::WriteClipboard { text: self.paste.clone() },
            Stage::SampleBefore => Command::SampleChangeCounter,
            Stage::Paste => Command::SynthesizePaste { timeout_ms: PASTE_TIMEOUT_MS },
            Stage::Settle => Command::Wait { millis: CLIPBOARD_RESTORE_DELAY_MS },
            Stage::SampleAfter => Command::SampleChangeCounter,
            Stage::WriteRetain => Command::WriteClipboard { text: self.retain.clone() },
            Stage::Finished { .. } => Command::Done,
        }
    }

    /// Takes what the caller saw when it carried the command out.
    pub fn observe(&mut self, seen: Observation)
        ensures
            final(self)@ == old(self)@.advance(seen@),
    {
        match self.stage {
            Stage::WritePaste => {
                if let Observation::Written { ok } = seen {
                    if ok {
                        self.stage = Stage::SampleBefore;
                    } else {
                        self.stage = Stage::Finished { outcome: Outcome::WriteFailed };
                    }
                }
            },
            Stage::SampleBefore => {
                if let Observation::Counter { value } = seen {
                    self.sampled = value;
                    self.stage = Stage::Paste;
                }
            },
            Stage::Paste => {
                if let Observation::Pasted { .. } = seen {
                    self.stage = Stage::Settle;
                }
            },
            Stage::Settle => {
                if let Observation::Waited = seen {
                    self.stage = Stage::SampleAfter;
                }
            },
            Stage::SampleAfter => {
                if let Observation::Counter { value } = seen {
                    if value == self.sampled {
                        self.stage = Stage::WriteRetain;
                    } else {
                        self.stage = Stage::Finished { outcome: Outcome::Yielded };
                    }
                }
            },
            Stage::WriteRetain => {
                if let Observation::Written { ok } = seen {
                    if ok {
                        self.stage = Stage::Finished { outcome: Outcome::Retained };
                    } else {
                        self.stage = Stage::Finished { outcome: Outcome::RetainFailed };
                    }
                }
            },
            Stage::Finished { .. } => {},
        }
    }
}

/// What a look at a paste under way found.
#[derive(Clone, Copy, Debug, PartialEq, Eq)]
pub enum Poll {
    /// The dispatch has ended.
    Exited,
    /// The dispatch is still running.
    Running,
    /// Looking failed.
    Failed,
}

/// What to do after a look at a paste under way.
#[derive(Clone, Copy, Debug, PartialEq, Eq)]
pub enum PollStep {
    /// The paste is over.
    Finish { outcome: PasteOutcome },
    /// Cancel the dispatch by force and collect it; the paste is over.
    Cancel { outcome: PasteOutcome },
    /// Look again after a pause.
    Sleep { millis: u64 },
}

/// The step after a look at a paste that has run for `elapsed_ms` and may
/// run for `timeout_ms`.
pub open spec fn poll_step(poll: Poll, elapsed_ms: u64, timeout_ms: u64) -> PollStep {
    match poll {
        Poll::Exited => PollStep::Finish { outcome: PasteOutcome::Completed },
        Poll::Running => if elapsed_ms >= timeout_ms {
            PollStep::Cancel { outcome: PasteOutcome::TimedOut }
        } else {
            PollStep::Sleep { millis: PASTE_POLL_INTERVAL_MS }
        },
        Poll::Failed => PollStep::Cancel { outcome: PasteOutcome::Failed },
    }
}

/// Decides what follows a look at a paste under way, so that the paste
/// never holds the caller longer than the timeout and one pause.
pub fn paste_poll(poll: Poll, elapsed_ms: u64, timeout_ms: u64) -> (step: PollStep)
    ensures
        step == poll_step(poll, elapsed_ms, timeout_ms),
{
    match poll {
        Poll::Exited => PollStep::Finish { outcome: PasteOutcome::Completed },
        Poll::Running => {
            if elapsed_ms >= timeout_ms {
                PollStep::Cancel { outcome: PasteOutcome::TimedOut }
            } else {
                PollStep::Sleep { millis: PASTE_POLL_INTERVAL_MS }
            }
        },
        Poll::Failed => PollStep::Cancel { outcome: PasteOutcome::Failed },
    }
}

} // verus!

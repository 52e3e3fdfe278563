//! A model of the clipboard and of the application that receives the paste,
//! and what an insertion achieves against it.
//!
//! The clipboard holds a text and a change counter that every writer
//! increments.  Pasting hands the clipboard's text to the frontmost
//! application.  Other writers may write at any time; the model lets one
//! such write land before each command of an insertion.

use crate::insertion::{
    CommandView, InsertionView, ObservationView, Outcome, PasteOutcome, Stage,
};
use vstd::prelude::*;

verus! {

/// The clipboard.
pub struct Pasteboard {
    pub content: Seq<char>,
    pub change_count: int,
}

impl Pasteboard {
    /// The clipboard after some writer has written `text`.
    pub open spec fn written(self, text: Seq<char>) -> Pasteboard {
        Pasteboard { content: text, change_count: self.change_count + 1 }
    }
}

/// The clipboard, and the texts that the frontmost application has received
/// by paste.
pub struct Desk {
    pub board: Pasteboard,
    pub received: Seq<Seq<char>>,
}

/// The desk after another writer has written, if one has.
pub open spec fn disturbed(desk: Desk, external: Option<Seq<char>>) -> Desk {
    match external {
        Some(text) => Desk { board: desk.board.written(text), ..desk },
        None => desk,
    }
}

/// The desk after a command was carried out, and what was observed.
pub open spec fn carried_out(desk: Desk, command: CommandView) -> (Desk, Option<ObservationView>) {
    match command {
        CommandView::WriteClipboard { text } => (
            Desk { board: desk.board.written(text), ..desk },
            Some(ObservationView::Written { ok: true }),
        ),
        CommandView::SampleChangeCounter => (
            desk,
            Some(ObservationView::Counter { value: desk.board.change_count }),
        ),
        CommandView::SynthesizePaste { .. } => (
            Desk { received: desk.received.push(desk.board.content), ..desk },
            Some(ObservationView::Pasted { outcome: PasteOutcome::Completed }),
        ),
        CommandView::Wait { .. } => (desk, Some(ObservationView::Waited)),
        CommandView::Done => (desk, None),
    }
}

/// One round: another writer may write, then the insertion's command is
/// carried out and observed.  A finished insertion takes no part any more.
pub open spec fn one_step(insertion: InsertionView, desk: Desk, external: Option<Seq<char>>) -> (
    InsertionView,
    Desk,
) {
    if insertion.finished() {
        (insertion, desk)
    } else {
        let (after, seen) = carried_out(disturbed(desk, external), insertion.command());
        match seen {
            Some(observation) => (insertion.advance(observation), after),
            None => (insertion, after),
        }
    }
}

/// The insertion and the desk after `n` rounds, where `externals[k]` is what
/// another writer writes before round `k`.
pub open spec fn after_steps(
    insertion: InsertionView,
    desk: Desk,
    externals: Seq<Option<Seq<char>>>,
    n: int,
) -> (InsertionView, Desk)
    decreases n,
{
    if n <= 0 {
        (insertion, desk)
    } else {
        let (i, d) = after_steps(insertion, desk, externals, n - 1);
        one_step(i, d, externals[n - 1])
    }
}

/// The rounds that an undisturbed insertion takes.
pub open spec fn full_run() -> int {
    6
}

/// The last text that another writer writes in the window between the two
/// samples of the change counter, that is, before the rounds 2, 3 and 4.
pub open spec fn last_in_window(externals: Seq<Option<Seq<char>>>) -> Option<Seq<char>> {
    if externals[4] is Some {
        externals[4]
    } else if externals[3] is Some {
        externals[3]
    } else {
        externals[2]
    }
}

/// The stage before the restoring write is reached: the first write
/// succeeded, the counter was `first` right after it and `second` after the
/// paste and the wait.
pub open spec fn sampled_twice(
    paste: Seq<char>,
    retain: Seq<char>,
    first: int,
    pasted: PasteOutcome,
    second: int,
) -> InsertionView {
    InsertionView::begin(paste, retain).advance(ObservationView::Written { ok: true }).advance(
        ObservationView::Counter { value: first },
    ).advance(ObservationView::Pasted { outcome: pasted }).advance(
        ObservationView::Waited,
    ).advance(ObservationView::Counter { value: second })
}

/// The clipboard is restored if and only if the change counter sampled
/// right after the write equals the one sampled after the wait, however the
/// paste ended.  Where they differ, the insertion ends without a further
/// write.
pub proof fn restore_iff_counter_unchanged(
    paste: Seq<char>,
    retain: Seq<char>,
    first: int,
    pasted: PasteOutcome,
    second: int,
)
    ensures
        first == second <==> sampled_twice(paste, retain, first, pasted, second).command()
            == (CommandView::WriteClipboard { text: retain }),
        first == second <==> sampled_twice(paste, retain, first, pasted, second).stage
            is WriteRetain,
        first != second <==> sampled_twice(paste, retain, first, pasted, second).stage == (
            Stage::Finished { outcome: Outcome::Yielded }
        ),
{
}

/// A failed write ends the insertion at once: no paste is asked for.
pub proof fn failed_write_pastes_nothing(paste: Seq<char>, retain: Seq<char>)
    ensures
        InsertionView::begin(paste, retain).advance(ObservationView::Written { ok: false }).stage
            == (Stage::Finished { outcome: Outcome::WriteFailed }),
        InsertionView::begin(paste, retain).advance(
            ObservationView::Written { ok: false },
        ).command() == CommandView::Done,
{
}

/// Round trip: where no other writer interferes, the frontmost application
/// receives exactly the text to paste, and the clipboard ends holding
/// exactly the text to retain.
pub proof fn undisturbed_round_trip(
    paste: Seq<char>,
    retain: Seq<char>,
    desk: Desk,
    externals: Seq<Option<Seq<char>>>,
)
    requires
        externals.len() >= full_run(),
        forall|k: int| 0 <= k < full_run() ==> externals[k] is None,
    ensures
        ({
            let (insertion, after) = after_steps(
                InsertionView::begin(paste, retain),
                desk,
                externals,
                full_run(),
            );
            &&& insertion.stage == (Stage::Finished { outcome: Outcome::Retained })
            &&& after.received == desk.received.push(paste)
            &&& after.board.content == retain
        }),
{
    reveal_with_fuel(after_steps, 7);
}

/// An external write wins: where another writer writes between the two
/// samples of the change counter, the insertion yields, and the clipboard
/// ends holding what that writer wrote last, not the text to retain.
pub proof fn external_write_wins(
    paste: Seq<char>,
    retain: Seq<char>,
    desk: Desk,
    externals: Seq<Option<Seq<char>>>,
)
    requires
        externals.len() >= full_run(),
        last_in_window(externals) is Some,
    ensures
        ({
            let (insertion, after) = after_steps(
                InsertionView::begin(paste, retain),
                desk,
                externals,
                full_run(),
            );
            &&& insertion.stage == (Stage::Finished { outcome: Outcome::Yielded })
            &&& after.board.content == last_in_window(externals)->0
        }),
{
    reveal_with_fuel(after_steps, 7);
}

} // verus!

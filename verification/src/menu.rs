//! The tray menu: its entries, and what choosing one means.

use crate::text::same_text;
use vstd::prelude::*;

verus! {

/// What the choice of a menu entry asks for.
#[derive(Clone, Copy, Debug, PartialEq, Eq)]
pub enum MenuAction {
    /// Leave the application.
    Quit,
    /// Toggle the dictation session.
    Toggle,
    /// Nothing; the entry is not one of this menu.
    Nothing,
}

/// The identifier of the entry that leaves the application.
pub open spec fn quit_id() -> Seq<char> {
    "quit"@
}

/// The identifier of the entry that toggles dictation.
pub open spec fn toggle_id() -> Seq<char> {
    "toggle"@
}

/// What the entry with identifier `id` asks for.
pub open spec fn menu_meaning(id: Seq<char>) -> MenuAction {
    if id == quit_id() {
        MenuAction::Quit
    } else if id == toggle_id() {
        MenuAction::Toggle
    } else {
        MenuAction::Nothing
    }
}

/// The label of the toggle entry, which names the shortcuts that work.
pub open spec fn toggle_label_text(fn_globe: bool) -> Seq<char> {
    if fn_globe {
        "Toggle Dictation (fn/Globe · ⌥Space)"@
    } else {
        "Toggle Dictation (⌥Space)"@
    }
}

/// What the choice of the entry with identifier `id` asks for.
pub fn menu_action(id: &str) -> (action: MenuAction)
    ensures
        action == menu_meaning(id@),
{
    if same_text(id, "quit") {
        MenuAction::Quit
    } else if same_text(id, "toggle") {
        MenuAction::Toggle
    } else {
        MenuAction::Nothing
    }
}

/// The label of the toggle entry.
pub fn toggle_label(fn_globe: bool) -> (label: &'static str)
    ensures
        label@ == toggle_label_text(fn_globe),
{
    if fn_globe {
        "Toggle Dictation (fn/Globe · ⌥Space)"
    } else {
        "Toggle Dictation (⌥Space)"
    }
}

} // verus!

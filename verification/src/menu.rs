//! The native menu of the thread-writer window: three fixed entries and the
//! action each one triggers.
//!
//! [`menu_items`] is the declarative configuration the shell installs, and
//! [`menu_action`] decides, from a menu event's identifier, what the shell
//! must do: emit a front-end signal, terminate the process, or nothing.

use vstd::prelude::*;

verus! {

/// The signals the menu can emit towards front-end listeners.
#[derive(Clone, Copy, Debug, PartialEq, Eq, Structural)]
pub enum MenuSignal {
    About,
    ResetLayout,
}

/// What the shell must do in response to a menu event.
#[derive(Clone, Copy, Debug, PartialEq, Eq, Structural)]
pub enum MenuAction {
    /// Dispatch the signal to front-end listeners.
    Emit(MenuSignal),
    /// Terminate the process.
    Exit,
    /// An unknown identifier: do nothing.
    Ignore,
}

/// One entry of the menu: its event identifier, its visible label, and
/// whether it is enabled.
pub struct MenuEntry {
    pub id: String,
    pub label: String,
    pub enabled: bool,
}

/// Whether two strings hold the same characters.
pub fn str_eq(a: &str, b: &str) -> (r: bool)
    ensures
        r == (a@ == b@),
{
    let a_len = a.unicode_len();
    let b_len = b.unicode_len();
    if a_len != b_len {
        return false;
    }
    let mut i: usize = 0;
    while i < a_len
        invariant
            i <= a_len,
            a_len == a@.len(),
            b_len == b@.len(),
            a_len == b_len,
            forall|j: int| 0 <= j < i ==> a@[j] == b@[j],
        decreases a_len - i,
    {
        if a.get_char(i) != b.get_char(i) {
            return false;
        }
        i = i + 1;
    }
    proof {
        assert(a@ =~= b@);
    }
    true
}

/// The action a menu event with the given identifier triggers: `quit` ends
/// the process, `reset_layout` and `about` emit their signal, and any other
/// identifier is ignored.
pub fn menu_action(id: &str) -> (r: MenuAction)
    ensures
        id@ == "quit"@ ==> r == MenuAction::Exit,
        id@ == "reset_layout"@ ==> r == MenuAction::Emit(MenuSignal::ResetLayout),
        id@ == "about"@ ==> r == MenuAction::Emit(MenuSignal::About),
        (id@ != "quit"@ && id@ != "reset_layout"@ && id@ != "about"@) ==> r == MenuAction::Ignore,
{
    proof {
        // The three identifiers are pairwise distinct texts: their lengths
        // already differ.
        reveal_strlit("quit");
        reveal_strlit("reset_layout");
        reveal_strlit("about");
        assert("quit"@.len() == 4);
        assert("reset_layout"@.len() == 12);
        assert("about"@.len() == 5);
    }
    if str_eq(id, "quit") {
        MenuAction::Exit
    } else if str_eq(id, "reset_layout") {
        MenuAction::Emit(MenuSignal::ResetLayout)
    } else if str_eq(id, "about") {
        MenuAction::Emit(MenuSignal::About)
    } else {
        MenuAction::Ignore
    }
}

/// The event name under which a signal reaches front-end listeners.
pub fn signal_event_name(signal: &MenuSignal) -> (r: String)
    ensures
        signal is About ==> r@ == "tw-about"@,
        signal is ResetLayout ==> r@ == "tw-reset-layout"@,
{
    match signal {
        MenuSignal::About => String::from_str("tw-about"),
        MenuSignal::ResetLayout => String::from_str("tw-reset-layout"),
    }
}

/// The menu's three fixed entries, in display order: about, reset layout,
/// quit.  Their identifiers are exactly the ones [`menu_action`] reacts to,
/// and every entry is enabled.
pub fn menu_items() -> (r: Vec<MenuEntry>)
    ensures
        r@.len() == 3,
        r@[0].id@ == "about"@ && r@[0].label@ == "About ThreadWriter"@ && r@[0].enabled,
        r@[1].id@ == "reset_layout"@ && r@[1].label@ == "Reset layout"@ && r@[1].enabled,
        r@[2].id@ == "quit"@ && r@[2].label@ == "Quit"@ && r@[2].enabled,
{
    let mut items: Vec<MenuEntry> = Vec::new();
    items.push(
        MenuEntry {
            id: String::from_str("about"),
            label: String::from_str("About ThreadWriter"),
            enabled: true,
        },
    );
    items.push(
        MenuEntry {
            id: String::from_str("reset_layout"),
            label: String::from_str("Reset layout"),
            enabled: true,
        },
    );
    items.push(
        MenuEntry {
            id: String::from_str("quit"),
            label: String::from_str("Quit"),
            enabled: true,
        },
    );
    items
}

} // verus!

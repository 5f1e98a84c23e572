//! The visibility toggle, as a conversation with the GUI host.
//!
//! The shell keeps no record of the window between two shortcut events. Each
//! press starts a fresh conversation: look the main window up, read whether it
//! is visible, then hide it, or show it and ask for focus. The host does the
//! work; this module only decides what to ask next. The caller carries out one
//! call, reports the reply, and is told the following call, until there is
//! none.

use vstd::prelude::*;

verus! {

/// The label of the window that the toggle shows and hides.
pub const MAIN_WINDOW: &'static str = "main";

/// The key combination that toggles the main window: Shift, the platform's
/// primary modifier, and T.
pub const TOGGLE_SHORTCUT: &'static str = "Shift+CmdOrCtrl+T";

/// The transition that a global shortcut event reports.
#[derive(Clone, Copy, Debug, PartialEq, Eq, Structural)]
pub enum ShortcutState {
    /// The key combination went down.
    Pressed,
    /// The key combination came up again.
    Released,
}

/// One call that the shell asks the host to carry out.
#[derive(Clone, Copy, Debug, PartialEq, Eq, Structural)]
pub enum Request {
    /// Look up the main window.
    FindWindow,
    /// Read whether the main window is visible.
    QueryVisibility,
    /// Hide the main window.
    Hide,
    /// Show the main window.
    Show,
    /// Bring the main window to the front and give it focus.
    SetFocus,
}

/// What the host reports of one call.
#[derive(Clone, Copy, Debug, PartialEq, Eq, Structural)]
pub enum Reply {
    /// The lookup found the window.
    Found,
    /// The lookup found no window.
    Absent,
    /// The window is visible.
    Visible,
    /// The window is hidden.
    Hidden,
    /// The call was carried out and has nothing to report.
    Done,
    /// The host reported an error.
    Failed,
}

/// The call that opens the conversation for a shortcut event: a press looks
/// the window up, a release asks for nothing.
pub open spec fn opening_request(state: ShortcutState) -> Option<Request> {
    match state {
        ShortcutState::Pressed => Some(Request::FindWindow),
        ShortcutState::Released => None,
    }
}

/// The call that follows `asked` once the host has answered it with `reply`.
///
/// A lookup goes on only if the window was found, and a visibility query only
/// if it gave an answer. What the host reports of `Hide`, `Show` and
/// `SetFocus` is not looked at: focus is asked after `Show` whether or not
/// showing worked, and nothing is tried twice.
pub open spec fn following_request(asked: Request, reply: Reply) -> Option<Request> {
    match asked {
        Request::FindWindow => if reply == Reply::Found {
            Some(Request::QueryVisibility)
        } else {
            None
        },
        Request::QueryVisibility => if reply == Reply::Visible {
            Some(Request::Hide)
        } else if reply == Reply::Hidden {
            Some(Request::Show)
        } else {
            None
        },
        Request::Show => Some(Request::SetFocus),
        Request::Hide | Request::SetFocus => None,
    }
}

/// An upper bound on the calls of a conversation that are still to be made
/// when `request` is the next one, itself included.
pub open spec fn calls_left(request: Request) -> nat {
    match request {
        Request::FindWindow => 4,
        Request::QueryVisibility => 3,
        Request::Show => 2,
        Request::Hide | Request::SetFocus => 1,
    }
}

/// `calls_left` of a call that may be missing: nothing is left once the
/// conversation is over.
pub open spec fn calls_pending(next: Option<Request>) -> nat {
    match next {
        Some(request) => calls_left(request),
        None => 0,
    }
}

/// Whether `request` changes the window, rather than reading from the host.
pub open spec fn is_effect(request: Request) -> bool {
    request == Request::Hide || request == Request::Show || request == Request::SetFocus
}

/// Starts the conversation for one shortcut event. `None` means that the
/// event asks nothing of the host.
pub fn on_shortcut(state: ShortcutState) -> (first: Option<Request>)
    ensures
        first == opening_request(state),
        state == ShortcutState::Released ==> first is None,
        state == ShortcutState::Pressed ==> first == Some(Request::FindWindow),
{
    match state {
        ShortcutState::Pressed => Some(Request::FindWindow),
        ShortcutState::Released => None,
    }
}

/// Continues the conversation: `asked` is the call that the host has just
/// answered with `reply`. `None` means that the conversation is over.
///
/// Every pair is accepted. A reply that does not fit the call (`Done` to a
/// lookup, say) ends the conversation like a failure does.
pub fn on_reply(asked: Request, reply: Reply) -> (next: Option<Request>)
    ensures
        next == following_request(asked, reply),
        calls_pending(next) < calls_left(asked),
{
    match asked {
        Request::FindWindow => match reply {
            Reply::Found => Some(Request::QueryVisibility),
            _ => None,
        },
        Request::QueryVisibility => match reply {
            Reply::Visible => Some(Request::Hide),
            Reply::Hidden => Some(Request::Show),
            _ => None,
        },
        Request::Show => Some(Request::SetFocus),
        Request::Hide => None,
        Request::SetFocus => None,
    }
}

} // verus!

//! A model of the GUI host, as far as the toggle can observe it.
//!
//! The real host owns the window and may change it behind the shell's back;
//! the shell therefore reads the window anew on every event. This model is a
//! host that does nothing of its own accord and carries out every call that it
//! can: it says what a conversation does to a well-behaved host, and gives
//! callers something to run the toggle against without a GUI.

use vstd::prelude::*;
use crate::toggle::{
    calls_pending, following_request, on_reply, on_shortcut, opening_request, Reply, Request,
    ShortcutState,
};

verus! {

/// Whether a window is on screen.
#[derive(Clone, Copy, Debug, PartialEq, Eq, Structural)]
pub enum Visibility {
    Visible,
    Hidden,
}

/// A host with at most one main window.
#[derive(Clone, Copy, Debug, PartialEq, Eq)]
pub struct ModelHost {
    /// The main window's state, or `None` where the host has no such window.
    pub main_window: Option<Visibility>,
}

impl ModelHost {
    /// What this host answers to `request`.
    ///
    /// Without a window the lookup reports `Absent` and every other call
    /// fails. With one, no call fails.
    pub open spec fn reply_to(self, request: Request) -> Reply {
        match self.main_window {
            None => if request == Request::FindWindow {
                Reply::Absent
            } else {
                Reply::Failed
            },
            Some(visibility) => match request {
                Request::FindWindow => Reply::Found,
                Request::QueryVisibility => if visibility == Visibility::Visible {
                    Reply::Visible
                } else {
                    Reply::Hidden
                },
                Request::Hide | Request::Show | Request::SetFocus => Reply::Done,
            },
        }
    }

    /// This host once it has carried out `request`: `Hide` and `Show` set the
    /// window's visibility, and nothing else changes anything.
    pub open spec fn after(self, request: Request) -> ModelHost {
        match self.main_window {
            None => self,
            Some(_) => match request {
                Request::Hide => ModelHost { main_window: Some(Visibility::Hidden) },
                Request::Show => ModelHost { main_window: Some(Visibility::Visible) },
                _ => self,
            },
        }
    }

    /// This host with its window's visibility flipped. A host without a
    /// window stays as it is.
    pub open spec fn toggled(self) -> ModelHost {
        match self.main_window {
            None => self,
            Some(Visibility::Visible) => ModelHost { main_window: Some(Visibility::Hidden) },
            Some(Visibility::Hidden) => ModelHost { main_window: Some(Visibility::Visible) },
        }
    }

    /// This host once one shortcut event has been handled: a press toggles
    /// the window, a release leaves the host alone.
    pub open spec fn after_shortcut(self, state: ShortcutState) -> ModelHost {
        match state {
            ShortcutState::Pressed => self.toggled(),
            ShortcutState::Released => self,
        }
    }

    /// The calls that handling one shortcut event makes on this host, in the
    /// order in which they are made.
    pub open spec fn calls_for(self, state: ShortcutState) -> Seq<Request> {
        match state {
            ShortcutState::Released => seq![],
            ShortcutState::Pressed => match self.main_window {
                None => seq![Request::FindWindow],
                Some(Visibility::Visible) => seq![
                    Request::FindWindow,
                    Request::QueryVisibility,
                    Request::Hide,
                ],
                Some(Visibility::Hidden) => seq![
                    Request::FindWindow,
                    Request::QueryVisibility,
                    Request::Show,
                    Request::SetFocus,
                ],
            },
        }
    }

    /// This host once the events of `events` have been handled, first to last.
    pub open spec fn after_events(self, events: Seq<ShortcutState>) -> ModelHost
        decreases events.len(),
    {
        if events.len() == 0 {
            self
        } else {
            self.after_events(events.drop_last()).after_shortcut(events.last())
        }
    }

    /// Carries out one call and reports on it.
    pub fn serve(&mut self, request: Request) -> (reply: Reply)
        ensures
            reply == old(self).reply_to(request),
            *final(self) == old(self).after(request),
    {
        match self.main_window {
            None => match request {
                Request::FindWindow => Reply::Absent,
                _ => Reply::Failed,
            },
            Some(visibility) => match request {
                Request::FindWindow => Reply::Found,
                Request::QueryVisibility => match visibility {
                    Visibility::Visible => Reply::Visible,
                    Visibility::Hidden => Reply::Hidden,
                },
                Request::Hide => {
                    self.main_window = Some(Visibility::Hidden);
                    Reply::Done
                },
                Request::Show => {
                    self.main_window = Some(Visibility::Visible);
                    Reply::Done
                },
                Request::SetFocus => Reply::Done,
            },
        }
    }

    /// Handles one shortcut event against this host: holds the conversation
    /// of the toggle to its end, and returns the calls that were made.
    pub fn handle_shortcut(&mut self, state: ShortcutState) -> (calls: Vec<Request>)
        ensures
            *final(self) == old(self).after_shortcut(state),
            calls@ == old(self).calls_for(state),
    {
        let mut calls: Vec<Request> = Vec::new();
        let mut next = on_shortcut(state);
        while next.is_some()
            invariant
                settled(*self, next) == settled(*old(self), opening_request(state)),
                calls@ + calls_made(*self, next) == calls_made(
                    *old(self),
                    opening_request(state),
                ),
            decreases calls_pending(next),
        {
            let request = next.unwrap();
            let reply = self.serve(request);
            calls.push(request);
            proof {
                let rest = calls_made(*self, following_request(request, reply));
                assert(calls@ + rest =~= calls@.drop_last() + (seq![request] + rest));
            }
            next = on_reply(request, reply);
        }
        proof {
            lemma_conversation_toggles(*old(self), state);
            assert(calls@ + Seq::<Request>::empty() =~= calls@);
        }
        calls
    }
}

/// The host at the end of a conversation in which `next` is the call to make
/// now, each call answered by the host as it then stands.
pub open spec fn settled(host: ModelHost, next: Option<Request>) -> ModelHost
    decreases calls_pending(next),
{
    match next {
        None => host,
        Some(request) => settled(
            host.after(request),
            following_request(request, host.reply_to(request)),
        ),
    }
}

/// The calls of that conversation, from `next` on, in order.
pub open spec fn calls_made(host: ModelHost, next: Option<Request>) -> Seq<Request>
    decreases calls_pending(next),
{
    match next {
        None => seq![],
        Some(request) => seq![request] + calls_made(
            host.after(request),
            following_request(request, host.reply_to(request)),
        ),
    }
}

/// Held to its end against a model host, the conversation that a shortcut
/// event opens toggles the window and makes exactly the calls of
/// `calls_for`.
pub proof fn lemma_conversation_toggles(host: ModelHost, state: ShortcutState)
    ensures
        settled(host, opening_request(state)) == host.after_shortcut(state),
        calls_made(host, opening_request(state)) == host.calls_for(state),
{
    reveal_with_fuel(settled, 5);
    reveal_with_fuel(calls_made, 5);
    let made = calls_made(host, opening_request(state));
    assert(made =~= host.calls_for(state));
}

} // verus!

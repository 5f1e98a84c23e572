//! What holds of the toggle, whatever the events and whatever the host.

use vstd::prelude::*;
use crate::host::ModelHost;
use crate::toggle::{calls_left, following_request, is_effect, opening_request, Reply, Request,
    ShortcutState};

verus! {

/// The number of presses among `events`.
pub open spec fn presses(events: Seq<ShortcutState>) -> nat
    decreases events.len(),
{
    if events.len() == 0 {
        0
    } else if events.last() == ShortcutState::Pressed {
        presses(events.drop_last()) + 1
    } else {
        presses(events.drop_last())
    }
}

/// Over a run of presses the window strictly alternates between visible and
/// hidden, starting from the state it had at the first press: each press
/// leaves it in the other state, so two presses in a row never leave it where
/// it was after the first, and they bring it back to where it was before.
pub proof fn law_presses_alternate(host: ModelHost, events: Seq<ShortcutState>)
    requires
        host.main_window is Some,
        forall|i: int| 0 <= i < events.len() ==> events[i] == ShortcutState::Pressed,
    ensures
        host.after_events(events.take(0)) == host,
        forall|i: int|
            0 <= i < events.len() ==> host.after_events(events.take(i + 1)) == (
            #[trigger] host.after_events(events.take(i))).toggled(),
        forall|i: int|
            0 <= i < events.len() ==> host.after_events(events.take(i + 1))
                != #[trigger] host.after_events(events.take(i)),
        forall|i: int|
            0 <= i && i + 2 <= events.len() ==> host.after_events(events.take(i + 2))
                == #[trigger] host.after_events(events.take(i)),
{
    assert(events.take(0).len() == 0);
    assert forall|i: int| 0 <= i < events.len() implies host.after_events(events.take(i + 1))
        == (#[trigger] host.after_events(events.take(i))).toggled() && host.after_events(
        events.take(i + 1),
    ) != host.after_events(events.take(i)) by {
        lemma_press_toggles(host, events, i);
    }
    assert forall|i: int| 0 <= i && i + 2 <= events.len() implies host.after_events(
        events.take(i + 2),
    ) == #[trigger] host.after_events(events.take(i)) by {
        lemma_press_toggles(host, events, i);
        lemma_press_toggles(host, events, i + 1);
    }
}

/// The step of `law_presses_alternate`: where event `i` is a press and the
/// host has a window, the host after that event is the host before it,
/// toggled, and differs from it.
proof fn lemma_press_toggles(host: ModelHost, events: Seq<ShortcutState>, i: int)
    requires
        host.main_window is Some,
        0 <= i < events.len(),
        events[i] == ShortcutState::Pressed,
    ensures
        host.after_events(events.take(i + 1)) == host.after_events(events.take(i)).toggled(),
        host.after_events(events.take(i + 1)) != host.after_events(events.take(i)),
{
    let upto = events.take(i + 1);
    assert(upto.drop_last() =~= events.take(i));
    assert(upto.last() == events[i]);
    law_window_stays(host, events.take(i));
}

/// Only the presses count, and only their parity: after any events the host
/// is as it was where the presses among them are even in number, and toggled
/// where they are odd.
pub proof fn law_only_presses_count(host: ModelHost, events: Seq<ShortcutState>)
    ensures
        host.after_events(events) == if presses(events) % 2 == 0 {
            host
        } else {
            host.toggled()
        },
    decreases events.len(),
{
    if events.len() > 0 {
        law_only_presses_count(host, events.drop_last());
    }
}

/// No event makes a window or takes one away.
pub proof fn law_window_stays(host: ModelHost, events: Seq<ShortcutState>)
    ensures
        host.after_events(events).main_window is Some <==> host.main_window is Some,
    decreases events.len(),
{
    if events.len() > 0 {
        law_window_stays(host, events.drop_last());
    }
}

/// A release changes nothing: it asks nothing of the host, whatever host it
/// is, and a model host is after it as it was before.
pub proof fn law_release_changes_nothing(host: ModelHost)
    ensures
        opening_request(ShortcutState::Released) is None,
        host.calls_for(ShortcutState::Released).len() == 0,
        host.after_shortcut(ShortcutState::Released) == host,
{
}

/// Events that are all releases leave the host as it was.
pub proof fn law_releases_change_nothing(host: ModelHost, events: Seq<ShortcutState>)
    requires
        forall|i: int| 0 <= i < events.len() ==> events[i] == ShortcutState::Released,
    ensures
        host.after_events(events) == host,
    decreases events.len(),
{
    if events.len() > 0 {
        law_releases_change_nothing(host, events.drop_last());
    }
}

/// Where the host has no main window, handling an event has no effect: the
/// host stays as it is, and the lookup is the only call that is made.
pub proof fn law_absent_window_is_left_alone(host: ModelHost, state: ShortcutState)
    requires
        host.main_window is None,
    ensures
        host.after_shortcut(state) == host,
        forall|i: int|
            0 <= i < host.calls_for(state).len() ==> host.calls_for(state)[i]
                == Request::FindWindow,
{
}

/// A lookup that did not find the window ends the conversation, whatever
/// host it is and whatever else it answered.
pub proof fn law_nothing_follows_a_failed_lookup(reply: Reply)
    requires
        reply != Reply::Found,
    ensures
        following_request(Request::FindWindow, reply) is None,
{
}

/// The window is changed only on the strength of what was just read from the
/// host, whatever host it is: `Hide` is asked only of a window reported
/// visible, `Show` only of one reported hidden, and focus only after `Show`.
pub proof fn law_effects_follow_what_was_read(asked: Request, reply: Reply)
    ensures
        following_request(asked, reply) == Some(Request::Hide) <==> asked
            == Request::QueryVisibility && reply == Reply::Visible,
        following_request(asked, reply) == Some(Request::Show) <==> asked
            == Request::QueryVisibility && reply == Reply::Hidden,
        following_request(asked, reply) == Some(Request::SetFocus) <==> asked == Request::Show,
        following_request(asked, reply) == Some(Request::QueryVisibility) <==> asked
            == Request::FindWindow && reply == Reply::Found,
        following_request(asked, reply) != Some(Request::FindWindow),
{
}

/// Best effort: what the host reports of a call that changes the window
/// makes no difference to what is asked next.
pub proof fn law_outcomes_are_not_looked_at(asked: Request, one: Reply, other: Reply)
    requires
        is_effect(asked),
    ensures
        following_request(asked, one) == following_request(asked, other),
{
}

/// Every conversation ends: each call leaves fewer calls to make than the one
/// before it, and the first leaves at most four.
pub proof fn law_conversation_ends(asked: Request, reply: Reply)
    ensures
        calls_left(asked) <= 4,
        following_request(asked, reply) matches Some(next) ==> calls_left(next) < calls_left(
            asked,
        ),
{
}

} // verus!

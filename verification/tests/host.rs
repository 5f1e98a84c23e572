use desktop_shell::host::{ModelHost, Visibility};
use desktop_shell::toggle::{Reply, Request, ShortcutState};

fn host_with(visibility: Visibility) -> ModelHost {
    ModelHost { main_window: Some(visibility) }
}

fn count_of(calls: &[Request], wanted: Request) -> usize {
    calls.iter().filter(|call| **call == wanted).count()
}

#[test]
fn visible_window_hides_on_press_and_comes_back_focused() {
    let mut host = host_with(Visibility::Visible);

    let first = host.handle_shortcut(ShortcutState::Pressed);
    assert_eq!(host.main_window, Some(Visibility::Hidden));
    assert_eq!(first, vec![Request::FindWindow, Request::QueryVisibility, Request::Hide]);

    let second = host.handle_shortcut(ShortcutState::Pressed);
    assert_eq!(host.main_window, Some(Visibility::Visible));
    assert_eq!(
        second,
        vec![Request::FindWindow, Request::QueryVisibility, Request::Show, Request::SetFocus]
    );
    assert_eq!(second.last(), Some(&Request::SetFocus));
}

#[test]
fn hidden_window_shows_on_press_with_focus_asked_once() {
    let mut host = host_with(Visibility::Hidden);
    let calls = host.handle_shortcut(ShortcutState::Pressed);
    assert_eq!(host.main_window, Some(Visibility::Visible));
    assert_eq!(count_of(&calls, Request::SetFocus), 1);
    assert_eq!(count_of(&calls, Request::Show), 1);
    assert_eq!(count_of(&calls, Request::Hide), 0);
    assert_eq!(
        calls,
        vec![Request::FindWindow, Request::QueryVisibility, Request::Show, Request::SetFocus]
    );
}

#[test]
fn presses_alternate_from_the_starting_state() {
    for start in [Visibility::Visible, Visibility::Hidden] {
        let other = if start == Visibility::Visible { Visibility::Hidden } else { Visibility::Visible };
        let mut host = host_with(start);
        for press in 1..=9 {
            let before = host.main_window;
            host.handle_shortcut(ShortcutState::Pressed);
            assert_ne!(host.main_window, before);
            let expected = if press % 2 == 1 { other } else { start };
            assert_eq!(host.main_window, Some(expected));
        }
    }
}

#[test]
fn release_changes_nothing() {
    for start in [Visibility::Visible, Visibility::Hidden] {
        let mut host = host_with(start);
        let calls = host.handle_shortcut(ShortcutState::Released);
        assert!(calls.is_empty());
        assert_eq!(host, host_with(start));
    }
}

#[test]
fn releases_between_presses_do_not_count() {
    let mut host = host_with(Visibility::Visible);
    host.handle_shortcut(ShortcutState::Pressed);
    host.handle_shortcut(ShortcutState::Released);
    assert_eq!(host.main_window, Some(Visibility::Hidden));
    host.handle_shortcut(ShortcutState::Pressed);
    host.handle_shortcut(ShortcutState::Released);
    assert_eq!(host.main_window, Some(Visibility::Visible));
}

#[test]
fn absent_window_is_left_alone() {
    let mut host = ModelHost { main_window: None };
    let calls = host.handle_shortcut(ShortcutState::Pressed);
    assert_eq!(calls, vec![Request::FindWindow]);
    assert_eq!(host, ModelHost { main_window: None });

    let calls = host.handle_shortcut(ShortcutState::Released);
    assert!(calls.is_empty());
    assert_eq!(host, ModelHost { main_window: None });
}

#[test]
fn model_host_answers_lookups_and_queries_without_changing() {
    let mut host = host_with(Visibility::Hidden);
    assert_eq!(host.serve(Request::FindWindow), Reply::Found);
    assert_eq!(host.serve(Request::QueryVisibility), Reply::Hidden);
    assert_eq!(host, host_with(Visibility::Hidden));

    let mut host = host_with(Visibility::Visible);
    assert_eq!(host.serve(Request::QueryVisibility), Reply::Visible);
    assert_eq!(host.serve(Request::SetFocus), Reply::Done);
    assert_eq!(host, host_with(Visibility::Visible));
}

#[test]
fn model_host_carries_out_hide_and_show() {
    let mut host = host_with(Visibility::Visible);
    assert_eq!(host.serve(Request::Hide), Reply::Done);
    assert_eq!(host.main_window, Some(Visibility::Hidden));
    assert_eq!(host.serve(Request::Hide), Reply::Done);
    assert_eq!(host.main_window, Some(Visibility::Hidden));
    assert_eq!(host.serve(Request::Show), Reply::Done);
    assert_eq!(host.main_window, Some(Visibility::Visible));
}

#[test]
fn model_host_without_a_window_fails_every_call_but_the_lookup() {
    let mut host = ModelHost { main_window: None };
    assert_eq!(host.serve(Request::FindWindow), Reply::Absent);
    for request in [Request::QueryVisibility, Request::Hide, Request::Show, Request::SetFocus] {
        assert_eq!(host.serve(request), Reply::Failed);
        assert_eq!(host.main_window, None);
    }
}

#[test]
fn window_changed_behind_the_shell_is_read_anew() {
    let mut host = host_with(Visibility::Visible);
    host.handle_shortcut(ShortcutState::Pressed);
    assert_eq!(host.main_window, Some(Visibility::Hidden));

    host.main_window = Some(Visibility::Visible);
    let calls = host.handle_shortcut(ShortcutState::Pressed);
    assert_eq!(host.main_window, Some(Visibility::Hidden));
    assert_eq!(calls, vec![Request::FindWindow, Request::QueryVisibility, Request::Hide]);
}

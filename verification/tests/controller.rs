//! Scenario tests driving the navigation controller with key events and
//! remote-call outcomes.

use agenda_client::client::{Action, Client, Key, Response};
use agenda_client::resource::{AgendaItem, ApiError, Level, Motion, ResourceKind, Session};

fn session(id: &str, name: &str) -> Session {
    Session {
        name: name.to_string(),
        datetime: "2024-05-01 10:00:00".to_string(),
        id: id.to_string(),
    }
}

fn item(id: &str, name: &str, content: &str) -> AgendaItem {
    AgendaItem { name: name.to_string(), id: id.to_string(), content: content.to_string(), weight: 0 }
}

fn three_sessions() -> Vec<Session> {
    vec![session("s-a", "A"), session("s-b", "B"), session("s-c", "C")]
}

/// Drives a client into Session A's agenda-item list holding `items`.
fn drill_into_first_session(items: Vec<AgendaItem>) -> Client {
    let mut c = Client::new(three_sessions());
    let action = c.handle_key(Key::Char('o'));
    match action {
        Action::FetchList { kind, scope } => {
            assert_eq!(kind, ResourceKind::AgendaItem);
            assert_eq!(scope, Some("s-a".to_string()));
        }
        other => panic!("expected a list fetch, got {:?}", action_name(&other)),
    }
    let next = c.apply_response(Response::AgendaItemList(Ok(items)));
    assert!(matches!(next, Action::Nothing));
    assert_eq!(c.level(), Level::AgendaItems);
    c
}

fn action_name(a: &Action) -> &'static str {
    match a {
        Action::Nothing => "Nothing",
        Action::Quit => "Quit",
        Action::FetchList { .. } => "FetchList",
        Action::FetchOne { .. } => "FetchOne",
        Action::Create { .. } => "Create",
        Action::Patch { .. } => "Patch",
        Action::Delete { .. } => "Delete",
    }
}

#[test]
fn three_sessions_next_lands_on_second_and_wraps_from_last() {
    let mut c = Client::new(three_sessions());
    assert_eq!(c.sessions().selected_index(), Some(0));
    c.handle_key(Key::Char('j'));
    assert_eq!(c.sessions().selected_index(), Some(1));
    assert_eq!(c.sessions().get(1).name, "B");
    c.handle_key(Key::Char('j'));
    assert_eq!(c.sessions().selected_index(), Some(2));
    c.handle_key(Key::Char('j'));
    assert_eq!(c.sessions().selected_index(), Some(0));
    assert_eq!(c.sessions().get(0).name, "A");
}

#[test]
fn quit_key_at_session_level_quits() {
    let mut c = Client::new(three_sessions());
    let action = c.handle_key(Key::Char('q'));
    assert!(matches!(action, Action::Quit));
    let action = c.handle_key(Key::Esc);
    assert!(matches!(action, Action::Quit));
}

#[test]
fn drill_down_and_back_keeps_session_selection_and_agenda_list() {
    let mut c = drill_into_first_session(vec![item("t-x", "X", "one"), item("t-y", "Y", "two")]);
    assert_eq!(c.agenda_items().len(), 2);
    assert_eq!(c.agenda_items().selected_index(), Some(0));
    assert_eq!(c.focused_session().unwrap().id, "s-a");

    let action = c.handle_key(Key::Esc);
    assert!(matches!(action, Action::Nothing));
    assert_eq!(c.level(), Level::Sessions);
    assert_eq!(c.sessions().selected_index(), Some(0));
    assert_eq!(c.sessions().get(0).name, "A");
    // The agenda-item list is only out of view; it is retained until the
    // next fetch replaces it.
    assert_eq!(c.agenda_items().len(), 2);
}

#[test]
fn failed_drill_down_fetch_keeps_previous_level() {
    let mut c = Client::new(three_sessions());
    c.handle_key(Key::Char('o'));
    let next = c.apply_response(Response::AgendaItemList(Err(ApiError::Transport)));
    assert!(matches!(next, Action::Nothing));
    assert_eq!(c.level(), Level::Sessions);
    assert!(c.focused_session().is_none());
    // The controller is interactive again.
    let mut c2 = c;
    c2.handle_key(Key::Char('j'));
    assert_eq!(c2.sessions().selected_index(), Some(1));
}

#[test]
fn keys_are_ignored_while_a_call_is_outstanding() {
    let mut c = Client::new(three_sessions());
    c.handle_key(Key::Char('o'));
    assert!(!c.is_idle());
    let action = c.handle_key(Key::Char('j'));
    assert!(matches!(action, Action::Nothing));
    assert_eq!(c.sessions().selected_index(), Some(0));
}

#[test]
fn editing_agenda_item_patches_changed_content_once() {
    let mut c = drill_into_first_session(vec![item("t-x", "X", "old"), item("t-y", "Y", "two")]);

    // Edit the selected item X; the controller first asks for its
    // authoritative current value.
    let action = c.handle_key(Key::Char('e'));
    match action {
        Action::FetchOne { kind, id } => {
            assert_eq!(kind, ResourceKind::AgendaItem);
            assert_eq!(id, "t-x");
        }
        other => panic!("expected a single fetch, got {:?}", action_name(&other)),
    }
    let next = c.apply_response(Response::OneAgendaItem(Ok(item("t-x", "X", "old"))));
    assert!(matches!(next, Action::Nothing));
    assert!(!c.is_browsing());

    // Move to the "Content" field and open the field editor.
    c.handle_key(Key::Char('j'));
    let action = c.handle_key(Key::Char('e'));
    assert!(matches!(action, Action::Nothing));
    assert!(c.is_field_editing());
    let p = c.editing_param().unwrap();
    assert_eq!(p.label, "Content");
    assert_eq!(p.text, "old");

    // Close the editor with the new text, then leave the edit buffer.
    c.commit_field("new".to_string());
    assert!(!c.is_field_editing());
    let action = c.handle_key(Key::Esc);
    match action {
        Action::Patch { kind, id, parent, fields } => {
            assert_eq!(kind, ResourceKind::AgendaItem);
            assert_eq!(id, "t-x");
            assert_eq!(parent, Some("s-a".to_string()));
            assert_eq!(fields.len(), 2);
            assert_eq!(fields[0].name, "title");
            assert_eq!(fields[0].value, "X");
            assert_eq!(fields[1].name, "content");
            assert_eq!(fields[1].value, "new");
        }
        other => panic!("expected a patch, got {:?}", action_name(&other)),
    }

    // Exactly one patch: the success response triggers only re-fetches.
    let action = c.apply_response(Response::Mutated(Ok(())));
    match action {
        Action::FetchList { kind, scope } => {
            assert_eq!(kind, ResourceKind::Session);
            assert_eq!(scope, None);
        }
        other => panic!("expected the session re-fetch, got {:?}", action_name(&other)),
    }
    assert!(c.is_browsing());
    let action = c.apply_response(Response::SessionList(Ok(three_sessions())));
    match action {
        Action::FetchList { kind, scope } => {
            assert_eq!(kind, ResourceKind::AgendaItem);
            assert_eq!(scope, Some("s-a".to_string()));
        }
        other => panic!("expected the agenda re-fetch, got {:?}", action_name(&other)),
    }
    let action = c.apply_response(Response::AgendaItemList(Ok(vec![item("t-x", "X", "new")])));
    assert!(matches!(action, Action::Nothing));
    assert!(c.is_idle());
    assert_eq!(c.agenda_items().get(0).content, "new");
}

#[test]
fn failed_commit_keeps_the_edit_buffer_open() {
    let mut c = Client::new(three_sessions());
    let action = c.handle_key(Key::Char('p'));
    assert!(matches!(action, Action::Nothing));
    assert!(!c.is_browsing());
    let action = c.handle_key(Key::Esc);
    assert!(matches!(action, Action::Create { .. }));
    let next = c.apply_response(Response::Mutated(Err(ApiError::Transport)));
    assert!(matches!(next, Action::Nothing));
    // The buffer survives for a retry.
    assert!(!c.is_browsing());
    assert!(c.is_idle());
    let es = c.edit_session().unwrap();
    assert_eq!(es.fields().len(), 2);
}

#[test]
fn create_motion_is_scoped_under_focused_agenda_item() {
    let mut c = drill_into_first_session(vec![item("t-x", "X", "one")]);
    let action = c.handle_key(Key::Char('o'));
    match action {
        Action::FetchList { kind, scope } => {
            assert_eq!(kind, ResourceKind::Motion);
            assert_eq!(scope, Some("t-x".to_string()));
        }
        other => panic!("expected the motion fetch, got {:?}", action_name(&other)),
    }
    c.apply_response(Response::MotionList(Ok(Vec::<Motion>::new())));
    assert_eq!(c.level(), Level::Motions);

    c.handle_key(Key::Char('p'));
    let action = c.handle_key(Key::Char('q'));
    match action {
        Action::Create { kind, scope, fields } => {
            assert_eq!(kind, ResourceKind::Motion);
            assert_eq!(scope, Some("t-x".to_string()));
            assert_eq!(fields.len(), 4);
            assert_eq!(fields[3].name, "proposer");
            assert_eq!(fields[3].value, "");
        }
        other => panic!("expected a create, got {:?}", action_name(&other)),
    }
}

#[test]
fn deleting_only_agenda_item_leaves_empty_unselected_list() {
    let mut c = drill_into_first_session(vec![item("t-x", "X", "one")]);
    assert_eq!(c.agenda_items().len(), 1);

    let action = c.handle_key(Key::Char('d'));
    match action {
        Action::Delete { kind, id } => {
            assert_eq!(kind, ResourceKind::AgendaItem);
            assert_eq!(id, "t-x");
        }
        other => panic!("expected a delete, got {:?}", action_name(&other)),
    }
    let action = c.apply_response(Response::Mutated(Ok(())));
    match action {
        Action::FetchList { kind, scope } => {
            assert_eq!(kind, ResourceKind::AgendaItem);
            assert_eq!(scope, Some("s-a".to_string()));
        }
        other => panic!("expected the owning-list re-fetch, got {:?}", action_name(&other)),
    }
    let action = c.apply_response(Response::AgendaItemList(Ok(Vec::new())));
    assert!(matches!(action, Action::Nothing));
    assert_eq!(c.agenda_items().len(), 0);
    assert_eq!(c.agenda_items().selected_index(), None);
}

#[test]
fn unselect_and_next_restores_session_selection() {
    let mut c = Client::new(three_sessions());
    c.handle_key(Key::Char('j'));
    c.handle_key(Key::Char('j'));
    assert_eq!(c.sessions().selected_index(), Some(2));
    c.handle_key(Key::Char('h'));
    assert_eq!(c.sessions().selected_index(), None);
    c.handle_key(Key::Char('j'));
    assert_eq!(c.sessions().selected_index(), Some(2));
}

#[test]
fn arrow_keys_navigate_like_letter_keys() {
    let mut c = Client::new(three_sessions());
    c.handle_key(Key::Down);
    assert_eq!(c.sessions().selected_index(), Some(1));
    c.handle_key(Key::Up);
    assert_eq!(c.sessions().selected_index(), Some(0));
    c.handle_key(Key::Left);
    assert_eq!(c.sessions().selected_index(), None);
}

#[test]
fn keys_are_ignored_while_field_editor_is_open() {
    let mut c = Client::new(three_sessions());
    c.handle_key(Key::Char('p'));
    c.handle_key(Key::Char('e'));
    assert!(c.is_field_editing());
    // Keystrokes belong to the text buffer outside the core; the
    // controller itself must not move.
    let action = c.handle_key(Key::Char('j'));
    assert!(matches!(action, Action::Nothing));
    assert!(c.is_field_editing());
    c.commit_field("2024-06-01 09:00:00".to_string());
    assert!(!c.is_field_editing());
    let es = c.edit_session().unwrap();
    assert_eq!(es.fields().get(0).text, "2024-06-01 09:00:00");
}

#[test]
fn commit_of_motion_edit_refetches_all_three_levels() {
    let mut c = drill_into_first_session(vec![item("t-x", "X", "one")]);
    c.handle_key(Key::Char('o'));
    c.apply_response(Response::MotionList(Ok(vec![Motion {
        id: "m-1".to_string(),
        title: "M".to_string(),
        rationale: "r".to_string(),
        body: "b".to_string(),
    }])));
    assert_eq!(c.level(), Level::Motions);

    c.handle_key(Key::Char('e'));
    c.apply_response(Response::OneMotion(Ok(Motion {
        id: "m-1".to_string(),
        title: "M".to_string(),
        rationale: "r".to_string(),
        body: "b".to_string(),
    })));
    let action = c.handle_key(Key::Esc);
    match action {
        Action::Patch { kind, id, parent, fields } => {
            assert_eq!(kind, ResourceKind::Motion);
            assert_eq!(id, "m-1");
            assert_eq!(parent, None);
            assert_eq!(fields.len(), 3);
        }
        other => panic!("expected a patch, got {:?}", action_name(&other)),
    }
    let action = c.apply_response(Response::Mutated(Ok(())));
    assert!(matches!(
        action,
        Action::FetchList { kind: ResourceKind::Session, .. }
    ));
    let action = c.apply_response(Response::SessionList(Ok(three_sessions())));
    assert!(matches!(
        action,
        Action::FetchList { kind: ResourceKind::AgendaItem, .. }
    ));
    let action = c.apply_response(Response::AgendaItemList(Ok(vec![item("t-x", "X", "one")])));
    match action {
        Action::FetchList { kind, scope } => {
            assert_eq!(kind, ResourceKind::Motion);
            assert_eq!(scope, Some("t-x".to_string()));
        }
        other => panic!("expected the motion re-fetch, got {:?}", action_name(&other)),
    }
    let action = c.apply_response(Response::MotionList(Ok(Vec::new())));
    assert!(matches!(action, Action::Nothing));
    assert!(c.is_idle());
    assert_eq!(c.motions().len(), 0);
    assert_eq!(c.motions().selected_index(), None);
}

#[test]
fn failed_refresh_keeps_previous_list() {
    let mut c = drill_into_first_session(vec![item("t-x", "X", "one")]);
    c.handle_key(Key::Char('d'));
    c.apply_response(Response::Mutated(Ok(())));
    let action = c.apply_response(Response::AgendaItemList(Err(ApiError::Decode)));
    assert!(matches!(action, Action::Nothing));
    assert!(c.is_idle());
    // The previously displayed list is left intact.
    assert_eq!(c.agenda_items().len(), 1);
    assert_eq!(c.agenda_items().get(0).name, "X");
}

#[test]
fn failed_delete_does_not_refetch() {
    let mut c = Client::new(three_sessions());
    c.handle_key(Key::Char('d'));
    let action = c.apply_response(Response::Mutated(Err(ApiError::Transport)));
    assert!(matches!(action, Action::Nothing));
    assert!(c.is_idle());
    assert_eq!(c.sessions().len(), 3);
}

#[test]
fn editing_session_uses_fetched_authoritative_values() {
    let mut c = Client::new(three_sessions());
    let action = c.handle_key(Key::Char('e'));
    match action {
        Action::FetchOne { kind, id } => {
            assert_eq!(kind, ResourceKind::Session);
            assert_eq!(id, "s-a");
        }
        other => panic!("expected a single fetch, got {:?}", action_name(&other)),
    }
    // The server's value is newer than the one in the list.
    c.apply_response(Response::OneSession(Ok(session("s-a", "A renamed"))));
    let es = c.edit_session().unwrap();
    assert_eq!(es.fields().get(1).label, "Name");
    assert_eq!(es.fields().get(1).text, "A renamed");
}

//! The edit buffer: schema labels, pre-population, and body construction.

use agenda_client::edit::EditSession;
use agenda_client::resource::{AgendaItem, Motion, Resource, ResourceKind, Session};

fn sample_session() -> Session {
    Session {
        name: "Weekly sync".to_string(),
        datetime: "2024-05-01 10:00:00".to_string(),
        id: "s-1".to_string(),
    }
}

fn sample_item() -> AgendaItem {
    AgendaItem {
        name: "Budget".to_string(),
        id: "t-1".to_string(),
        content: "old".to_string(),
        weight: 3,
    }
}

fn sample_motion() -> Motion {
    Motion {
        id: "m-1".to_string(),
        title: "Buy a projector".to_string(),
        rationale: "The old one flickers".to_string(),
        body: "We resolve to buy one".to_string(),
    }
}

#[test]
fn create_session_has_fixed_labels_with_empty_text() {
    let es = EditSession::begin_create(ResourceKind::Session);
    assert!(es.is_creating());
    assert_eq!(es.fields().len(), 2);
    assert_eq!(es.fields().get(0).label, "Date");
    assert_eq!(es.fields().get(0).text, "");
    assert_eq!(es.fields().get(1).label, "Name");
    assert_eq!(es.fields().get(1).text, "");
}

#[test]
fn create_agenda_item_has_fixed_labels_with_empty_text() {
    let es = EditSession::begin_create(ResourceKind::AgendaItem);
    assert_eq!(es.fields().len(), 2);
    assert_eq!(es.fields().get(0).label, "Title");
    assert_eq!(es.fields().get(1).label, "Content");
    assert_eq!(es.fields().get(0).text, "");
    assert_eq!(es.fields().get(1).text, "");
}

#[test]
fn create_motion_has_proposer_field() {
    let es = EditSession::begin_create(ResourceKind::Motion);
    assert_eq!(es.fields().len(), 4);
    assert_eq!(es.fields().get(0).label, "Title");
    assert_eq!(es.fields().get(1).label, "Rationale");
    assert_eq!(es.fields().get(2).label, "Body");
    assert_eq!(es.fields().get(3).label, "Proposer");
}

#[test]
fn edit_motion_has_no_proposer_field() {
    let es = EditSession::begin_edit(Resource::Motion(sample_motion()));
    assert!(!es.is_creating());
    assert_eq!(es.fields().len(), 3);
    assert_eq!(es.fields().get(0).label, "Title");
    assert_eq!(es.fields().get(1).label, "Rationale");
    assert_eq!(es.fields().get(2).label, "Body");
}

#[test]
fn edit_prepopulates_from_resource() {
    let es = EditSession::begin_edit(Resource::Session(sample_session()));
    assert_eq!(es.fields().get(0).label, "Date");
    assert_eq!(es.fields().get(0).text, "2024-05-01 10:00:00");
    assert_eq!(es.fields().get(1).label, "Name");
    assert_eq!(es.fields().get(1).text, "Weekly sync");
    assert_eq!(es.original_id(), Some("s-1".to_string()));
}

#[test]
fn unmodified_edit_body_round_trips_field_values() {
    let es = EditSession::begin_edit(Resource::AgendaItem(sample_item()));
    let body = es.body();
    assert_eq!(body.len(), 2);
    assert_eq!(body[0].name, "title");
    assert_eq!(body[0].value, "Budget");
    assert_eq!(body[1].name, "content");
    assert_eq!(body[1].value, "old");
}

#[test]
fn motion_body_lowercases_all_labels() {
    let es = EditSession::begin_edit(Resource::Motion(sample_motion()));
    let body = es.body();
    assert_eq!(body.len(), 3);
    assert_eq!(body[0].name, "title");
    assert_eq!(body[0].value, "Buy a projector");
    assert_eq!(body[1].name, "rationale");
    assert_eq!(body[1].value, "The old one flickers");
    assert_eq!(body[2].name, "body");
    assert_eq!(body[2].value, "We resolve to buy one");
}

#[test]
fn commit_field_writes_selected_field_text() {
    let mut es = EditSession::begin_edit(Resource::AgendaItem(sample_item()));
    es.next_field();
    assert_eq!(es.fields().selected_index(), Some(1));
    es.commit_field("new".to_string());
    assert_eq!(es.fields().get(1).label, "Content");
    assert_eq!(es.fields().get(1).text, "new");
    let body = es.body();
    assert_eq!(body[1].name, "content");
    assert_eq!(body[1].value, "new");
    assert_eq!(body[0].value, "Budget");
}

#[test]
fn commit_field_without_selection_changes_nothing() {
    let mut es = EditSession::begin_create(ResourceKind::Session);
    es.unselect_field();
    es.commit_field("ignored".to_string());
    assert_eq!(es.fields().get(0).text, "");
    assert_eq!(es.fields().get(1).text, "");
}

#[test]
fn field_navigation_cycles_over_fields() {
    let mut es = EditSession::begin_create(ResourceKind::Motion);
    assert_eq!(es.fields().selected_index(), Some(0));
    es.next_field();
    es.next_field();
    es.next_field();
    assert_eq!(es.fields().selected_index(), Some(3));
    es.next_field();
    assert_eq!(es.fields().selected_index(), Some(0));
    es.previous_field();
    assert_eq!(es.fields().selected_index(), Some(3));
}

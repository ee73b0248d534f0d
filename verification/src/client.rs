//! The navigation controller: one state machine that owns the three
//! hierarchy lists, the drill-down focus, and the active edit buffer.
//!
//! The controller is driven from outside: every key event is handed to
//! [`Client::handle_key`], which changes the state and hands back the one
//! remote [`Action`] the event calls for (or none).  The surrounding program
//! performs the action and feeds the outcome back through
//! [`Client::apply_response`], which absorbs it and may hand back the next
//! action of a synchronisation chain.  While an action is outstanding the
//! controller ignores further keys, so at most one remote call is ever in
//! flight.

use vstd::prelude::*;

use core::mem;

use crate::edit::{
    begin_create_model, begin_edit_model, body_model, commit_field_model, edit_wf, with_fields,
    BodyField, BodyFieldModel, EditModel, EditSession, Param, ParamModel,
};
use crate::list::{
    fresh_list, list_wf, next_model, previous_model, unselect_model, ListModel, SelectableList,
};
use crate::resource::{
    id_of_resource, AgendaItem, AgendaItemModel, ApiError, Level, Motion, MotionModel, Resource,
    ResourceKind, ResourceModel, Session, SessionModel,
};

verus! {

/// A key event, reduced to what the controller distinguishes.
#[derive(Clone, Copy, PartialEq, Eq, Structural, Debug)]
pub enum Key {
    Esc,
    Down,
    Up,
    Left,
    Char(char),
    Other,
}

/// The keys that quit the current context.
pub open spec fn is_quit_key(key: Key) -> bool {
    key == Key::Esc || key == Key::Char('q')
}

/// The keys that move the cursor down.
pub open spec fn is_down_key(key: Key) -> bool {
    key == Key::Down || key == Key::Char('j')
}

/// The keys that move the cursor up.
pub open spec fn is_up_key(key: Key) -> bool {
    key == Key::Up || key == Key::Char('k')
}

/// The keys that clear the selection.
pub open spec fn is_left_key(key: Key) -> bool {
    key == Key::Left || key == Key::Char('h')
}

/// One remote call the surrounding program is asked to perform.
pub enum Action {
    /// No remote work.
    Nothing,
    /// Terminate the program.
    Quit,
    /// Fetch the list of resources of `kind`, scoped under the parent
    /// identified by `scope` where the kind has a parent.
    FetchList { kind: ResourceKind, scope: Option<String> },
    /// Fetch the current authoritative value of one resource.
    FetchOne { kind: ResourceKind, id: String },
    /// Create a resource of `kind` under the parent identified by `scope`
    /// (no scope for a session), with the given body fields.
    Create { kind: ResourceKind, scope: Option<String>, fields: Vec<BodyField> },
    /// Patch the resource identified by `id`; an agenda item additionally
    /// names its owning session in `parent`.
    Patch { kind: ResourceKind, id: String, parent: Option<String>, fields: Vec<BodyField> },
    /// Delete the resource identified by `id`.
    Delete { kind: ResourceKind, id: String },
}

/// Model of an [`Action`].
pub ghost enum ActionModel {
    Nothing,
    Quit,
    FetchList { kind: ResourceKind, scope: Option<Seq<char>> },
    FetchOne { kind: ResourceKind, id: Seq<char> },
    Create { kind: ResourceKind, scope: Option<Seq<char>>, fields: Seq<BodyFieldModel> },
    Patch {
        kind: ResourceKind,
        id: Seq<char>,
        parent: Option<Seq<char>>,
        fields: Seq<BodyFieldModel>,
    },
    Delete { kind: ResourceKind, id: Seq<char> },
}

/// Model of an optional string.
pub open spec fn opt_str_model(o: Option<String>) -> Option<Seq<char>> {
    match o {
        Some(s) => Some(s@),
        None => None,
    }
}

impl View for Action {
    type V = ActionModel;

    open spec fn view(&self) -> ActionModel {
        match self {
            Action::Nothing => ActionModel::Nothing,
            Action::Quit => ActionModel::Quit,
            Action::FetchList { kind, scope } => ActionModel::FetchList {
                kind: *kind,
                scope: opt_str_model(*scope),
            },
            Action::FetchOne { kind, id } => ActionModel::FetchOne { kind: *kind, id: id@ },
            Action::Create { kind, scope, fields } => ActionModel::Create {
                kind: *kind,
                scope: opt_str_model(*scope),
                fields: fields.deep_view(),
            },
            Action::Patch { kind, id, parent, fields } => ActionModel::Patch {
                kind: *kind,
                id: id@,
                parent: opt_str_model(*parent),
                fields: fields.deep_view(),
            },
            Action::Delete { kind, id } => ActionModel::Delete { kind: *kind, id: id@ },
        }
    }
}

/// The outcome of a remote call, handed back by the surrounding program.
pub enum Response {
    /// The fetched session list.
    SessionList(Result<Vec<Session>, ApiError>),
    /// The fetched agenda-item list.
    AgendaItemList(Result<Vec<AgendaItem>, ApiError>),
    /// The fetched motion list.
    MotionList(Result<Vec<Motion>, ApiError>),
    /// One fetched session.
    OneSession(Result<Session, ApiError>),
    /// One fetched agenda item.
    OneAgendaItem(Result<AgendaItem, ApiError>),
    /// One fetched motion.
    OneMotion(Result<Motion, ApiError>),
    /// The outcome of a create, patch or delete call.
    Mutated(Result<(), ApiError>),
}

/// Model of a [`Response`].
pub ghost enum ResponseModel {
    SessionList(Result<Seq<SessionModel>, ApiError>),
    AgendaItemList(Result<Seq<AgendaItemModel>, ApiError>),
    MotionList(Result<Seq<MotionModel>, ApiError>),
    OneSession(Result<SessionModel, ApiError>),
    OneAgendaItem(Result<AgendaItemModel, ApiError>),
    OneMotion(Result<MotionModel, ApiError>),
    Mutated(Result<(), ApiError>),
}

impl View for Response {
    type V = ResponseModel;

    open spec fn view(&self) -> ResponseModel {
        match self {
            Response::SessionList(res) => ResponseModel::SessionList(
                match res {
                    Ok(v) => Ok(v.deep_view()),
                    Err(e) => Err(*e),
                },
            ),
            Response::AgendaItemList(res) => ResponseModel::AgendaItemList(
                match res {
                    Ok(v) => Ok(v.deep_view()),
                    Err(e) => Err(*e),
                },
            ),
            Response::MotionList(res) => ResponseModel::MotionList(
                match res {
                    Ok(v) => Ok(v.deep_view()),
                    Err(e) => Err(*e),
                },
            ),
            Response::OneSession(res) => ResponseModel::OneSession(
                match res {
                    Ok(s) => Ok(s@),
                    Err(e) => Err(*e),
                },
            ),
            Response::OneAgendaItem(res) => ResponseModel::OneAgendaItem(
                match res {
                    Ok(t) => Ok(t@),
                    Err(e) => Err(*e),
                },
            ),
            Response::OneMotion(res) => ResponseModel::OneMotion(
                match res {
                    Ok(a) => Ok(a@),
                    Err(e) => Err(*e),
                },
            ),
            Response::Mutated(res) => ResponseModel::Mutated(
                match res {
                    Ok(u) => Ok(*u),
                    Err(e) => Err(*e),
                },
            ),
        }
    }
}

/// The one remote call the controller is waiting on, with what it will do
/// with the outcome.
enum Pending {
    Idle,
    OpeningSession(Session),
    OpeningItem(AgendaItem),
    StartingEdit(ResourceKind),
    Deleting(ResourceKind),
    RefreshingAfterDelete(ResourceKind),
    Committing,
    SyncSessions,
    SyncAgendaItems,
    SyncMotions,
}

/// Model of the outstanding remote call.
pub ghost enum PendingModel {
    Idle,
    OpeningSession(SessionModel),
    OpeningItem(AgendaItemModel),
    StartingEdit(ResourceKind),
    Deleting(ResourceKind),
    RefreshingAfterDelete(ResourceKind),
    Committing,
    SyncSessions,
    SyncAgendaItems,
    SyncMotions,
}

/// The active interaction mode: browsing a level, staging an edit, or
/// editing the text of one field.
enum NavMode {
    Browsing,
    Editing(EditSession),
    FieldEditing(EditSession, Param),
}

/// Model of the interaction mode.
pub ghost enum ModeModel {
    Browsing,
    Editing(EditModel),
    FieldEditing(EditModel, ParamModel),
}

/// Model of the whole controller state.
#[verifier::ext_equal]
pub ghost struct ClientModel {
    pub sessions: ListModel<SessionModel>,
    pub agenda_items: ListModel<AgendaItemModel>,
    pub motions: ListModel<MotionModel>,
    pub focused_session: Option<SessionModel>,
    pub focused_item: Option<AgendaItemModel>,
    pub level: Level,
    pub mode: ModeModel,
    pub pending: PendingModel,
}

/// The drill-down focus an edit buffer relies on for its commit: a created
/// or patched agenda item is scoped under the focused session, a created
/// motion under the focused agenda item.
pub open spec fn scope_ok(m: ClientModel, es: EditModel) -> bool {
    &&& (es.kind == ResourceKind::AgendaItem ==> m.focused_session is Some)
    &&& (es.creating && es.kind == ResourceKind::Motion ==> m.focused_item is Some)
}

/// The focus a delete refresh relies on: the owning list of the deleted
/// kind can be re-fetched.
pub open spec fn refetch_scope_ok(m: ClientModel, kind: ResourceKind) -> bool {
    &&& (kind == ResourceKind::AgendaItem ==> m.focused_session is Some)
    &&& (kind == ResourceKind::Motion ==> m.focused_item is Some)
}

/// Well-formedness of the controller state.
pub open spec fn client_wf(m: ClientModel) -> bool {
    &&& list_wf(m.sessions)
    &&& list_wf(m.agenda_items)
    &&& list_wf(m.motions)
    &&& (m.level == Level::AgendaItems ==> m.focused_session is Some)
    &&& (m.level == Level::Motions ==> m.focused_session is Some && m.focused_item is Some)
    &&& (m.mode matches ModeModel::Editing(es) ==> edit_wf(es) && scope_ok(m, es))
    &&& (m.mode matches ModeModel::FieldEditing(es, p) ==> edit_wf(es) && scope_ok(m, es) && (
    es.fields.selected matches Some(i) && es.fields.items[i] == p))
    &&& (m.pending matches PendingModel::OpeningItem(_) ==> m.focused_session is Some)
    &&& (m.pending matches PendingModel::StartingEdit(k) ==> refetch_scope_ok(m, k))
    &&& (m.pending matches PendingModel::Deleting(k) ==> refetch_scope_ok(m, k))
    &&& (m.pending matches PendingModel::RefreshingAfterDelete(k) ==> refetch_scope_ok(m, k))
    &&& (m.pending is Committing ==> m.mode is Editing)
    &&& (!(m.pending is Idle) && !(m.pending is Committing) ==> m.mode is Browsing)
    &&& (m.pending is SyncAgendaItems ==> m.focused_session is Some)
    &&& (m.pending is SyncMotions ==> m.focused_item is Some)
}

/// The state the controller starts in: the fetched sessions, nothing
/// focused, browsing the session level.
pub open spec fn initial_model(sessions: Seq<SessionModel>) -> ClientModel {
    ClientModel {
        sessions: fresh_list(sessions),
        agenda_items: fresh_list(Seq::empty()),
        motions: fresh_list(Seq::empty()),
        focused_session: None,
        focused_item: None,
        level: Level::Sessions,
        mode: ModeModel::Browsing,
        pending: PendingModel::Idle,
    }
}

/// The list scope a create commit is aimed at: the focused parent of the
/// created kind.
pub open spec fn create_scope(m: ClientModel, kind: ResourceKind) -> Option<Seq<char>> {
    match kind {
        ResourceKind::Session => None,
        ResourceKind::AgendaItem => Some(m.focused_session->0.id),
        ResourceKind::Motion => Some(m.focused_item->0.id),
    }
}

/// The parent a patch names beside the id: only an agenda item carries its
/// owning session.
pub open spec fn patch_parent(m: ClientModel, kind: ResourceKind) -> Option<Seq<char>> {
    match kind {
        ResourceKind::AgendaItem => Some(m.focused_session->0.id),
        _ => None,
    }
}

/// The action that commits an edit buffer: a create under the focused
/// parent, or a patch of the original resource.
pub open spec fn commit_action(m: ClientModel, es: EditModel) -> ActionModel {
    if es.creating {
        ActionModel::Create { kind: es.kind, scope: create_scope(m, es.kind), fields: body_model(es) }
    } else {
        ActionModel::Patch {
            kind: es.kind,
            id: id_of_resource(es.original->0),
            parent: patch_parent(m, es.kind),
            fields: body_model(es),
        }
    }
}

/// The action that re-fetches the owning list of `kind`.
pub open spec fn refetch_action(m: ClientModel, kind: ResourceKind) -> ActionModel {
    match kind {
        ResourceKind::Session => ActionModel::FetchList { kind, scope: None },
        ResourceKind::AgendaItem => ActionModel::FetchList {
            kind,
            scope: Some(m.focused_session->0.id),
        },
        ResourceKind::Motion => ActionModel::FetchList { kind, scope: Some(m.focused_item->0.id) },
    }
}

/// One browsing transition at the session level.
pub open spec fn step_sessions(m: ClientModel, key: Key) -> (ClientModel, ActionModel) {
    if is_quit_key(key) {
        (m, ActionModel::Quit)
    } else if is_down_key(key) {
        (ClientModel { sessions: next_model(m.sessions), ..m }, ActionModel::Nothing)
    } else if is_up_key(key) {
        (ClientModel { sessions: previous_model(m.sessions), ..m }, ActionModel::Nothing)
    } else if is_left_key(key) {
        (ClientModel { sessions: unselect_model(m.sessions), ..m }, ActionModel::Nothing)
    } else if key == Key::Char('o') {
        match m.sessions.selected {
            Some(i) => (
                ClientModel { pending: PendingModel::OpeningSession(m.sessions.items[i]), ..m },
                ActionModel::FetchList {
                    kind: ResourceKind::AgendaItem,
                    scope: Some(m.sessions.items[i].id),
                },
            ),
            None => (m, ActionModel::Nothing),
        }
    } else if key == Key::Char('e') {
        match m.sessions.selected {
            Some(i) => (
                ClientModel { pending: PendingModel::StartingEdit(ResourceKind::Session), ..m },
                ActionModel::FetchOne { kind: ResourceKind::Session, id: m.sessions.items[i].id },
            ),
            None => (m, ActionModel::Nothing),
        }
    } else if key == Key::Char('p') {
        (
            ClientModel { mode: ModeModel::Editing(begin_create_model(ResourceKind::Session)), ..m },
            ActionModel::Nothing,
        )
    } else if key == Key::Char('d') {
        match m.sessions.selected {
            Some(i) => (
                ClientModel { pending: PendingModel::Deleting(ResourceKind::Session), ..m },
                ActionModel::Delete { kind: ResourceKind::Session, id: m.sessions.items[i].id },
            ),
            None => (m, ActionModel::Nothing),
        }
    } else {
        (m, ActionModel::Nothing)
    }
}

/// One browsing transition at the agenda-item level.
pub open spec fn step_agenda_items(m: ClientModel, key: Key) -> (ClientModel, ActionModel) {
    if is_quit_key(key) {
        (ClientModel { level: Level::Sessions, ..m }, ActionModel::Nothing)
    } else if is_down_key(key) {
        (ClientModel { agenda_items: next_model(m.agenda_items), ..m }, ActionModel::Nothing)
    } else if is_up_key(key) {
        (ClientModel { agenda_items: previous_model(m.agenda_items), ..m }, ActionModel::Nothing)
    } else if is_left_key(key) {
        (ClientModel { agenda_items: unselect_model(m.agenda_items), ..m }, ActionModel::Nothing)
    } else if key == Key::Char('o') {
        match m.agenda_items.selected {
            Some(i) => (
                ClientModel { pending: PendingModel::OpeningItem(m.agenda_items.items[i]), ..m },
                ActionModel::FetchList {
                    kind: ResourceKind::Motion,
                    scope: Some(m.agenda_items.items[i].id),
                },
            ),
            None => (m, ActionModel::Nothing),
        }
    } else if key == Key::Char('e') {
        match m.agenda_items.selected {
            Some(i) => (
                ClientModel { pending: PendingModel::StartingEdit(ResourceKind::AgendaItem), ..m },
                ActionModel::FetchOne {
                    kind: ResourceKind::AgendaItem,
                    id: m.agenda_items.items[i].id,
                },
            ),
            None => (m, ActionModel::Nothing),
        }
    } else if key == Key::Char('p') {
        (
            ClientModel {
                mode: ModeModel::Editing(begin_create_model(ResourceKind::AgendaItem)),
                ..m
            },
            ActionModel::Nothing,
        )
    } else if key == Key::Char('d') {
        match m.agenda_items.selected {
            Some(i) => (
                ClientModel { pending: PendingModel::Deleting(ResourceKind::AgendaItem), ..m },
                ActionModel::Delete {
                    kind: ResourceKind::AgendaItem,
                    id: m.agenda_items.items[i].id,
                },
            ),
            None => (m, ActionModel::Nothing),
        }
    } else {
        (m, ActionModel::Nothing)
    }
}

/// One browsing transition at the motion level.
pub open spec fn step_motions(m: ClientModel, key: Key) -> (ClientModel, ActionModel) {
    if is_quit_key(key) {
        (ClientModel { level: Level::AgendaItems, ..m }, ActionModel::Nothing)
    } else if is_down_key(key) {
        (ClientModel { motions: next_model(m.motions), ..m }, ActionModel::Nothing)
    } else if is_up_key(key) {
        (ClientModel { motions: previous_model(m.motions), ..m }, ActionModel::Nothing)
    } else if is_left_key(key) {
        (ClientModel { motions: unselect_model(m.motions), ..m }, ActionModel::Nothing)
    } else if key == Key::Char('e') {
        match m.motions.selected {
            Some(i) => (
                ClientModel { pending: PendingModel::StartingEdit(ResourceKind::Motion), ..m },
                ActionModel::FetchOne { kind: ResourceKind::Motion, id: m.motions.items[i].id },
            ),
            None => (m, ActionModel::Nothing),
        }
    } else if key == Key::Char('p') {
        (
            ClientModel { mode: ModeModel::Editing(begin_create_model(ResourceKind::Motion)), ..m },
            ActionModel::Nothing,
        )
    } else if key == Key::Char('d') {
        match m.motions.selected {
            Some(i) => (
                ClientModel { pending: PendingModel::Deleting(ResourceKind::Motion), ..m },
                ActionModel::Delete { kind: ResourceKind::Motion, id: m.motions.items[i].id },
            ),
            None => (m, ActionModel::Nothing),
        }
    } else {
        (m, ActionModel::Nothing)
    }
}

/// One transition while an edit buffer is staged: field navigation, opening
/// the field editor, or committing the buffer on exit.  The buffer stays in
/// place across the commit call so that a failed write keeps the operator's
/// text for a retry.
pub open spec fn step_editing(m: ClientModel, es: EditModel, key: Key) -> (
    ClientModel,
    ActionModel,
) {
    if is_quit_key(key) {
        (ClientModel { pending: PendingModel::Committing, ..m }, commit_action(m, es))
    } else if is_down_key(key) {
        (
            ClientModel { mode: ModeModel::Editing(with_fields(es, next_model(es.fields))), ..m },
            ActionModel::Nothing,
        )
    } else if is_up_key(key) {
        (
            ClientModel {
                mode: ModeModel::Editing(with_fields(es, previous_model(es.fields))),
                ..m
            },
            ActionModel::Nothing,
        )
    } else if is_left_key(key) {
        (
            ClientModel { mode: ModeModel::Editing(with_fields(es, unselect_model(es.fields))), ..m },
            ActionModel::Nothing,
        )
    } else if key == Key::Char('e') {
        match es.fields.selected {
            Some(i) => (
                ClientModel { mode: ModeModel::FieldEditing(es, es.fields.items[i]), ..m },
                ActionModel::Nothing,
            ),
            None => (m, ActionModel::Nothing),
        }
    } else {
        (m, ActionModel::Nothing)
    }
}

/// One key transition of the whole controller.  Keys are ignored while a
/// remote call is outstanding, and while the field editor is open (its
/// keystrokes belong to the text buffer outside the core; the editor is
/// left through [`Client::commit_field`]).
pub open spec fn step(m: ClientModel, key: Key) -> (ClientModel, ActionModel) {
    if !(m.pending is Idle) {
        (m, ActionModel::Nothing)
    } else {
        match m.mode {
            ModeModel::Browsing => match m.level {
                Level::Sessions => step_sessions(m, key),
                Level::AgendaItems => step_agenda_items(m, key),
                Level::Motions => step_motions(m, key),
            },
            ModeModel::Editing(es) => step_editing(m, es, key),
            ModeModel::FieldEditing(_, _) => (m, ActionModel::Nothing),
        }
    }
}

/// A state with its interaction mode replaced.
pub open spec fn with_mode(m: ClientModel, mode: ModeModel) -> ClientModel {
    ClientModel { mode, ..m }
}

/// Leaving the field editor: the edited text is written into the selected
/// field and the controller returns to the staged edit buffer.
pub open spec fn commit_field_step(m: ClientModel, text: Seq<char>) -> ClientModel {
    match m.mode {
        ModeModel::FieldEditing(es, _) => ClientModel {
            mode: ModeModel::Editing(commit_field_model(es, text)),
            ..m
        },
        _ => m,
    }
}

/// Absorbing the outcome of the one outstanding remote call.  A read error
/// leaves the previous view state intact; a write error keeps the staged
/// edit buffer open; a successful commit or delete triggers the re-fetch
/// chain that brings the displayed lists back in line with the server.
pub open spec fn respond(m: ClientModel, resp: ResponseModel) -> (ClientModel, ActionModel) {
    match m.pending {
        PendingModel::OpeningSession(s) => match resp {
            ResponseModel::AgendaItemList(res) => match res {
                Ok(v) => (
                    ClientModel {
                        agenda_items: fresh_list(v),
                        focused_session: Some(s),
                        focused_item: None,
                        level: Level::AgendaItems,
                        pending: PendingModel::Idle,
                        ..m
                    },
                    ActionModel::Nothing,
                ),
                Err(_) => (ClientModel { pending: PendingModel::Idle, ..m }, ActionModel::Nothing),
            },
            _ => (m, ActionModel::Nothing),
        },
        PendingModel::OpeningItem(t) => match resp {
            ResponseModel::MotionList(res) => match res {
                Ok(v) => (
                    ClientModel {
                        motions: fresh_list(v),
                        focused_item: Some(t),
                        level: Level::Motions,
                        pending: PendingModel::Idle,
                        ..m
                    },
                    ActionModel::Nothing,
                ),
                Err(_) => (ClientModel { pending: PendingModel::Idle, ..m }, ActionModel::Nothing),
            },
            _ => (m, ActionModel::Nothing),
        },
        PendingModel::StartingEdit(k) => match resp {
            ResponseModel::OneSession(res) => if k == ResourceKind::Session {
                match res {
                    Ok(s) => (
                        ClientModel {
                            mode: ModeModel::Editing(begin_edit_model(ResourceModel::Session(s))),
                            pending: PendingModel::Idle,
                            ..m
                        },
                        ActionModel::Nothing,
                    ),
                    Err(_) => (
                        ClientModel { pending: PendingModel::Idle, ..m },
                        ActionModel::Nothing,
                    ),
                }
            } else {
                (m, ActionModel::Nothing)
            },
            ResponseModel::OneAgendaItem(res) => if k == ResourceKind::AgendaItem {
                match res {
                    Ok(t) => (
                        ClientModel {
                            mode: ModeModel::Editing(
                                begin_edit_model(ResourceModel::AgendaItem(t)),
                            ),
                            pending: PendingModel::Idle,
                            ..m
                        },
                        ActionModel::Nothing,
                    ),
                    Err(_) => (
                        ClientModel { pending: PendingModel::Idle, ..m },
                        ActionModel::Nothing,
                    ),
                }
            } else {
                (m, ActionModel::Nothing)
            },
            ResponseModel::OneMotion(res) => if k == ResourceKind::Motion {
                match res {
                    Ok(a) => (
                        ClientModel {
                            mode: ModeModel::Editing(begin_edit_model(ResourceModel::Motion(a))),
                            pending: PendingModel::Idle,
                            ..m
                        },
                        ActionModel::Nothing,
                    ),
                    Err(_) => (
                        ClientModel { pending: PendingModel::Idle, ..m },
                        ActionModel::Nothing,
                    ),
                }
            } else {
                (m, ActionModel::Nothing)
            },
            _ => (m, ActionModel::Nothing),
        },
        PendingModel::Deleting(k) => match resp {
            ResponseModel::Mutated(res) => match res {
                Ok(_) => (
                    ClientModel { pending: PendingModel::RefreshingAfterDelete(k), ..m },
                    refetch_action(m, k),
                ),
                Err(_) => (ClientModel { pending: PendingModel::Idle, ..m }, ActionModel::Nothing),
            },
            _ => (m, ActionModel::Nothing),
        },
        PendingModel::RefreshingAfterDelete(k) => match resp {
            ResponseModel::SessionList(res) => if k == ResourceKind::Session {
                match res {
                    Ok(v) => (
                        ClientModel { sessions: fresh_list(v), pending: PendingModel::Idle, ..m },
                        ActionModel::Nothing,
                    ),
                    Err(_) => (
                        ClientModel { pending: PendingModel::Idle, ..m },
                        ActionModel::Nothing,
                    ),
                }
            } else {
                (m, ActionModel::Nothing)
            },
            ResponseModel::AgendaItemList(res) => if k == ResourceKind::AgendaItem {
                match res {
                    Ok(v) => (
                        ClientModel {
                            agenda_items: fresh_list(v),
                            pending: PendingModel::Idle,
                            ..m
                        },
                        ActionModel::Nothing,
                    ),
                    Err(_) => (
                        ClientModel { pending: PendingModel::Idle, ..m },
                        ActionModel::Nothing,
                    ),
                }
            } else {
                (m, ActionModel::Nothing)
            },
            ResponseModel::MotionList(res) => if k == ResourceKind::Motion {
                match res {
                    Ok(v) => (
                        ClientModel { motions: fresh_list(v), pending: PendingModel::Idle, ..m },
                        ActionModel::Nothing,
                    ),
                    Err(_) => (
                        ClientModel { pending: PendingModel::Idle, ..m },
                        ActionModel::Nothing,
                    ),
                }
            } else {
                (m, ActionModel::Nothing)
            },
            _ => (m, ActionModel::Nothing),
        },
        PendingModel::Committing => match resp {
            ResponseModel::Mutated(res) => match res {
                Ok(_) => (
                    ClientModel {
                        mode: ModeModel::Browsing,
                        pending: PendingModel::SyncSessions,
                        ..m
                    },
                    ActionModel::FetchList { kind: ResourceKind::Session, scope: None },
                ),
                Err(_) => (ClientModel { pending: PendingModel::Idle, ..m }, ActionModel::Nothing),
            },
            _ => (m, ActionModel::Nothing),
        },
        PendingModel::SyncSessions => match resp {
            ResponseModel::SessionList(res) => match res {
                Ok(v) => match m.focused_session {
                    Some(fs) => (
                        ClientModel {
                            sessions: fresh_list(v),
                            pending: PendingModel::SyncAgendaItems,
                            ..m
                        },
                        ActionModel::FetchList {
                            kind: ResourceKind::AgendaItem,
                            scope: Some(fs.id),
                        },
                    ),
                    None => (
                        ClientModel { sessions: fresh_list(v), pending: PendingModel::Idle, ..m },
                        ActionModel::Nothing,
                    ),
                },
                Err(_) => (ClientModel { pending: PendingModel::Idle, ..m }, ActionModel::Nothing),
            },
            _ => (m, ActionModel::Nothing),
        },
        PendingModel::SyncAgendaItems => match resp {
            ResponseModel::AgendaItemList(res) => match res {
                Ok(v) => match m.focused_item {
                    Some(fi) => (
                        ClientModel {
                            agenda_items: fresh_list(v),
                            pending: PendingModel::SyncMotions,
                            ..m
                        },
                        ActionModel::FetchList { kind: ResourceKind::Motion, scope: Some(fi.id) },
                    ),
                    None => (
                        ClientModel {
                            agenda_items: fresh_list(v),
                            pending: PendingModel::Idle,
                            ..m
                        },
                        ActionModel::Nothing,
                    ),
                },
                Err(_) => (ClientModel { pending: PendingModel::Idle, ..m }, ActionModel::Nothing),
            },
            _ => (m, ActionModel::Nothing),
        },
        PendingModel::SyncMotions => match resp {
            ResponseModel::MotionList(res) => match res {
                Ok(v) => (
                    ClientModel { motions: fresh_list(v), pending: PendingModel::Idle, ..m },
                    ActionModel::Nothing,
                ),
                Err(_) => (ClientModel { pending: PendingModel::Idle, ..m }, ActionModel::Nothing),
            },
            _ => (m, ActionModel::Nothing),
        },
        PendingModel::Idle => (m, ActionModel::Nothing),
    }
}

/// Whether `key` is one of the quit keys.
fn key_is_quit(key: Key) -> (r: bool)
    ensures
        r == is_quit_key(key),
{
    match key {
        Key::Esc => true,
        Key::Char(c) => c == 'q',
        _ => false,
    }
}

/// Whether `key` is one of the cursor-down keys.
fn key_is_down(key: Key) -> (r: bool)
    ensures
        r == is_down_key(key),
{
    match key {
        Key::Down => true,
        Key::Char(c) => c == 'j',
        _ => false,
    }
}

/// Whether `key` is one of the cursor-up keys.
fn key_is_up(key: Key) -> (r: bool)
    ensures
        r == is_up_key(key),
{
    match key {
        Key::Up => true,
        Key::Char(c) => c == 'k',
        _ => false,
    }
}

/// Whether `key` is one of the unselect keys.
fn key_is_left(key: Key) -> (r: bool)
    ensures
        r == is_left_key(key),
{
    match key {
        Key::Left => true,
        Key::Char(c) => c == 'h',
        _ => false,
    }
}

/// Whether `key` is the plain character `c`.
fn key_is_char(key: Key, c: char) -> (r: bool)
    ensures
        r == (key == Key::Char(c)),
{
    match key {
        Key::Char(k) => k == c,
        _ => false,
    }
}

/// The navigation controller.
pub struct Client {
    sessions: SelectableList<Session>,
    agenda_items: SelectableList<AgendaItem>,
    motions: SelectableList<Motion>,
    focused_session: Option<Session>,
    focused_item: Option<AgendaItem>,
    level: Level,
    mode: NavMode,
    pending: Pending,
}

impl View for Client {
    type V = ClientModel;

    closed spec fn view(&self) -> ClientModel {
        ClientModel {
            sessions: self.sessions@,
            agenda_items: self.agenda_items@,
            motions: self.motions@,
            focused_session: match self.focused_session {
                Some(ref s) => Some(s@),
                None => None,
            },
            focused_item: match self.focused_item {
                Some(ref t) => Some(t@),
                None => None,
            },
            level: self.level,
            mode: match self.mode {
                NavMode::Browsing => ModeModel::Browsing,
                NavMode::Editing(ref es) => ModeModel::Editing(es@),
                NavMode::FieldEditing(ref es, ref p) => ModeModel::FieldEditing(es@, p@),
            },
            pending: match self.pending {
                Pending::Idle => PendingModel::Idle,
                Pending::OpeningSession(ref s) => PendingModel::OpeningSession(s@),
                Pending::OpeningItem(ref t) => PendingModel::OpeningItem(t@),
                Pending::StartingEdit(k) => PendingModel::StartingEdit(k),
                Pending::Deleting(k) => PendingModel::Deleting(k),
                Pending::RefreshingAfterDelete(k) => PendingModel::RefreshingAfterDelete(k),
                Pending::Committing => PendingModel::Committing,
                Pending::SyncSessions => PendingModel::SyncSessions,
                Pending::SyncAgendaItems => PendingModel::SyncAgendaItems,
                Pending::SyncMotions => PendingModel::SyncMotions,
            },
        }
    }
}

impl Client {
    /// Builds the controller over the sessions fetched at startup.
    pub fn new(sessions: Vec<Session>) -> (r: Client)
        ensures
            r@ == initial_model(sessions.deep_view()),
            client_wf(r@),
    {
        let r = Client {
            sessions: SelectableList::with_items(sessions),
            agenda_items: SelectableList::with_items(Vec::new()),
            motions: SelectableList::with_items(Vec::new()),
            focused_session: None,
            focused_item: None,
            level: Level::Sessions,
            mode: NavMode::Browsing,
            pending: Pending::Idle,
        };
        assert(r@ =~= initial_model(sessions.deep_view()));
        r
    }

    /// The level currently browsed.
    pub fn level(&self) -> (r: Level)
        ensures
            r == self@.level,
    {
        self.level
    }

    /// The session list.
    pub fn sessions(&self) -> (r: &SelectableList<Session>)
        ensures
            r@ == self@.sessions,
    {
        &self.sessions
    }

    /// The agenda-item list of the focused session.
    pub fn agenda_items(&self) -> (r: &SelectableList<AgendaItem>)
        ensures
            r@ == self@.agenda_items,
    {
        &self.agenda_items
    }

    /// The motion list of the focused agenda item.
    pub fn motions(&self) -> (r: &SelectableList<Motion>)
        ensures
            r@ == self@.motions,
    {
        &self.motions
    }

    /// The session drilled into, when one is.
    pub fn focused_session(&self) -> (r: Option<&Session>)
        ensures
            r matches Some(s) ==> self@.focused_session == Some(s@),
            r is None ==> self@.focused_session is None,
    {
        self.focused_session.as_ref()
    }

    /// The agenda item drilled into, when one is.
    pub fn focused_item(&self) -> (r: Option<&AgendaItem>)
        ensures
            r matches Some(t) ==> self@.focused_item == Some(t@),
            r is None ==> self@.focused_item is None,
    {
        self.focused_item.as_ref()
    }

    /// Whether the controller is browsing (no edit staged).
    pub fn is_browsing(&self) -> (r: bool)
        ensures
            r == (self@.mode is Browsing),
    {
        match self.mode {
            NavMode::Browsing => true,
            _ => false,
        }
    }

    /// Whether the field editor is open.
    pub fn is_field_editing(&self) -> (r: bool)
        ensures
            r == (self@.mode is FieldEditing),
    {
        match self.mode {
            NavMode::FieldEditing(_, _) => true,
            _ => false,
        }
    }

    /// Whether a remote call is outstanding.
    pub fn is_idle(&self) -> (r: bool)
        ensures
            r == (self@.pending is Idle),
    {
        match self.pending {
            Pending::Idle => true,
            _ => false,
        }
    }

    /// The staged edit buffer, while one is staged or its field editor is
    /// open.
    pub fn edit_session(&self) -> (r: Option<&EditSession>)
        ensures
            self@.mode is Browsing ==> r is None,
            self@.mode matches ModeModel::Editing(es) ==> (r matches Some(e) && e@ == es),
            self@.mode matches ModeModel::FieldEditing(es, _) ==> (r matches Some(e) && e@ == es),
    {
        match &self.mode {
            NavMode::Browsing => None,
            NavMode::Editing(es) => Some(es),
            NavMode::FieldEditing(es, _) => Some(es),
        }
    }

    /// Dispatches one key event: the state changes as [`step`] says and the
    /// one remote call the event asks for is handed back.
    pub fn handle_key(&mut self, key: Key) -> (r: Action)
        requires
            client_wf(old(self)@),
        ensures
            final(self)@ == step(old(self)@, key).0,
            r@ == step(old(self)@, key).1,
            client_wf(final(self)@),
    {
        if !self.is_idle() {
            return Action::Nothing;
        }
        let mut mode = NavMode::Browsing;
        mem::swap(&mut self.mode, &mut mode);
        match mode {
            NavMode::Browsing => {
                assert(self@ =~= old(self)@);
                let level = self.level;
                match level {
                    Level::Sessions => self.handle_sessions_key(key),
                    Level::AgendaItems => self.handle_agenda_items_key(key),
                    Level::Motions => self.handle_motions_key(key),
                }
            },
            NavMode::Editing(es) => {
                assert(with_mode(self@, ModeModel::Editing(es@)) =~= old(self)@);
                self.handle_editing_key(es, key)
            },
            NavMode::FieldEditing(es, p) => {
                self.mode = NavMode::FieldEditing(es, p);
                assert(self@ =~= old(self)@);
                Action::Nothing
            },
        }
    }

    /// One key at the session level.
    fn handle_sessions_key(&mut self, key: Key) -> (r: Action)
        requires
            client_wf(old(self)@),
            old(self)@.pending is Idle,
            old(self)@.mode is Browsing,
            old(self)@.level == Level::Sessions,
        ensures
            final(self)@ == step_sessions(old(self)@, key).0,
            r@ == step_sessions(old(self)@, key).1,
            client_wf(final(self)@),
    {
        if key_is_quit(key) {
            Action::Quit
        } else if key_is_down(key) {
            self.sessions.next();
            assert(self@ =~= step_sessions(old(self)@, key).0);
            Action::Nothing
        } else if key_is_up(key) {
            self.sessions.previous();
            assert(self@ =~= step_sessions(old(self)@, key).0);
            Action::Nothing
        } else if key_is_left(key) {
            self.sessions.unselect();
            assert(self@ =~= step_sessions(old(self)@, key).0);
            Action::Nothing
        } else if key_is_char(key, 'o') {
            match self.sessions.selected_index() {
                Some(i) => {
                    let s = self.sessions.get(i).duplicate();
                    let id = s.id.clone();
                    self.pending = Pending::OpeningSession(s);
                    assert(self@ =~= step_sessions(old(self)@, key).0);
                    Action::FetchList { kind: ResourceKind::AgendaItem, scope: Some(id) }
                },
                None => Action::Nothing,
            }
        } else if key_is_char(key, 'e') {
            match self.sessions.selected_index() {
                Some(i) => {
                    let id = self.sessions.get(i).id.clone();
                    self.pending = Pending::StartingEdit(ResourceKind::Session);
                    assert(self@ =~= step_sessions(old(self)@, key).0);
                    Action::FetchOne { kind: ResourceKind::Session, id }
                },
                None => Action::Nothing,
            }
        } else if key_is_char(key, 'p') {
            self.mode = NavMode::Editing(EditSession::begin_create(ResourceKind::Session));
            assert(self@ =~= step_sessions(old(self)@, key).0);
            Action::Nothing
        } else if key_is_char(key, 'd') {
            match self.sessions.selected_index() {
                Some(i) => {
                    let id = self.sessions.get(i).id.clone();
                    self.pending = Pending::Deleting(ResourceKind::Session);
                    assert(self@ =~= step_sessions(old(self)@, key).0);
                    Action::Delete { kind: ResourceKind::Session, id }
                },
                None => Action::Nothing,
            }
        } else {
            Action::Nothing
        }
    }

    /// One key at the agenda-item level.
    fn handle_agenda_items_key(&mut self, key: Key) -> (r: Action)
        requires
            client_wf(old(self)@),
            old(self)@.pending is Idle,
            old(self)@.mode is Browsing,
            old(self)@.level == Level::AgendaItems,
        ensures
            final(self)@ == step_agenda_items(old(self)@, key).0,
            r@ == step_agenda_items(old(self)@, key).1,
            client_wf(final(self)@),
    {
        if key_is_quit(key) {
            self.level = Level::Sessions;
            assert(self@ =~= step_agenda_items(old(self)@, key).0);
            Action::Nothing
        } else if key_is_down(key) {
            self.agenda_items.next();
            assert(self@ =~= step_agenda_items(old(self)@, key).0);
            Action::Nothing
        } else if key_is_up(key) {
            self.agenda_items.previous();
            assert(self@ =~= step_agenda_items(old(self)@, key).0);
            Action::Nothing
        } else if key_is_left(key) {
            self.agenda_items.unselect();
            assert(self@ =~= step_agenda_items(old(self)@, key).0);
            Action::Nothing
        } else if key_is_char(key, 'o') {
            match self.agenda_items.selected_index() {
                Some(i) => {
                    let t = self.agenda_items.get(i).duplicate();
                    let id = t.id.clone();
                    self.pending = Pending::OpeningItem(t);
                    assert(self@ =~= step_agenda_items(old(self)@, key).0);
                    Action::FetchList { kind: ResourceKind::Motion, scope: Some(id) }
                },
                None => Action::Nothing,
            }
        } else if key_is_char(key, 'e') {
            match self.agenda_items.selected_index() {
                Some(i) => {
                    let id = self.agenda_items.get(i).id.clone();
                    self.pending = Pending::StartingEdit(ResourceKind::AgendaItem);
                    assert(self@ =~= step_agenda_items(old(self)@, key).0);
                    Action::FetchOne { kind: ResourceKind::AgendaItem, id }
                },
                None => Action::Nothing,
            }
        } else if key_is_char(key, 'p') {
            self.mode = NavMode::Editing(EditSession::begin_create(ResourceKind::AgendaItem));
            assert(self@ =~= step_agenda_items(old(self)@, key).0);
            Action::Nothing
        } else if key_is_char(key, 'd') {
            match self.agenda_items.selected_index() {
                Some(i) => {
                    let id = self.agenda_items.get(i).id.clone();
                    self.pending = Pending::Deleting(ResourceKind::AgendaItem);
                    assert(self@ =~= step_agenda_items(old(self)@, key).0);
                    Action::Delete { kind: ResourceKind::AgendaItem, id }
                },
                None => Action::Nothing,
            }
        } else {
            Action::Nothing
        }
    }

    /// One key at the motion level.
    fn handle_motions_key(&mut self, key: Key) -> (r: Action)
        requires
            client_wf(old(self)@),
            old(self)@.pending is Idle,
            old(self)@.mode is Browsing,
            old(self)@.level == Level::Motions,
        ensures
            final(self)@ == step_motions(old(self)@, key).0,
            r@ == step_motions(old(self)@, key).1,
            client_wf(final(self)@),
    {
        if key_is_quit(key) {
            self.level = Level::AgendaItems;
            assert(self@ =~= step_motions(old(self)@, key).0);
            Action::Nothing
        } else if key_is_down(key) {
            self.motions.next();
            assert(self@ =~= step_motions(old(self)@, key).0);
            Action::Nothing
        } else if key_is_up(key) {
            self.motions.previous();
            assert(self@ =~= step_motions(old(self)@, key).0);
            Action::Nothing
        } else if key_is_left(key) {
            self.motions.unselect();
            assert(self@ =~= step_motions(old(self)@, key).0);
            Action::Nothing
        } else if key_is_char(key, 'e') {
            match self.motions.selected_index() {
                Some(i) => {
                    let id = self.motions.get(i).id.clone();
                    self.pending = Pending::StartingEdit(ResourceKind::Motion);
                    assert(self@ =~= step_motions(old(self)@, key).0);
                    Action::FetchOne { kind: ResourceKind::Motion, id }
                },
                None => Action::Nothing,
            }
        } else if key_is_char(key, 'p') {
            self.mode = NavMode::Editing(EditSession::begin_create(ResourceKind::Motion));
            assert(self@ =~= step_motions(old(self)@, key).0);
            Action::Nothing
        } else if key_is_char(key, 'd') {
            match self.motions.selected_index() {
                Some(i) => {
                    let id = self.motions.get(i).id.clone();
                    self.pending = Pending::Deleting(ResourceKind::Motion);
                    assert(self@ =~= step_motions(old(self)@, key).0);
                    Action::Delete { kind: ResourceKind::Motion, id }
                },
                None => Action::Nothing,
            }
        } else {
            Action::Nothing
        }
    }

    /// One key while an edit buffer is staged.  The buffer arrives detached
    /// (the mode slot holds the browsing placeholder) and is put back into
    /// whichever mode the transition ends in.
    fn handle_editing_key(&mut self, es: EditSession, key: Key) -> (r: Action)
        requires
            old(self)@.pending is Idle,
            old(self)@.mode is Browsing,
            client_wf(with_mode(old(self)@, ModeModel::Editing(es@))),
        ensures
            final(self)@ == step_editing(
                with_mode(old(self)@, ModeModel::Editing(es@)),
                es@,
                key,
            ).0,
            r@ == step_editing(with_mode(old(self)@, ModeModel::Editing(es@)), es@, key).1,
            client_wf(final(self)@),
    {
        let ghost m0 = with_mode(old(self)@, ModeModel::Editing(es@));
        if key_is_quit(key) {
            let fields = es.body();
            let kind = es.kind();
            let r: Action;
            if es.is_creating() {
                let scope: Option<String> = match kind {
                    ResourceKind::Session => None,
                    ResourceKind::AgendaItem => match &self.focused_session {
                        Some(fs) => Some(fs.id.clone()),
                        None => unreached(),
                    },
                    ResourceKind::Motion => match &self.focused_item {
                        Some(fi) => Some(fi.id.clone()),
                        None => unreached(),
                    },
                };
                r = Action::Create { kind, scope, fields };
            } else {
                let id = match es.original_id() {
                    Some(id) => id,
                    None => unreached(),
                };
                let parent: Option<String> = match kind {
                    ResourceKind::AgendaItem => match &self.focused_session {
                        Some(fs) => Some(fs.id.clone()),
                        None => unreached(),
                    },
                    _ => None,
                };
                r = Action::Patch { kind, id, parent, fields };
            }
            self.pending = Pending::Committing;
            self.mode = NavMode::Editing(es);
            assert(self@ =~= step_editing(m0, es@, key).0);
            r
        } else if key_is_down(key) {
            let mut es = es;
            es.next_field();
            self.mode = NavMode::Editing(es);
            assert(self@ =~= step_editing(m0, m0.mode->Editing_0, key).0);
            Action::Nothing
        } else if key_is_up(key) {
            let mut es = es;
            es.previous_field();
            self.mode = NavMode::Editing(es);
            assert(self@ =~= step_editing(m0, m0.mode->Editing_0, key).0);
            Action::Nothing
        } else if key_is_left(key) {
            let mut es = es;
            es.unselect_field();
            self.mode = NavMode::Editing(es);
            assert(self@ =~= step_editing(m0, m0.mode->Editing_0, key).0);
            Action::Nothing
        } else if key_is_char(key, 'e') {
            match es.fields().selected_index() {
                Some(i) => {
                    let p = es.fields().get(i).duplicate();
                    self.mode = NavMode::FieldEditing(es, p);
                    assert(self@ =~= step_editing(m0, m0.mode->Editing_0, key).0);
                    Action::Nothing
                },
                None => {
                    self.mode = NavMode::Editing(es);
                    assert(self@ =~= step_editing(m0, m0.mode->Editing_0, key).0);
                    Action::Nothing
                },
            }
        } else {
            self.mode = NavMode::Editing(es);
            assert(self@ =~= step_editing(m0, m0.mode->Editing_0, key).0);
            Action::Nothing
        }
    }

    /// Closes the field editor, writing the edited text back into the
    /// selected field; outside the field editor this is a no-op.
    pub fn commit_field(&mut self, text: String)
        requires
            client_wf(old(self)@),
        ensures
            final(self)@ == commit_field_step(old(self)@, text@),
            client_wf(final(self)@),
    {
        let mut mode = NavMode::Browsing;
        mem::swap(&mut self.mode, &mut mode);
        match mode {
            NavMode::FieldEditing(es, _p) => {
                let mut es = es;
                es.commit_field(text);
                self.mode = NavMode::Editing(es);
                assert(self@ =~= commit_field_step(old(self)@, text@));
            },
            other => {
                self.mode = other;
                assert(self@ =~= commit_field_step(old(self)@, text@));
            },
        }
    }

    /// Absorbs the outcome of the outstanding remote call, as [`respond`]
    /// says, and hands back the next call of the synchronisation chain when
    /// there is one.
    pub fn apply_response(&mut self, resp: Response) -> (r: Action)
        requires
            client_wf(old(self)@),
        ensures
            final(self)@ == respond(old(self)@, resp@).0,
            r@ == respond(old(self)@, resp@).1,
            client_wf(final(self)@),
    {
        let mut pending = Pending::Idle;
        mem::swap(&mut self.pending, &mut pending);
        match pending {
            Pending::Idle => {
                assert(self@ =~= old(self)@);
                Action::Nothing
            },
            Pending::OpeningSession(s) => match resp {
                Response::AgendaItemList(res) => match res {
                    Ok(v) => {
                        self.agenda_items = SelectableList::with_items(v);
                        self.focused_session = Some(s);
                        self.focused_item = None;
                        self.level = Level::AgendaItems;
                        assert(self@ =~= respond(old(self)@, resp@).0);
                        Action::Nothing
                    },
                    Err(_) => {
                        assert(self@ =~= respond(old(self)@, resp@).0);
                        Action::Nothing
                    },
                },
                _ => {
                    self.pending = Pending::OpeningSession(s);
                    assert(self@ =~= old(self)@);
                    Action::Nothing
                },
            },
            Pending::OpeningItem(t) => match resp {
                Response::MotionList(res) => match res {
                    Ok(v) => {
                        self.motions = SelectableList::with_items(v);
                        self.focused_item = Some(t);
                        self.level = Level::Motions;
                        assert(self@ =~= respond(old(self)@, resp@).0);
                        Action::Nothing
                    },
                    Err(_) => {
                        assert(self@ =~= respond(old(self)@, resp@).0);
                        Action::Nothing
                    },
                },
                _ => {
                    self.pending = Pending::OpeningItem(t);
                    assert(self@ =~= old(self)@);
                    Action::Nothing
                },
            },
            Pending::StartingEdit(k) => match resp {
                Response::OneSession(res) => match k {
                    ResourceKind::Session => match res {
                        Ok(s) => {
                            self.mode = NavMode::Editing(
                                EditSession::begin_edit(Resource::Session(s)),
                            );
                            assert(self@ =~= respond(old(self)@, resp@).0);
                            Action::Nothing
                        },
                        Err(_) => {
                            assert(self@ =~= respond(old(self)@, resp@).0);
                            Action::Nothing
                        },
                    },
                    _ => {
                        self.pending = Pending::StartingEdit(k);
                        assert(self@ =~= old(self)@);
                        Action::Nothing
                    },
                },
                Response::OneAgendaItem(res) => match k {
                    ResourceKind::AgendaItem => match res {
                        Ok(t) => {
                            self.mode = NavMode::Editing(
                                EditSession::begin_edit(Resource::AgendaItem(t)),
                            );
                            assert(self@ =~= respond(old(self)@, resp@).0);
                            Action::Nothing
                        },
                        Err(_) => {
                            assert(self@ =~= respond(old(self)@, resp@).0);
                            Action::Nothing
                        },
                    },
                    _ => {
                        self.pending = Pending::StartingEdit(k);
                        assert(self@ =~= old(self)@);
                        Action::Nothing
                    },
                },
                Response::OneMotion(res) => match k {
                    ResourceKind::Motion => match res {
                        Ok(a) => {
                            self.mode = NavMode::Editing(
                                EditSession::begin_edit(Resource::Motion(a)),
                            );
                            assert(self@ =~= respond(old(self)@, resp@).0);
                            Action::Nothing
                        },
                        Err(_) => {
                            assert(self@ =~= respond(old(self)@, resp@).0);
                            Action::Nothing
                        },
                    },
                    _ => {
                        self.pending = Pending::StartingEdit(k);
                        assert(self@ =~= old(self)@);
                        Action::Nothing
                    },
                },
                _ => {
                    self.pending = Pending::StartingEdit(k);
                    assert(self@ =~= old(self)@);
                    Action::Nothing
                },
            },
            Pending::Deleting(k) => match resp {
                Response::Mutated(res) => match res {
                    Ok(_) => {
                        self.pending = Pending::RefreshingAfterDelete(k);
                        let r = match k {
                            ResourceKind::Session => Action::FetchList {
                                kind: ResourceKind::Session,
                                scope: None,
                            },
                            ResourceKind::AgendaItem => match &self.focused_session {
                                Some(fs) => Action::FetchList {
                                    kind: ResourceKind::AgendaItem,
                                    scope: Some(fs.id.clone()),
                                },
                                None => unreached(),
                            },
                            ResourceKind::Motion => match &self.focused_item {
                                Some(fi) => Action::FetchList {
                                    kind: ResourceKind::Motion,
                                    scope: Some(fi.id.clone()),
                                },
                                None => unreached(),
                            },
                        };
                        assert(self@ =~= respond(old(self)@, resp@).0);
                        r
                    },
                    Err(_) => {
                        assert(self@ =~= respond(old(self)@, resp@).0);
                        Action::Nothing
                    },
                },
                _ => {
                    self.pending = Pending::Deleting(k);
                    assert(self@ =~= old(self)@);
                    Action::Nothing
                },
            },
            Pending::RefreshingAfterDelete(k) => match resp {
                Response::SessionList(res) => match k {
                    ResourceKind::Session => match res {
                        Ok(v) => {
                            self.sessions = SelectableList::with_items(v);
                            assert(self@ =~= respond(old(self)@, resp@).0);
                            Action::Nothing
                        },
                        Err(_) => {
                            assert(self@ =~= respond(old(self)@, resp@).0);
                            Action::Nothing
                        },
                    },
                    _ => {
                        self.pending = Pending::RefreshingAfterDelete(k);
                        assert(self@ =~= old(self)@);
                        Action::Nothing
                    },
                },
                Response::AgendaItemList(res) => match k {
                    ResourceKind::AgendaItem => match res {
                        Ok(v) => {
                            self.agenda_items = SelectableList::with_items(v);
                            assert(self@ =~= respond(old(self)@, resp@).0);
                            Action::Nothing
                        },
                        Err(_) => {
                            assert(self@ =~= respond(old(self)@, resp@).0);
                            Action::Nothing
                        },
                    },
                    _ => {
                        self.pending = Pending::RefreshingAfterDelete(k);
                        assert(self@ =~= old(self)@);
                        Action::Nothing
                    },
                },
                Response::MotionList(res) => match k {
                    ResourceKind::Motion => match res {
                        Ok(v) => {
                            self.motions = SelectableList::with_items(v);
                            assert(self@ =~= respond(old(self)@, resp@).0);
                            Action::Nothing
                        },
                        Err(_) => {
                            assert(self@ =~= respond(old(self)@, resp@).0);
                            Action::Nothing
                        },
                    },
                    _ => {
                        self.pending = Pending::RefreshingAfterDelete(k);
                        assert(self@ =~= old(self)@);
                        Action::Nothing
                    },
                },
                _ => {
                    self.pending = Pending::RefreshingAfterDelete(k);
                    assert(self@ =~= old(self)@);
                    Action::Nothing
                },
            },
            Pending::Committing => match resp {
                Response::Mutated(res) => match res {
                    Ok(_) => {
                        self.mode = NavMode::Browsing;
                        self.pending = Pending::SyncSessions;
                        assert(self@ =~= respond(old(self)@, resp@).0);
                        Action::FetchList { kind: ResourceKind::Session, scope: None }
                    },
                    Err(_) => {
                        assert(self@ =~= respond(old(self)@, resp@).0);
                        Action::Nothing
                    },
                },
                _ => {
                    self.pending = Pending::Committing;
                    assert(self@ =~= old(self)@);
                    Action::Nothing
                },
            },
            Pending::SyncSessions => match resp {
                Response::SessionList(res) => match res {
                    Ok(v) => {
                        self.sessions = SelectableList::with_items(v);
                        match &self.focused_session {
                            Some(fs) => {
                                let id = fs.id.clone();
                                self.pending = Pending::SyncAgendaItems;
                                assert(self@ =~= respond(old(self)@, resp@).0);
                                Action::FetchList {
                                    kind: ResourceKind::AgendaItem,
                                    scope: Some(id),
                                }
                            },
                            None => {
                                assert(self@ =~= respond(old(self)@, resp@).0);
                                Action::Nothing
                            },
                        }
                    },
                    Err(_) => {
                        assert(self@ =~= respond(old(self)@, resp@).0);
                        Action::Nothing
                    },
                },
                _ => {
                    self.pending = Pending::SyncSessions;
                    assert(self@ =~= old(self)@);
                    Action::Nothing
                },
            },
            Pending::SyncAgendaItems => match resp {
                Response::AgendaItemList(res) => match res {
                    Ok(v) => {
                        self.agenda_items = SelectableList::with_items(v);
                        match &self.focused_item {
                            Some(fi) => {
                                let id = fi.id.clone();
                                self.pending = Pending::SyncMotions;
                                assert(self@ =~= respond(old(self)@, resp@).0);
                                Action::FetchList { kind: ResourceKind::Motion, scope: Some(id) }
                            },
                            None => {
                                assert(self@ =~= respond(old(self)@, resp@).0);
                                Action::Nothing
                            },
                        }
                    },
                    Err(_) => {
                        assert(self@ =~= respond(old(self)@, resp@).0);
                        Action::Nothing
                    },
                },
                _ => {
                    self.pending = Pending::SyncAgendaItems;
                    assert(self@ =~= old(self)@);
                    Action::Nothing
                },
            },
            Pending::SyncMotions => match resp {
                Response::MotionList(res) => match res {
                    Ok(v) => {
                        self.motions = SelectableList::with_items(v);
                        assert(self@ =~= respond(old(self)@, resp@).0);
                        Action::Nothing
                    },
                    Err(_) => {
                        assert(self@ =~= respond(old(self)@, resp@).0);
                        Action::Nothing
                    },
                },
                _ => {
                    self.pending = Pending::SyncMotions;
                    assert(self@ =~= old(self)@);
                    Action::Nothing
                },
            },
        }
    }

    /// The field open in the field editor, while it is open: its label and
    /// the text the editor was seeded with.
    pub fn editing_param(&self) -> (r: Option<&Param>)
        ensures
            self@.mode matches ModeModel::FieldEditing(_, p) ==> (r matches Some(q) && q@ == p),
            !(self@.mode is FieldEditing) ==> r is None,
    {
        match &self.mode {
            NavMode::FieldEditing(_, p) => Some(p),
            _ => None,
        }
    }
}

} // verus!

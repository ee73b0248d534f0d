//! The three resource kinds of the hierarchy and their plain-value records.
//!
//! Identifiers, dates and rich content arrive from the wire as opaque
//! strings; the core never computes on them, so they are held here as plain
//! `String` values and the transport layer converts at the boundary.

use vstd::prelude::*;

verus! {

/// The three levels of the hierarchy, as browsing positions.
#[derive(Clone, Copy, PartialEq, Eq, Structural, Debug)]
pub enum Level {
    Sessions,
    AgendaItems,
    Motions,
}

/// The resource kind a request or an edit buffer is aimed at.
#[derive(Clone, Copy, PartialEq, Eq, Structural, Debug)]
pub enum ResourceKind {
    Session,
    AgendaItem,
    Motion,
}

/// Errors of the remote gateway, as the core distinguishes them: the
/// transport failed, or the payload could not be decoded.
#[derive(Clone, Copy, PartialEq, Eq, Structural, Debug)]
pub enum ApiError {
    Transport,
    Decode,
}

/// A scheduled meeting; the top level of the hierarchy.
pub struct Session {
    pub name: String,
    pub datetime: String,
    pub id: String,
}

/// Model of a [`Session`]: its fields as character sequences.
pub ghost struct SessionModel {
    pub name: Seq<char>,
    pub datetime: Seq<char>,
    pub id: Seq<char>,
}

impl View for Session {
    type V = SessionModel;

    open spec fn view(&self) -> SessionModel {
        SessionModel { name: self.name@, datetime: self.datetime@, id: self.id@ }
    }
}

impl DeepView for Session {
    type V = SessionModel;

    open spec fn deep_view(&self) -> SessionModel {
        self.view()
    }
}

/// An agenda entry belonging to a session.
pub struct AgendaItem {
    pub name: String,
    pub id: String,
    pub content: String,
    pub weight: i32,
}

/// Model of an [`AgendaItem`].
pub ghost struct AgendaItemModel {
    pub name: Seq<char>,
    pub id: Seq<char>,
    pub content: Seq<char>,
    pub weight: int,
}

impl View for AgendaItem {
    type V = AgendaItemModel;

    open spec fn view(&self) -> AgendaItemModel {
        AgendaItemModel {
            name: self.name@,
            id: self.id@,
            content: self.content@,
            weight: self.weight as int,
        }
    }
}

impl DeepView for AgendaItem {
    type V = AgendaItemModel;

    open spec fn deep_view(&self) -> AgendaItemModel {
        self.view()
    }
}

/// A proposal belonging to an agenda item.
pub struct Motion {
    pub id: String,
    pub title: String,
    pub rationale: String,
    pub body: String,
}

/// Model of a [`Motion`].
pub ghost struct MotionModel {
    pub id: Seq<char>,
    pub title: Seq<char>,
    pub rationale: Seq<char>,
    pub body: Seq<char>,
}

impl View for Motion {
    type V = MotionModel;

    open spec fn view(&self) -> MotionModel {
        MotionModel {
            id: self.id@,
            title: self.title@,
            rationale: self.rationale@,
            body: self.body@,
        }
    }
}

impl DeepView for Motion {
    type V = MotionModel;

    open spec fn deep_view(&self) -> MotionModel {
        self.view()
    }
}

/// A resource of any of the three kinds.
pub enum Resource {
    Session(Session),
    AgendaItem(AgendaItem),
    Motion(Motion),
}

/// Model of a [`Resource`].
pub ghost enum ResourceModel {
    Session(SessionModel),
    AgendaItem(AgendaItemModel),
    Motion(MotionModel),
}

impl View for Resource {
    type V = ResourceModel;

    open spec fn view(&self) -> ResourceModel {
        match self {
            Resource::Session(s) => ResourceModel::Session(s@),
            Resource::AgendaItem(t) => ResourceModel::AgendaItem(t@),
            Resource::Motion(a) => ResourceModel::Motion(a@),
        }
    }
}

impl DeepView for Resource {
    type V = ResourceModel;

    open spec fn deep_view(&self) -> ResourceModel {
        self.view()
    }
}

/// The kind a resource value belongs to.
pub open spec fn kind_of_resource(r: ResourceModel) -> ResourceKind {
    match r {
        ResourceModel::Session(_) => ResourceKind::Session,
        ResourceModel::AgendaItem(_) => ResourceKind::AgendaItem,
        ResourceModel::Motion(_) => ResourceKind::Motion,
    }
}

/// The server-side identity of a resource.
pub open spec fn id_of_resource(r: ResourceModel) -> Seq<char> {
    match r {
        ResourceModel::Session(s) => s.id,
        ResourceModel::AgendaItem(t) => t.id,
        ResourceModel::Motion(a) => a.id,
    }
}

impl Session {
    /// A field-for-field copy.
    pub fn duplicate(&self) -> (r: Session)
        ensures
            r@ == self@,
    {
        Session { name: self.name.clone(), datetime: self.datetime.clone(), id: self.id.clone() }
    }
}

impl AgendaItem {
    /// A field-for-field copy.
    pub fn duplicate(&self) -> (r: AgendaItem)
        ensures
            r@ == self@,
    {
        AgendaItem {
            name: self.name.clone(),
            id: self.id.clone(),
            content: self.content.clone(),
            weight: self.weight,
        }
    }
}

impl Motion {
    /// A field-for-field copy.
    pub fn duplicate(&self) -> (r: Motion)
        ensures
            r@ == self@,
    {
        Motion {
            id: self.id.clone(),
            title: self.title.clone(),
            rationale: self.rationale.clone(),
            body: self.body.clone(),
        }
    }
}

impl Resource {
    /// A field-for-field copy.
    pub fn duplicate(&self) -> (r: Resource)
        ensures
            r@ == self@,
    {
        match self {
            Resource::Session(s) => Resource::Session(s.duplicate()),
            Resource::AgendaItem(t) => Resource::AgendaItem(t.duplicate()),
            Resource::Motion(a) => Resource::Motion(a.duplicate()),
        }
    }
}

} // verus!

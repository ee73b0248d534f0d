//! The edit buffer: an in-progress create-or-edit operation staged as an
//! ordered list of named text fields.

use vstd::prelude::*;

use crate::list::{
    fresh_list, list_wf, next_model, previous_model, unselect_model, ListModel, SelectableList,
};
use crate::resource::{id_of_resource, kind_of_resource, Resource, ResourceKind, ResourceModel};
use crate::schema::{field_count, label_at, labels_model, lower_seq, wire_name_at};

verus! {

/// One staged editable field: a label fixed by the schema and the text the
/// operator may change.
pub struct Param {
    pub label: String,
    pub text: String,
}

/// Model of a [`Param`].
pub ghost struct ParamModel {
    pub label: Seq<char>,
    pub text: Seq<char>,
}

impl View for Param {
    type V = ParamModel;

    open spec fn view(&self) -> ParamModel {
        ParamModel { label: self.label@, text: self.text@ }
    }
}

impl DeepView for Param {
    type V = ParamModel;

    open spec fn deep_view(&self) -> ParamModel {
        self.view()
    }
}

impl Param {
    /// A field-for-field copy.
    pub fn duplicate(&self) -> (r: Param)
        ensures
            r@ == self@,
    {
        Param { label: self.label.clone(), text: self.text.clone() }
    }
}

/// One field of an outgoing request body: the wire name (the lower-cased
/// label) and the staged text.
pub struct BodyField {
    pub name: String,
    pub value: String,
}

/// Model of a [`BodyField`].
pub ghost struct BodyFieldModel {
    pub name: Seq<char>,
    pub value: Seq<char>,
}

impl View for BodyField {
    type V = BodyFieldModel;

    open spec fn view(&self) -> BodyFieldModel {
        BodyFieldModel { name: self.name@, value: self.value@ }
    }
}

impl DeepView for BodyField {
    type V = BodyFieldModel;

    open spec fn deep_view(&self) -> BodyFieldModel {
        self.view()
    }
}

/// Model of an [`EditSession`].
pub ghost struct EditModel {
    pub kind: ResourceKind,
    pub creating: bool,
    pub fields: ListModel<ParamModel>,
    pub original: Option<ResourceModel>,
}

/// Well-formedness of an edit session: the field list is well formed, its
/// labels are exactly the schema labels of the target kind, and the original
/// resource is present if and only if an existing resource is being edited.
pub open spec fn edit_wf(m: EditModel) -> bool {
    &&& list_wf(m.fields)
    &&& m.fields.items.len() == labels_model(m.kind, m.creating).len()
    &&& forall|j: int|
        0 <= j < m.fields.items.len() ==> #[trigger] m.fields.items[j].label == labels_model(
            m.kind,
            m.creating,
        )[j]
    &&& (m.creating ==> m.original is None)
    &&& (!m.creating ==> (m.original matches Some(r) && kind_of_resource(r) == m.kind))
}

/// The fields a create buffer starts with: the schema labels, each with
/// empty text.
pub open spec fn create_fields(kind: ResourceKind) -> Seq<ParamModel> {
    Seq::new(
        labels_model(kind, true).len(),
        |j: int| ParamModel { label: labels_model(kind, true)[j], text: Seq::empty() },
    )
}

/// The fields an edit buffer starts with: the schema labels, each carrying
/// the resource's current value for that field.
pub open spec fn edit_fields_of(r: ResourceModel) -> Seq<ParamModel> {
    match r {
        ResourceModel::Session(s) => seq![
            ParamModel { label: "Date"@, text: s.datetime },
            ParamModel { label: "Name"@, text: s.name },
        ],
        ResourceModel::AgendaItem(t) => seq![
            ParamModel { label: "Title"@, text: t.name },
            ParamModel { label: "Content"@, text: t.content },
        ],
        ResourceModel::Motion(a) => seq![
            ParamModel { label: "Title"@, text: a.title },
            ParamModel { label: "Rationale"@, text: a.rationale },
            ParamModel { label: "Body"@, text: a.body },
        ],
    }
}

/// The edit session produced by [`EditSession::begin_create`].
pub open spec fn begin_create_model(kind: ResourceKind) -> EditModel {
    EditModel { kind, creating: true, fields: fresh_list(create_fields(kind)), original: None }
}

/// The edit session produced by [`EditSession::begin_edit`].
pub open spec fn begin_edit_model(r: ResourceModel) -> EditModel {
    EditModel {
        kind: kind_of_resource(r),
        creating: false,
        fields: fresh_list(edit_fields_of(r)),
        original: Some(r),
    }
}

/// An edit session with its field list replaced.
pub open spec fn with_fields(m: EditModel, f: ListModel<ParamModel>) -> EditModel {
    EditModel { kind: m.kind, creating: m.creating, fields: f, original: m.original }
}

/// Writing `text` into the currently selected field; without a selection
/// nothing changes.
pub open spec fn commit_field_model(m: EditModel, text: Seq<char>) -> EditModel {
    match m.fields.selected {
        Some(i) => with_fields(
            m,
            ListModel {
                items: m.fields.items.update(
                    i,
                    ParamModel { label: m.fields.items[i].label, text },
                ),
                selected: m.fields.selected,
                remembered: m.fields.remembered,
            },
        ),
        None => m,
    }
}

/// The request body staged by an edit session: for every field, in order,
/// its lower-cased label and its current text.
pub open spec fn body_model(m: EditModel) -> Seq<BodyFieldModel> {
    Seq::new(
        m.fields.items.len(),
        |j: int| BodyFieldModel {
            name: lower_seq(m.fields.items[j].label),
            value: m.fields.items[j].text,
        },
    )
}

/// An in-progress create-or-edit operation over one resource.
pub struct EditSession {
    kind: ResourceKind,
    creating: bool,
    fields: SelectableList<Param>,
    original: Option<Resource>,
}

impl View for EditSession {
    type V = EditModel;

    closed spec fn view(&self) -> EditModel {
        EditModel {
            kind: self.kind,
            creating: self.creating,
            fields: self.fields@,
            original: match self.original {
                Some(ref r) => Some(r@),
                None => None,
            },
        }
    }
}

impl EditSession {
    /// Opens a create buffer for `kind`: the fixed label set of the kind,
    /// every text empty, the cursor on the first field.
    pub fn begin_create(kind: ResourceKind) -> (r: EditSession)
        ensures
            r@ == begin_create_model(kind),
            edit_wf(r@),
    {
        let n = field_count(kind, true);
        let mut params: Vec<Param> = Vec::new();
        let mut j: usize = 0;
        while j < n
            invariant
                j <= n,
                n == labels_model(kind, true).len(),
                params.deep_view() =~= create_fields(kind).take(j as int),
            decreases n - j,
        {
            proof {
                assert(create_fields(kind).len() == n as int);
                assert(create_fields(kind).take(j as int).len() == j as int);
                assert(params.deep_view().len() == j as int);
                assert(params@.len() == j);
            }
            let ghost prev = params.deep_view();
            let ghost prev_raw = params@;
            let p = Param { label: label_at(kind, true, j), text: String::new() };
            let ghost pm = p.deep_view();
            params.push(p);
            proof {
                assert(pm == create_fields(kind)[j as int]);
                assert forall|i: int| 0 <= i <= j implies params.deep_view()[i] == create_fields(
                    kind,
                ).take(j as int + 1)[i] by {
                    if i < j {
                        assert(params@[i] == prev_raw[i]);
                        assert(params.deep_view()[i] == prev[i]);
                    } else {
                        assert(params@[i] == p);
                    }
                }
                assert(params.deep_view() =~= create_fields(kind).take(j as int + 1));
            }
            j = j + 1;
        }
        assert(params.deep_view() =~= create_fields(kind));
        let r = EditSession {
            kind,
            creating: true,
            fields: SelectableList::with_items(params),
            original: None,
        };
        assert(r@ =~= begin_create_model(kind));
        r
    }

    /// Opens an edit buffer for an existing resource, pre-populated with the
    /// resource's current field values; the resource is retained so that the
    /// commit can address it by its identity.
    pub fn begin_edit(resource: Resource) -> (r: EditSession)
        ensures
            r@ == begin_edit_model(resource@),
            edit_wf(r@),
    {
        let mut params: Vec<Param> = Vec::new();
        let kind: ResourceKind;
        match &resource {
            Resource::Session(s) => {
                kind = ResourceKind::Session;
                params.push(Param { label: "Date".to_owned(), text: s.datetime.clone() });
                params.push(Param { label: "Name".to_owned(), text: s.name.clone() });
            },
            Resource::AgendaItem(t) => {
                kind = ResourceKind::AgendaItem;
                params.push(Param { label: "Title".to_owned(), text: t.name.clone() });
                params.push(Param { label: "Content".to_owned(), text: t.content.clone() });
            },
            Resource::Motion(a) => {
                kind = ResourceKind::Motion;
                params.push(Param { label: "Title".to_owned(), text: a.title.clone() });
                params.push(Param { label: "Rationale".to_owned(), text: a.rationale.clone() });
                params.push(Param { label: "Body".to_owned(), text: a.body.clone() });
            },
        }
        assert(params.deep_view() =~= edit_fields_of(resource@));
        let r = EditSession {
            kind,
            creating: false,
            fields: SelectableList::with_items(params),
            original: Some(resource),
        };
        assert(r@ =~= begin_edit_model(r@.original->0));
        r
    }

    /// The target kind of this operation.
    pub fn kind(&self) -> (r: ResourceKind)
        ensures
            r == self@.kind,
    {
        self.kind
    }

    /// Whether this operation creates a new resource (as opposed to editing
    /// an existing one).
    pub fn is_creating(&self) -> (r: bool)
        ensures
            r == self@.creating,
    {
        self.creating
    }

    /// The staged field list.
    pub fn fields(&self) -> (r: &SelectableList<Param>)
        ensures
            r@ == self@.fields,
    {
        &self.fields
    }

    /// The identity of the resource being edited, if one is.
    pub fn original_id(&self) -> (r: Option<String>)
        ensures
            r matches Some(s) ==> self@.original matches Some(rm) && s@ == id_of_resource(rm),
            r is None ==> self@.original is None,
    {
        match &self.original {
            Some(Resource::Session(s)) => Some(s.id.clone()),
            Some(Resource::AgendaItem(t)) => Some(t.id.clone()),
            Some(Resource::Motion(a)) => Some(a.id.clone()),
            None => None,
        }
    }

    /// Moves the field cursor one step forward.
    pub fn next_field(&mut self)
        requires
            edit_wf(old(self)@),
        ensures
            final(self)@ == with_fields(old(self)@, next_model(old(self)@.fields)),
            edit_wf(final(self)@),
    {
        self.fields.next();
        assert(self@ =~= with_fields(old(self)@, next_model(old(self)@.fields)));
    }

    /// Moves the field cursor one step backward.
    pub fn previous_field(&mut self)
        requires
            edit_wf(old(self)@),
        ensures
            final(self)@ == with_fields(old(self)@, previous_model(old(self)@.fields)),
            edit_wf(final(self)@),
    {
        self.fields.previous();
        assert(self@ =~= with_fields(old(self)@, previous_model(old(self)@.fields)));
    }

    /// Clears the field cursor, remembering where it stood.
    pub fn unselect_field(&mut self)
        requires
            edit_wf(old(self)@),
        ensures
            final(self)@ == with_fields(old(self)@, unselect_model(old(self)@.fields)),
            edit_wf(final(self)@),
    {
        self.fields.unselect();
        assert(self@ =~= with_fields(old(self)@, unselect_model(old(self)@.fields)));
    }

    /// Writes `text` back into the currently selected field; without a
    /// selection this is a no-op.
    pub fn commit_field(&mut self, text: String)
        requires
            edit_wf(old(self)@),
        ensures
            final(self)@ == commit_field_model(old(self)@, text@),
            edit_wf(final(self)@),
    {
        match self.fields.selected_index() {
            Some(i) => {
                let label = self.fields.get(i).label.clone();
                self.fields.update_at(i, Param { label, text });
                assert(self@ =~= commit_field_model(old(self)@, text@));
            },
            None => {
                assert(self@ =~= commit_field_model(old(self)@, text@));
            },
        }
    }

    /// Builds the request body this buffer stages: every field in order,
    /// keyed by its lower-cased label.
    pub fn body(&self) -> (r: Vec<BodyField>)
        requires
            edit_wf(self@),
        ensures
            r.deep_view() == body_model(self@),
    {
        let n = self.fields.len();
        let mut out: Vec<BodyField> = Vec::new();
        let mut j: usize = 0;
        while j < n
            invariant
                j <= n,
                n == self@.fields.items.len(),
                edit_wf(self@),
                out.deep_view() =~= body_model(self@).take(j as int),
            decreases n - j,
        {
            proof {
                assert(body_model(self@).len() == n as int);
                assert(body_model(self@).take(j as int).len() == j as int);
                assert(out.deep_view().len() == j as int);
                assert(out@.len() == j);
            }
            let ghost prev = out.deep_view();
            let ghost prev_raw = out@;
            let name = wire_name_at(self.kind, self.creating, j);
            let value = self.fields.get(j).text.clone();
            let b = BodyField { name, value };
            let ghost bm = b.deep_view();
            out.push(b);
            proof {
                assert(bm == body_model(self@)[j as int]);
                assert forall|i: int| 0 <= i <= j implies out.deep_view()[i] == body_model(
                    self@,
                ).take(j as int + 1)[i] by {
                    if i < j {
                        assert(out@[i] == prev_raw[i]);
                        assert(out.deep_view()[i] == prev[i]);
                    } else {
                        assert(out@[i] == b);
                    }
                }
                assert(out.deep_view() =~= body_model(self@).take(j as int + 1));
            }
            j = j + 1;
        }
        assert(out.deep_view() =~= body_model(self@));
        out
    }
}

/// Field labels round-trip: a buffer opened over a resource and committed
/// without modification stages a body whose field values are exactly the
/// resource's own field values, keyed by the lower-cased labels.
pub proof fn lemma_edit_round_trip(r: ResourceModel)
    ensures
        body_model(begin_edit_model(r)).len() == edit_fields_of(r).len(),
        forall|j: int|
            0 <= j < edit_fields_of(r).len() ==> #[trigger] body_model(begin_edit_model(r))[j]
                == (BodyFieldModel {
                name: lower_seq(edit_fields_of(r)[j].label),
                value: edit_fields_of(r)[j].text,
            }),
        r matches ResourceModel::Session(s) ==> {
            &&& body_model(begin_edit_model(r))[0].value == s.datetime
            &&& body_model(begin_edit_model(r))[1].value == s.name
        },
        r matches ResourceModel::AgendaItem(t) ==> {
            &&& body_model(begin_edit_model(r))[0].value == t.name
            &&& body_model(begin_edit_model(r))[1].value == t.content
        },
        r matches ResourceModel::Motion(a) ==> {
            &&& body_model(begin_edit_model(r))[0].value == a.title
            &&& body_model(begin_edit_model(r))[1].value == a.rationale
            &&& body_model(begin_edit_model(r))[2].value == a.body
        },
{
}

/// A fresh create buffer stages exactly the fixed label set of its kind,
/// each field with empty text.
pub proof fn lemma_create_fields_fixed(kind: ResourceKind)
    ensures
        begin_create_model(kind).fields.items.len() == labels_model(kind, true).len(),
        forall|j: int|
            0 <= j < labels_model(kind, true).len() ==> #[trigger] begin_create_model(
                kind,
            ).fields.items[j] == (ParamModel { label: labels_model(kind, true)[j], text: Seq::empty() }),
{
}

} // verus!

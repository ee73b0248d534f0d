//! The per-kind field schema of the edit buffer.
//!
//! Each resource kind has a fixed, ordered set of editable field labels;
//! the wire name of a field is its label lower-cased.  The labels are
//! declared once here and consumed uniformly by buffer construction and by
//! request-body construction, and the lemma at the bottom proves that the
//! declared wire names are exactly the lower-cased labels.

use vstd::prelude::*;

use crate::resource::ResourceKind;

verus! {

/// ASCII lower-casing of one character: the letters `A` to `Z` map to their
/// lower-case counterparts, everything else stays as it is.  Labels are
/// ASCII by construction, so this is the whole lower-casing rule the schema
/// needs.
pub open spec fn lower_char(c: char) -> char {
    if c == 'A' {
        'a'
    } else if c == 'B' {
        'b'
    } else if c == 'C' {
        'c'
    } else if c == 'D' {
        'd'
    } else if c == 'E' {
        'e'
    } else if c == 'F' {
        'f'
    } else if c == 'G' {
        'g'
    } else if c == 'H' {
        'h'
    } else if c == 'I' {
        'i'
    } else if c == 'J' {
        'j'
    } else if c == 'K' {
        'k'
    } else if c == 'L' {
        'l'
    } else if c == 'M' {
        'm'
    } else if c == 'N' {
        'n'
    } else if c == 'O' {
        'o'
    } else if c == 'P' {
        'p'
    } else if c == 'Q' {
        'q'
    } else if c == 'R' {
        'r'
    } else if c == 'S' {
        's'
    } else if c == 'T' {
        't'
    } else if c == 'U' {
        'u'
    } else if c == 'V' {
        'v'
    } else if c == 'W' {
        'w'
    } else if c == 'X' {
        'x'
    } else if c == 'Y' {
        'y'
    } else if c == 'Z' {
        'z'
    } else {
        c
    }
}

/// Character-wise lower-casing of a string.
pub open spec fn lower_seq(s: Seq<char>) -> Seq<char> {
    Seq::new(s.len(), |i: int| lower_char(s[i]))
}

/// The ordered labels of the editable fields of a resource kind.  A motion
/// carries one extra field, the proposer, when it is being created.
pub open spec fn labels_model(kind: ResourceKind, creating: bool) -> Seq<Seq<char>> {
    match kind {
        ResourceKind::Session => seq!["Date"@, "Name"@],
        ResourceKind::AgendaItem => seq!["Title"@, "Content"@],
        ResourceKind::Motion => if creating {
            seq!["Title"@, "Rationale"@, "Body"@, "Proposer"@]
        } else {
            seq!["Title"@, "Rationale"@, "Body"@]
        },
    }
}

/// The wire names of those fields, in the same order.
pub open spec fn wire_names_model(kind: ResourceKind, creating: bool) -> Seq<Seq<char>> {
    match kind {
        ResourceKind::Session => seq!["date"@, "name"@],
        ResourceKind::AgendaItem => seq!["title"@, "content"@],
        ResourceKind::Motion => if creating {
            seq!["title"@, "rationale"@, "body"@, "proposer"@]
        } else {
            seq!["title"@, "rationale"@, "body"@]
        },
    }
}

/// Every wire name is exactly the lower-cased label of its field.
pub proof fn lemma_wire_names_are_lowered_labels(kind: ResourceKind, creating: bool)
    ensures
        wire_names_model(kind, creating).len() == labels_model(kind, creating).len(),
        forall|j: int|
            0 <= j < labels_model(kind, creating).len() ==> #[trigger] wire_names_model(
                kind,
                creating,
            )[j] == lower_seq(labels_model(kind, creating)[j]),
{
    reveal_strlit("Date");
    reveal_strlit("date");
    reveal_strlit("Name");
    reveal_strlit("name");
    reveal_strlit("Title");
    reveal_strlit("title");
    reveal_strlit("Content");
    reveal_strlit("content");
    reveal_strlit("Rationale");
    reveal_strlit("rationale");
    reveal_strlit("Body");
    reveal_strlit("body");
    reveal_strlit("Proposer");
    reveal_strlit("proposer");
    assert(lower_seq("Date"@) =~= "date"@);
    assert(lower_seq("Name"@) =~= "name"@);
    assert(lower_seq("Title"@) =~= "title"@);
    assert(lower_seq("Content"@) =~= "content"@);
    assert(lower_seq("Rationale"@) =~= "rationale"@);
    assert(lower_seq("Body"@) =~= "body"@);
    assert(lower_seq("Proposer"@) =~= "proposer"@);
}

/// The number of editable fields of a kind.
pub fn field_count(kind: ResourceKind, creating: bool) -> (r: usize)
    ensures
        r == labels_model(kind, creating).len(),
{
    match kind {
        ResourceKind::Session => 2,
        ResourceKind::AgendaItem => 2,
        ResourceKind::Motion => if creating {
            4
        } else {
            3
        },
    }
}

/// The label of field `j` of a kind.
pub fn label_at(kind: ResourceKind, creating: bool, j: usize) -> (r: String)
    requires
        j < labels_model(kind, creating).len(),
    ensures
        r@ == labels_model(kind, creating)[j as int],
{
    match kind {
        ResourceKind::Session => if j == 0 {
            "Date".to_owned()
        } else {
            "Name".to_owned()
        },
        ResourceKind::AgendaItem => if j == 0 {
            "Title".to_owned()
        } else {
            "Content".to_owned()
        },
        ResourceKind::Motion => if j == 0 {
            "Title".to_owned()
        } else if j == 1 {
            "Rationale".to_owned()
        } else if j == 2 {
            "Body".to_owned()
        } else {
            "Proposer".to_owned()
        },
    }
}

/// The wire name of field `j` of a kind.
pub fn wire_name_at(kind: ResourceKind, creating: bool, j: usize) -> (r: String)
    requires
        j < labels_model(kind, creating).len(),
    ensures
        r@ == wire_names_model(kind, creating)[j as int],
        r@ == lower_seq(labels_model(kind, creating)[j as int]),
{
    proof {
        lemma_wire_names_are_lowered_labels(kind, creating);
    }
    match kind {
        ResourceKind::Session => if j == 0 {
            "date".to_owned()
        } else {
            "name".to_owned()
        },
        ResourceKind::AgendaItem => if j == 0 {
            "title".to_owned()
        } else {
            "content".to_owned()
        },
        ResourceKind::Motion => if j == 0 {
            "title".to_owned()
        } else if j == 1 {
            "rationale".to_owned()
        } else if j == 2 {
            "body".to_owned()
        } else {
            "proposer".to_owned()
        },
    }
}

} // verus!

//! An ordered, single-selection container with circular cursor navigation
//! and a "last selection remembered after unselect" rule.  One instance
//! backs every hierarchy level and the edit-field buffer.

use vstd::prelude::*;

verus! {

/// Mathematical model of a selectable list: the item sequence, the cursor,
/// and the index remembered across an unselect.
#[verifier::ext_equal]
pub ghost struct ListModel<A> {
    pub items: Seq<A>,
    pub selected: Option<int>,
    pub remembered: Option<int>,
}

/// Well-formedness: whenever the cursor or the remembered index is set, it
/// is a valid index into the items.
pub open spec fn list_wf<A>(m: ListModel<A>) -> bool {
    &&& (m.selected matches Some(i) ==> 0 <= i < m.items.len())
    &&& (m.remembered matches Some(i) ==> 0 <= i < m.items.len())
}

/// The list built from a fresh fetch: cursor on the first item when there is
/// one, nothing remembered.
pub open spec fn fresh_list<A>(items: Seq<A>) -> ListModel<A> {
    ListModel {
        items: items,
        selected: if items.len() > 0 {
            Some(0int)
        } else {
            None
        },
        remembered: None,
    }
}

/// Cursor step forward: circular advance when the cursor is set; when it is
/// unset, restore the remembered index (or fall back to the first item).  On
/// an empty list nothing happens.
pub open spec fn next_model<A>(m: ListModel<A>) -> ListModel<A> {
    if m.items.len() == 0 {
        m
    } else {
        let target: int = match m.selected {
            Some(i) => if i == m.items.len() - 1 {
                0
            } else {
                i + 1
            },
            None => match m.remembered {
                Some(j) => j,
                None => 0,
            },
        };
        ListModel { items: m.items, selected: Some(target), remembered: m.remembered }
    }
}

/// Cursor step backward, symmetric to [`next_model`]: wraps from the first
/// index to the last one.
pub open spec fn previous_model<A>(m: ListModel<A>) -> ListModel<A> {
    if m.items.len() == 0 {
        m
    } else {
        let target: int = match m.selected {
            Some(i) => if i == 0 {
                m.items.len() - 1
            } else {
                i - 1
            },
            None => match m.remembered {
                Some(j) => j,
                None => 0,
            },
        };
        ListModel { items: m.items, selected: Some(target), remembered: m.remembered }
    }
}

/// Clearing the cursor stores it into the remembered slot.
pub open spec fn unselect_model<A>(m: ListModel<A>) -> ListModel<A> {
    ListModel { items: m.items, selected: None, remembered: m.selected }
}

/// [`next_model`] iterated `k` times.
pub open spec fn iter_next<A>(m: ListModel<A>, k: nat) -> ListModel<A>
    decreases k,
{
    if k == 0 {
        m
    } else {
        next_model(iter_next(m, (k - 1) as nat))
    }
}

proof fn lemma_iter_next_index<A>(m: ListModel<A>, i: int, k: nat)
    requires
        list_wf(m),
        m.selected == Some(i),
        k <= m.items.len(),
    ensures
        iter_next(m, k).items == m.items,
        iter_next(m, k).remembered == m.remembered,
        iter_next(m, k).selected == Some(
            if i + k < m.items.len() {
                i + k
            } else {
                i + k - m.items.len()
            },
        ),
    decreases k,
{
    if k > 0 {
        lemma_iter_next_index(m, i, (k - 1) as nat);
    }
}

/// Circularity: on a non-empty list with the cursor set, exactly
/// `items.len()` forward steps bring the list back to its starting state,
/// and no smaller positive number of steps revisits the starting index.
pub proof fn lemma_next_cycles<A>(m: ListModel<A>, i: int)
    requires
        list_wf(m),
        m.selected == Some(i),
    ensures
        iter_next(m, m.items.len() as nat) == m,
        forall|k: nat| 0 < k < m.items.len() ==> #[trigger] iter_next(m, k).selected != Some(i),
{
    lemma_iter_next_index(m, i, m.items.len() as nat);
    assert(iter_next(m, m.items.len() as nat) =~= m);
    assert forall|k: nat| 0 < k < m.items.len() implies #[trigger] iter_next(m, k).selected
        != Some(i) by {
        lemma_iter_next_index(m, i, k);
    }
}

/// Stepping backward exactly inverts stepping forward: whenever the cursor
/// is set, `previous` after `next` restores the whole list state.
pub proof fn lemma_previous_inverts_next<A>(m: ListModel<A>)
    requires
        list_wf(m),
        m.selected is Some,
    ensures
        previous_model(next_model(m)) == m,
{
    assert(previous_model(next_model(m)) =~= m);
}

/// After an unselect, the next navigation step in either direction restores
/// the remembered index rather than jumping to the first item.
pub proof fn lemma_unselect_remembers<A>(m: ListModel<A>)
    requires
        list_wf(m),
        m.selected is Some,
    ensures
        next_model(unselect_model(m)).selected == m.selected,
        previous_model(unselect_model(m)).selected == m.selected,
{
}

/// Navigation on the empty list changes nothing at all.
pub proof fn lemma_empty_navigation_noop<A>(m: ListModel<A>)
    requires
        list_wf(m),
        m.items.len() == 0,
    ensures
        next_model(m) == m,
        previous_model(m) == m,
        unselect_model(m) == m,
{
    assert(unselect_model(m) =~= m);
}

/// The executable list.  It is rebuilt wholesale from every fresh fetch;
/// navigation never touches the items themselves.
pub struct SelectableList<T> {
    items: Vec<T>,
    selected: Option<usize>,
    remembered: Option<usize>,
}

impl<T: DeepView> View for SelectableList<T> {
    type V = ListModel<T::V>;

    closed spec fn view(&self) -> ListModel<T::V> {
        ListModel {
            items: self.items.deep_view(),
            selected: match self.selected {
                Some(i) => Some(i as int),
                None => None,
            },
            remembered: match self.remembered {
                Some(i) => Some(i as int),
                None => None,
            },
        }
    }
}

impl<T: DeepView> SelectableList<T> {
    /// Builds the list from freshly fetched items; the cursor starts on the
    /// first item when there is one.
    pub fn with_items(items: Vec<T>) -> (r: Self)
        ensures
            r@ == fresh_list(items.deep_view()),
            list_wf(r@),
    {
        let selected: Option<usize> = if items.len() > 0 {
            Some(0)
        } else {
            None
        };
        SelectableList { items, selected, remembered: None }
    }

    /// Number of items held.
    pub fn len(&self) -> (r: usize)
        ensures
            r == self@.items.len(),
    {
        self.items.len()
    }

    /// The item at index `i`.
    pub fn get(&self, i: usize) -> (r: &T)
        requires
            i < self@.items.len(),
        ensures
            r.deep_view() == self@.items[i as int],
    {
        &self.items[i]
    }

    /// The cursor, when it is set.
    pub fn selected_index(&self) -> (r: Option<usize>)
        ensures
            r matches Some(i) ==> self@.selected == Some(i as int),
            r is None ==> self@.selected is None,
    {
        self.selected
    }

    /// Replaces the item at index `i`, leaving the cursor and the
    /// remembered index untouched.
    pub fn update_at(&mut self, i: usize, v: T)
        requires
            list_wf(old(self)@),
            i < old(self)@.items.len(),
        ensures
            final(self)@ == (ListModel {
                items: old(self)@.items.update(i as int, v.deep_view()),
                selected: old(self)@.selected,
                remembered: old(self)@.remembered,
            }),
            list_wf(final(self)@),
    {
        let ghost v_model = v.deep_view();
        self.items[i] = v;
        assert(self@.items =~= old(self)@.items.update(i as int, v_model));
        assert(self@ =~= (ListModel {
            items: old(self)@.items.update(i as int, v_model),
            selected: old(self)@.selected,
            remembered: old(self)@.remembered,
        }));
    }

    /// Moves the cursor one step forward, as [`next_model`] says.
    pub fn next(&mut self)
        requires
            list_wf(old(self)@),
        ensures
            final(self)@ == next_model(old(self)@),
            list_wf(final(self)@),
    {
        let len = self.items.len();
        if len > 0 {
            let target: usize = match self.selected {
                Some(i) => if i + 1 == len {
                    0
                } else {
                    i + 1
                },
                None => match self.remembered {
                    Some(j) => j,
                    None => 0,
                },
            };
            self.selected = Some(target);
        }
        assert(self@ =~= next_model(old(self)@));
    }

    /// Moves the cursor one step backward, as [`previous_model`] says.
    pub fn previous(&mut self)
        requires
            list_wf(old(self)@),
        ensures
            final(self)@ == previous_model(old(self)@),
            list_wf(final(self)@),
    {
        let len = self.items.len();
        if len > 0 {
            let target: usize = match self.selected {
                Some(i) => if i == 0 {
                    len - 1
                } else {
                    i - 1
                },
                None => match self.remembered {
                    Some(j) => j,
                    None => 0,
                },
            };
            self.selected = Some(target);
        }
        assert(self@ =~= previous_model(old(self)@));
    }

    /// Clears the cursor, remembering where it stood.
    pub fn unselect(&mut self)
        requires
            list_wf(old(self)@),
        ensures
            final(self)@ == unselect_model(old(self)@),
            list_wf(final(self)@),
    {
        self.remembered = self.selected;
        self.selected = None;
        assert(self@ =~= unselect_model(old(self)@));
    }
}

} // verus!

//! The flow selected for plotting and the set of its series chosen for display.
use vstd::prelude::*;

verus! {

/// A TCP flow (by its database id) together with the ids of the series of that
/// flow that are selected for display. No selection is kept as `None`.
#[derive(Clone, Debug)]
pub struct TcpFlowWrapper {
    pub flow_id: Option<i64>,
    pub selected_series: Option<Vec<i64>>,
}

/// The selected series ids as a sequence (empty when nothing is selected).
pub open spec fn selection(w: TcpFlowWrapper) -> Seq<i64> {
    match w.selected_series {
        Some(v) => v@,
        None => Seq::empty(),
    }
}

/// The selection with every occurrence of `id` removed.
pub open spec fn without(s: Seq<i64>, id: i64) -> Seq<i64>
    decreases s.len(),
{
    if s.len() == 0 {
        s
    } else {
        let rest = without(s.drop_last(), id);
        if s.last() != id {
            rest.push(s.last())
        } else {
            rest
        }
    }
}

impl TcpFlowWrapper {
    /// No flow and no series selected.
    pub fn new() -> (r: TcpFlowWrapper)
        ensures
            r.flow_id is None,
            r.selected_series is None,
    {
        TcpFlowWrapper { flow_id: None, selected_series: None }
    }

    /// Whether the series `id_to_check` is selected.
    pub fn series_id_is_selected(&self, id_to_check: &i64) -> (r: bool)
        ensures
            r == selection(*self).contains(*id_to_check),
    {
        match &self.selected_series {
            Some(ids) => {
                let mut i: usize = 0;
                while i < ids.len()
                    invariant
                        i <= ids@.len(),
                        selection(*self) == ids@,
                        forall|k: int| 0 <= k < i ==> ids@[k] != *id_to_check,
                    decreases ids@.len() - i,
                {
                    if ids[i] == *id_to_check {
                        assert(selection(*self)[i as int] == *id_to_check);
                        return true;
                    }
                    i = i + 1;
                }
                false
            },
            None => false,
        }
    }

    /// Appends a series id to the selection (creating the selection if there was
    /// none). The caller keeps the selection free of repeats.
    pub fn add_new_series(&mut self, attribute_id: i64)
        ensures
            final(self).flow_id == old(self).flow_id,
            final(self).selected_series is Some,
            selection(*final(self)) == selection(*old(self)).push(attribute_id),
    {
        match &self.selected_series {
            Some(ids) => {
                let mut ids = ids.clone();
                ids.push(attribute_id);
                self.selected_series = Some(ids);
            },
            None => {
                let mut ids: Vec<i64> = Vec::new();
                ids.push(attribute_id);
                self.selected_series = Some(ids);
            },
        }
    }

    /// Removes every occurrence of a series id from the selection; a selection
    /// that becomes empty is dropped to `None`.
    pub fn remove_series(&mut self, attribute_id: &i64)
        ensures
            final(self).flow_id == old(self).flow_id,
            old(self).selected_series is None ==> final(self).selected_series is None,
            old(self).selected_series is Some ==> (final(self).selected_series is None
                <==> without(selection(*old(self)), *attribute_id).len() == 0),
            selection(*final(self)) == without(selection(*old(self)), *attribute_id),
    {
        match &self.selected_series {
            Some(ids) => {
                let mut kept: Vec<i64> = Vec::new();
                let mut i: usize = 0;
                while i < ids.len()
                    invariant
                        i <= ids@.len(),
                        kept@ == without(ids@.subrange(0, i as int), *attribute_id),
                    decreases ids@.len() - i,
                {
                    proof {
                        assert(ids@.subrange(0, i + 1).drop_last() == ids@.subrange(0, i as int));
                    }
                    if ids[i] != *attribute_id {
                        kept.push(ids[i]);
                    }
                    i = i + 1;
                }
                proof {
                    assert(ids@.subrange(0, ids@.len() as int) == ids@);
                }
                if kept.len() == 0 {
                    self.selected_series = None;
                } else {
                    self.selected_series = Some(kept);
                }
            },
            None => {
                proof {
                    assert(without(Seq::<i64>::empty(), *attribute_id) =~= Seq::<i64>::empty());
                }
            },
        }
    }
}

/// A series id that was just added to a selection is reported as selected.
pub proof fn law_added_series_is_selected(w: TcpFlowWrapper, id: i64)
    ensures
        selection(w).push(id).contains(id),
{
    assert(selection(w).push(id)[selection(w).len() as int] == id);
}

/// A removed series id is no longer selected.
pub proof fn law_removed_series_not_selected(w: TcpFlowWrapper, id: i64)
    ensures
        !without(selection(w), id).contains(id),
{
    lemma_without_excludes(selection(w), id);
}

proof fn lemma_without_excludes(s: Seq<i64>, id: i64)
    ensures
        !without(s, id).contains(id),
    decreases s.len(),
{
    if s.len() > 0 {
        lemma_without_excludes(s.drop_last(), id);
        let r = without(s.drop_last(), id);
        if s.last() != id {
            assert forall|k: int| 0 <= k < r.push(s.last()).len() implies r.push(s.last())[k] != id by {
                if k < r.len() {
                    assert(r.push(s.last())[k] == r[k]);
                }
            }
        }
    }
}

proof fn lemma_without_absent(s: Seq<i64>, id: i64)
    requires
        !s.contains(id),
    ensures
        without(s, id) == s,
    decreases s.len(),
{
    if s.len() > 0 {
        assert(!s.drop_last().contains(id)) by {
            if s.drop_last().contains(id) {
                let k = choose|k: int| 0 <= k < s.drop_last().len() && s.drop_last()[k] == id;
                assert(s[k] == id);
            }
        }
        lemma_without_absent(s.drop_last(), id);
        assert(s[s.len() - 1] != id);
        assert(s.drop_last().push(s.last()) == s);
    }
}

/// Adding a series that was not selected and then removing it again gives back
/// the selection unchanged.
pub proof fn law_add_then_remove_restores(w: TcpFlowWrapper, id: i64)
    requires
        !selection(w).contains(id),
    ensures
        without(selection(w).push(id), id) == selection(w),
{
    let s = selection(w);
    assert(s.push(id).drop_last() == s);
    lemma_without_absent(s, id);
}

impl Default for TcpFlowWrapper {
    fn default() -> (r: TcpFlowWrapper)
        ensures
            r.flow_id is None,
            r.selected_series is None,
    {
        TcpFlowWrapper::new()
    }
}

} // verus!

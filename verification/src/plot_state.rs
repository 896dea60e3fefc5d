//! The series selection of a single flow's plot.
use vstd::prelude::*;

verus! {

/// The first position of `x` in `s` at or after `i`, if any.
pub open spec fn first_pos(s: Seq<i64>, x: i64, i: int) -> Option<int>
    decreases s.len() - i,
{
    if i < 0 || i >= s.len() {
        None
    } else if s[i] == x {
        Some(i)
    } else {
        first_pos(s, x, i + 1)
    }
}

proof fn lemma_first_pos_absent(s: Seq<i64>, x: i64, i: int)
    requires
        0 <= i <= s.len(),
        first_pos(s, x, i) is None,
    ensures
        forall|k: int| i <= k < s.len() ==> s[k] != x,
    decreases s.len() - i,
{
    if i < s.len() {
        lemma_first_pos_absent(s, x, i + 1);
    }
}

/// Toggles a series in the plot's selection: a selected series is removed
/// (its first occurrence), any other is appended. Tells whether it was added,
/// in which case the plot loads it and gives it the next colour.
pub fn toggle_series_id(selected: &mut Vec<i64>, series_id: i64) -> (added: bool)
    ensures
        added <==> first_pos(old(selected)@, series_id, 0) is None,
        match first_pos(old(selected)@, series_id, 0) {
            Some(p) => final(selected)@ == old(selected)@.remove(p),
            None => final(selected)@ == old(selected)@.push(series_id),
        },
        added ==> !old(selected)@.contains(series_id),
{
    let mut i: usize = 0;
    while i < selected.len()
        invariant
            i <= selected@.len(),
            selected@ == old(selected)@,
            first_pos(selected@, series_id, i as int) == first_pos(selected@, series_id, 0),
        decreases selected@.len() - i,
    {
        if selected[i] == series_id {
            selected.remove(i);
            return false;
        }
        i = i + 1;
    }
    proof {
        lemma_first_pos_absent(old(selected)@, series_id, 0);
    }
    selected.push(series_id);
    true
}

/// Toggling the same series twice leaves a selection that did not hold it
/// unchanged.
pub proof fn law_toggle_twice_restores(s: Seq<i64>, id: i64)
    requires
        !s.contains(id),
    ensures
        first_pos(s, id, 0) is None,
        first_pos(s.push(id), id, 0) == Some(s.len() as int),
        s.push(id).remove(s.len() as int) == s,
{
    assert forall|k: int| 0 <= k <= s.len() implies first_pos(s.push(id), id, k) == Some(
        s.len() as int,
    ) && first_pos(s, id, k) is None by {
        lemma_first_pos_tail(s, id, k);
    }
    assert(s.push(id).remove(s.len() as int) =~= s);
}

proof fn lemma_first_pos_tail(s: Seq<i64>, id: i64, k: int)
    requires
        !s.contains(id),
        0 <= k <= s.len(),
    ensures
        first_pos(s.push(id), id, k) == Some(s.len() as int),
        first_pos(s, id, k) is None,
    decreases s.len() - k,
{
    if k < s.len() {
        assert(s[k] != id);
        assert(s.push(id)[k] == s[k]);
        lemma_first_pos_tail(s, id, k + 1);
    }
}

/// The loaded series among `s` other than `id`, in order.
pub open spec fn without_series(s: Seq<(i64, usize)>, id: i64) -> Seq<(i64, usize)>
    decreases s.len(),
{
    if s.len() == 0 {
        s
    } else if s.last().0 == id {
        without_series(s.drop_last(), id)
    } else {
        without_series(s.drop_last(), id).push(s.last())
    }
}

/// The series selection of a plot: the selected ids, and the series loaded for
/// display, each as its id and the index of its colour in the plot's colours.
pub struct PlotSelection {
    pub selected_series_ids: Vec<i64>,
    pub series: Vec<(i64, usize)>,
}

impl PlotSelection {
    /// Nothing selected.
    pub fn new() -> (r: PlotSelection)
        ensures
            r.selected_series_ids@ == Seq::<i64>::empty(),
            r.series@ == Seq::<(i64, usize)>::empty(),
    {
        PlotSelection { selected_series_ids: Vec::new(), series: Vec::new() }
    }

    /// Toggles a series: a selected one is deselected and unloaded; any other
    /// is selected and, when the database knows it (`found`), loaded with the
    /// next colour (the number of series loaded before it).
    pub fn toggle_series(&mut self, series_id: i64, found: bool) -> (added: bool)
        ensures
            added <==> first_pos(old(self).selected_series_ids@, series_id, 0) is None,
            match first_pos(old(self).selected_series_ids@, series_id, 0) {
                Some(p) => final(self).selected_series_ids@ == old(
                    self,
                ).selected_series_ids@.remove(p),
                None => final(self).selected_series_ids@ == old(
                    self,
                ).selected_series_ids@.push(series_id),
            },
            !added ==> final(self).series@ == without_series(old(self).series@, series_id),
            added && found ==> final(self).series@ == old(self).series@.push(
                (series_id, old(self).series@.len() as usize),
            ),
            added && !found ==> final(self).series@ == old(self).series@,
    {
        let added = toggle_series_id(&mut self.selected_series_ids, series_id);
        if !added {
            let mut kept: Vec<(i64, usize)> = Vec::new();
            let mut i: usize = 0;
            while i < self.series.len()
                invariant
                    i <= self.series@.len(),
                    self.series@ == old(self).series@,
                    kept@ == without_series(self.series@.subrange(0, i as int), series_id),
                decreases self.series@.len() - i,
            {
                proof {
                    assert(self.series@.subrange(0, i + 1).drop_last() == self.series@.subrange(
                        0,
                        i as int,
                    ));
                }
                if self.series[i].0 != series_id {
                    kept.push(self.series[i]);
                }
                i = i + 1;
            }
            proof {
                assert(self.series@.subrange(0, self.series@.len() as int) == self.series@);
            }
            self.series = kept;
        } else if found {
            let color_index = self.series.len();
            self.series.push((series_id, color_index));
        }
        added
    }
}

proof fn lemma_without_absent(s: Seq<(i64, usize)>, id: i64)
    requires
        forall|k: int| 0 <= k < s.len() ==> #[trigger] s[k].0 != id,
    ensures
        without_series(s, id) == s,
    decreases s.len(),
{
    if s.len() > 0 {
        lemma_without_absent(s.drop_last(), id);
        assert(s.drop_last().push(s.last()) == s);
    }
}

/// Toggling a series that was neither selected nor loaded twice gives back the
/// plot's selection and its loaded series, colours included.
pub proof fn law_toggle_series_twice_restores(
    ids: Seq<i64>,
    series: Seq<(i64, usize)>,
    id: i64,
    found: bool,
)
    requires
        !ids.contains(id),
        forall|k: int| 0 <= k < series.len() ==> #[trigger] series[k].0 != id,
    ensures
        ({
            let loaded = if found {
                series.push((id, series.len() as usize))
            } else {
                series
            };
            &&& first_pos(ids, id, 0) is None
            &&& first_pos(ids.push(id), id, 0) == Some(ids.len() as int)
            &&& ids.push(id).remove(ids.len() as int) == ids
            &&& without_series(loaded, id) == series
        }),
{
    law_toggle_twice_restores(ids, id);
    lemma_without_absent(series, id);
    if found {
        let loaded = series.push((id, series.len() as usize));
        assert(loaded.drop_last() == series);
    }
}

} // verus!

//! State kept by the visualiser's tabs and tables, apart from their drawing.
use vstd::prelude::*;
use std::collections::HashMap;
use crate::flow_filter::{flow_matches, spec_flow_matches, FlowRow};
use crate::processor::ValueKind;
use crate::text::{chars_of, contains, spec_contains, spec_to_lowercase, to_lowercase};

verus! {

/// The tabs of the visualiser window.
#[derive(Clone, Copy, PartialEq, Eq, Debug, Structural)]
pub enum Tab {
    Home,
    Single,
    Multi,
    Process,
    Settings,
}

/// The caption of each tab in the tab bar.
pub open spec fn spec_tab_label(tab: Tab) -> Seq<char> {
    match tab {
        Tab::Home => "Home"@,
        Tab::Single => "Single Flow"@,
        Tab::Multi => "Multi Flow"@,
        Tab::Process => "Process"@,
        Tab::Settings => "Settings"@,
    }
}

/// Whether leaving a tab resets its state (the plotting and processing tabs do).
pub open spec fn spec_resets_on_leave(tab: Tab) -> bool {
    tab == Tab::Single || tab == Tab::Multi || tab == Tab::Process
}

impl Tab {
    /// The tabs in the order the tab bar shows them.
    pub fn all() -> (r: Vec<Tab>)
        ensures
            r@ == seq![Tab::Home, Tab::Single, Tab::Multi, Tab::Process, Tab::Settings],
    {
        let mut r: Vec<Tab> = Vec::new();
        r.push(Tab::Home);
        r.push(Tab::Single);
        r.push(Tab::Multi);
        r.push(Tab::Process);
        r.push(Tab::Settings);
        r
    }

    /// The caption of the tab in the tab bar.
    pub fn label(&self) -> (r: &'static str)
        ensures
            r@ == spec_tab_label(*self),
    {
        match self {
            Tab::Home => "Home",
            Tab::Single => "Single Flow",
            Tab::Multi => "Multi Flow",
            Tab::Process => "Process",
            Tab::Settings => "Settings",
        }
    }

    /// Whether the tab's state is reset when the user switches away from it.
    pub fn resets_on_leave(&self) -> (r: bool)
        ensures
            r == spec_resets_on_leave(*self),
    {
        match self {
            Tab::Single | Tab::Multi | Tab::Process => true,
            _ => false,
        }
    }
}

/// The tab that is shown after the user clicks `clicked` while `active` is
/// shown, and whether `active` has to be reset first (a click on the active tab
/// changes nothing).
pub fn switch_tab(active: Tab, clicked: Tab) -> (r: (Tab, bool))
    ensures
        r.0 == clicked,
        r.1 == (active != clicked && spec_resets_on_leave(active)),
{
    if active == clicked {
        (active, false)
    } else {
        (clicked, active.resets_on_leave())
    }
}

/// Cached per-flow numbers shown in the flow table.
#[derive(Clone, Copy, Debug)]
pub struct FlowStats {
    pub series_count: usize,
    pub point_count: i64,
}

/// A filterable table for selecting a TCP flow.
pub struct FlowTable {
    pub filter: String,
    pub selected_id: Option<i64>,
    pub stats_cache: HashMap<i64, FlowStats>,
}

impl FlowTable {
    /// Empty filter, no selection, nothing cached.
    pub fn new() -> (r: FlowTable)
        ensures
            r.filter@ == Seq::<char>::empty(),
            r.selected_id is None,
            r.stats_cache@ == Map::<i64, FlowStats>::empty(),
    {
        FlowTable { filter: String::new(), selected_id: None, stats_cache: HashMap::new() }
    }

    /// Clears the filter, the selection and the cached statistics.
    pub fn reset(&mut self)
        ensures
            final(self).filter@ == Seq::<char>::empty(),
            final(self).selected_id is None,
            final(self).stats_cache@ == Map::<i64, FlowStats>::empty(),
    {
        self.filter = String::new();
        self.selected_id = None;
        self.stats_cache.clear();
    }

    /// Forgets the cached statistics (after the database was changed).
    pub fn clear_stats_cache(&mut self)
        ensures
            final(self).filter == old(self).filter,
            final(self).selected_id == old(self).selected_id,
            final(self).stats_cache@ == Map::<i64, FlowStats>::empty(),
    {
        self.stats_cache.clear();
    }

    /// Records a click on the row of flow `flow_id`: returns the newly selected
    /// flow, or `None` when the row was already selected.
    pub fn click_row(&mut self, flow_id: i64) -> (r: Option<i64>)
        ensures
            final(self).filter == old(self).filter,
            final(self).stats_cache == old(self).stats_cache,
            final(self).selected_id == Some(flow_id),
            r == (if old(self).selected_id == Some(flow_id) {
                None
            } else {
                Some(flow_id)
            }),
    {
        let already = match self.selected_id {
            Some(id) => id == flow_id,
            None => false,
        };
        if already {
            None
        } else {
            self.selected_id = Some(flow_id);
            Some(flow_id)
        }
    }
}

/// A searchable, checkable table for selecting time series.
pub struct SeriesTable {
    pub filter: String,
}

impl SeriesTable {
    pub fn new() -> (r: SeriesTable)
        ensures
            r.filter@ == Seq::<char>::empty(),
    {
        SeriesTable { filter: String::new() }
    }

    /// Clears the filter.
    pub fn reset(&mut self)
        ensures
            final(self).filter@ == Seq::<char>::empty(),
    {
        self.filter = String::new();
    }
}

/// The start page; it shows a status line about the database connection.
pub struct TabHome {
    pub status: String,
}

impl TabHome {
    pub fn new() -> (r: TabHome)
        ensures
            r.status@ == Seq::<char>::empty(),
    {
        TabHome { status: String::new() }
    }

    /// Replaces the status line.
    pub fn set_status(&mut self, status: String)
        ensures
            final(self).status == status,
    {
        self.status = status;
    }
}

/// The settings page; all its state lives in the application settings.
#[derive(Default)]
pub struct TabSettings;

impl Default for FlowTable {
    fn default() -> (r: FlowTable)
        ensures
            r.filter@ == Seq::<char>::empty(),
            r.selected_id is None,
            r.stats_cache@ == Map::<i64, FlowStats>::empty(),
    {
        FlowTable::new()
    }
}

impl Default for SeriesTable {
    fn default() -> (r: SeriesTable)
        ensures
            r.filter@ == Seq::<char>::empty(),
    {
        SeriesTable::new()
    }
}

impl Default for TabHome {
    fn default() -> (r: TabHome)
        ensures
            r.status@ == Seq::<char>::empty(),
    {
        TabHome::new()
    }
}

// ---------------------------------------------------------------------------
// What the tables show.

/// The positions, in order, of the rows among the first `n` that `keep` selects.
pub open spec fn kept_positions(keep: spec_fn(int) -> bool, n: int) -> Seq<usize>
    decreases n,
{
    if n <= 0 {
        Seq::empty()
    } else if keep(n - 1) {
        kept_positions(keep, n - 1).push((n - 1) as usize)
    } else {
        kept_positions(keep, n - 1)
    }
}

/// The positions of the flows the flow table lists for a filter text: the
/// filter is lower-cased, then matched against every flow.
pub open spec fn spec_visible_flows(flows: Seq<FlowRow>, filter: Seq<char>) -> Seq<usize> {
    kept_positions(|i: int| spec_flow_matches(flows[i], spec_to_lowercase(filter)), flows.len() as int)
}

/// The positions of the series whose lower-cased name contains the lower-cased
/// filter text.
pub open spec fn spec_visible_series(names: Seq<String>, filter: Seq<char>) -> Seq<usize> {
    kept_positions(
        |i: int| spec_contains(spec_to_lowercase(names[i]@), spec_to_lowercase(filter)),
        names.len() as int,
    )
}

/// Sum of the point counts of a flow's series.
pub open spec fn sum_counts(counts: Seq<i64>) -> int
    decreases counts.len(),
{
    if counts.len() == 0 {
        0
    } else {
        sum_counts(counts.drop_last()) + counts.last()
    }
}

/// Every partial sum of the point counts fits in an `i64`.
pub open spec fn counts_fit(counts: Seq<i64>) -> bool {
    forall|k: int|
        0 <= k <= counts.len() ==> i64::MIN <= #[trigger] sum_counts(counts.subrange(0, k))
            <= i64::MAX
}

/// The statistics of a flow from the point counts of its series.
pub fn flow_stats_from_counts(point_counts: &[i64]) -> (r: FlowStats)
    requires
        counts_fit(point_counts@),
    ensures
        r.series_count == point_counts@.len(),
        r.point_count == sum_counts(point_counts@),
{
    let mut total: i64 = 0;
    let mut i: usize = 0;
    while i < point_counts.len()
        invariant
            i <= point_counts@.len(),
            counts_fit(point_counts@),
            total == sum_counts(point_counts@.subrange(0, i as int)),
        decreases point_counts@.len() - i,
    {
        proof {
            assert(point_counts@.subrange(0, i + 1).drop_last() == point_counts@.subrange(0, i as int));
            assert(i64::MIN <= sum_counts(point_counts@.subrange(0, i + 1)) <= i64::MAX);
        }
        total = total + point_counts[i];
        i = i + 1;
    }
    proof {
        assert(point_counts@.subrange(0, point_counts@.len() as int) == point_counts@);
    }
    FlowStats { series_count: point_counts.len(), point_count: total }
}

/// How a table row is shaded.
#[derive(Clone, Copy, Debug, PartialEq, Eq, Structural)]
pub enum RowShade {
    Selected,
    SelectedHover,
    Hover,
    Even,
    Odd,
}

/// The shading of row `index` of a table: hovering wins, then the selection,
/// then alternating even and odd rows.
pub fn row_shade(is_selected: bool, hovered: bool, index: usize) -> (r: RowShade)
    ensures
        r == (if hovered && is_selected {
            RowShade::SelectedHover
        } else if hovered {
            RowShade::Hover
        } else if is_selected {
            RowShade::Selected
        } else if index % 2 == 0 {
            RowShade::Even
        } else {
            RowShade::Odd
        }),
{
    if hovered && is_selected {
        RowShade::SelectedHover
    } else if hovered {
        RowShade::Hover
    } else if is_selected {
        RowShade::Selected
    } else if index % 2 == 0 {
        RowShade::Even
    } else {
        RowShade::Odd
    }
}

/// The type column of the series table: a short name of the value kind, and
/// its colour as red, green and blue (the float colour is dimmed for a selected
/// row).
pub fn type_display(kind: ValueKind, selected: bool) -> (r: (&'static str, (u8, u8, u8)))
    ensures
        r.0@ == (match kind {
            ValueKind::Float => "f64"@,
            ValueKind::Int => "i64"@,
            ValueKind::Boolean => "bool"@,
            ValueKind::Text => "str"@,
        }),
        r.1 == (match kind {
            ValueKind::Float => (60u8, 140u8, if selected { 220u8 } else { 255u8 }),
            ValueKind::Int => (180u8, 100u8, 20u8),
            ValueKind::Boolean => (140u8, 60u8, 160u8),
            ValueKind::Text => (60u8, 120u8, 60u8),
        }),
{
    let base: u8 = if selected { 220 } else { 255 };
    match kind {
        ValueKind::Float => ("f64", (60, 140, base)),
        ValueKind::Int => ("i64", (180, 100, 20)),
        ValueKind::Boolean => ("bool", (140, 60, 160)),
        ValueKind::Text => ("str", (60, 120, 60)),
    }
}

impl FlowTable {
    /// The positions of the flows the table lists under its current filter.
    pub fn visible(&self, flows: &[FlowRow]) -> (r: Vec<usize>)
        ensures
            r@ == spec_visible_flows(flows@, self.filter@),
    {
        let lower = to_lowercase(self.filter.as_str());
        let ghost keep = |i: int| spec_flow_matches(flows@[i], spec_to_lowercase(self.filter@));
        let mut out: Vec<usize> = Vec::new();
        let mut i: usize = 0;
        while i < flows.len()
            invariant
                i <= flows@.len(),
                lower@ == spec_to_lowercase(self.filter@),
                keep == (|i: int| spec_flow_matches(flows@[i], spec_to_lowercase(self.filter@))),
                out@ == kept_positions(keep, i as int),
            decreases flows@.len() - i,
        {
            if flow_matches(&flows[i], lower.as_str()) {
                out.push(i);
            }
            i = i + 1;
        }
        out
    }

    /// The cached statistics of a flow, if they were computed already.
    pub fn cached_stats(&self, flow_id: i64) -> (r: Option<FlowStats>)
        ensures
            r == (if self.stats_cache@.contains_key(flow_id) {
                Some(self.stats_cache@[flow_id])
            } else {
                None
            }),
    {
        match self.stats_cache.get(&flow_id) {
            Some(s) => Some(*s),
            None => None,
        }
    }

    /// Remembers the statistics of a flow until the cache is cleared.
    pub fn remember_stats(&mut self, flow_id: i64, stats: FlowStats)
        ensures
            final(self).filter == old(self).filter,
            final(self).selected_id == old(self).selected_id,
            final(self).stats_cache@ == old(self).stats_cache@.insert(flow_id, stats),
    {
        self.stats_cache.insert(flow_id, stats);
    }
}

impl SeriesTable {
    /// The positions of the series (given by name) the table lists under its
    /// current filter.
    pub fn visible(&self, names: &[String]) -> (r: Vec<usize>)
        ensures
            r@ == spec_visible_series(names@, self.filter@),
    {
        let lower = to_lowercase(self.filter.as_str());
        let needle = chars_of(lower.as_str());
        let ghost keep = |i: int| spec_contains(spec_to_lowercase(names@[i]@), spec_to_lowercase(self.filter@));
        let mut out: Vec<usize> = Vec::new();
        let mut i: usize = 0;
        while i < names.len()
            invariant
                i <= names@.len(),
                needle@ == spec_to_lowercase(self.filter@),
                keep == (|i: int| spec_contains(spec_to_lowercase(names@[i]@), spec_to_lowercase(self.filter@))),
                out@ == kept_positions(keep, i as int),
            decreases names@.len() - i,
        {
            let name = to_lowercase(names[i].as_str());
            let hay = chars_of(name.as_str());
            if contains(hay.as_slice(), needle.as_slice()) {
                out.push(i);
            }
            i = i + 1;
        }
        out
    }
}

} // verus!

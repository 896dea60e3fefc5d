//! The recorder's terminal view: which graphs it offers, the status blocks it
//! shows, the counters it can save, and how it reacts to keys and the mouse.
use vstd::prelude::*;

verus! {

/// Which rate graphs the terminal view offers.
#[derive(Clone, Copy, Debug)]
pub struct GraphConfig {
    pub events: bool,
    pub packets: bool,
    pub kernel: bool,
    pub cubic: bool,
    pub bbr: bool,
    pub tracepoints: bool,
}

/// The graphs of the terminal view.
#[derive(Clone, Copy, Debug, PartialEq, Eq, Structural)]
pub enum GraphKind {
    Events,
    Packets,
    Kernel,
    Cubic,
    Bbr,
    Tracepoints,
}

/// The tab caption of each graph.
pub open spec fn spec_graph_title(g: GraphKind) -> Seq<char> {
    match g {
        GraphKind::Events => "Events"@,
        GraphKind::Packets => "Packets"@,
        GraphKind::Kernel => "Kernel"@,
        GraphKind::Cubic => "Cubic"@,
        GraphKind::Bbr => "BBR"@,
        GraphKind::Tracepoints => "Tracepoints"@,
    }
}

impl GraphKind {
    pub fn title(&self) -> (r: &'static str)
        ensures
            r@ == spec_graph_title(*self),
    {
        match self {
            GraphKind::Events => "Events",
            GraphKind::Packets => "Packets",
            GraphKind::Kernel => "Kernel",
            GraphKind::Cubic => "Cubic",
            GraphKind::Bbr => "BBR",
            GraphKind::Tracepoints => "Tracepoints",
        }
    }
}

/// `s` extended by `g` when `on`.
pub open spec fn push_if(s: Seq<GraphKind>, on: bool, g: GraphKind) -> Seq<GraphKind> {
    if on {
        s.push(g)
    } else {
        s
    }
}

/// The graph tabs, in their fixed order, of the graphs that are enabled.
pub open spec fn spec_graph_tabs(c: GraphConfig) -> Seq<GraphKind> {
    push_if(
        push_if(
            push_if(
                push_if(
                    push_if(push_if(Seq::empty(), c.events, GraphKind::Events), c.packets, GraphKind::Packets),
                    c.kernel,
                    GraphKind::Kernel,
                ),
                c.cubic,
                GraphKind::Cubic,
            ),
            c.bbr,
            GraphKind::Bbr,
        ),
        c.tracepoints,
        GraphKind::Tracepoints,
    )
}

impl GraphConfig {
    /// No graph enabled.
    pub fn new() -> (r: GraphConfig)
        ensures
            !r.events && !r.packets && !r.kernel && !r.cubic && !r.bbr && !r.tracepoints,
    {
        GraphConfig {
            events: false,
            packets: false,
            kernel: false,
            cubic: false,
            bbr: false,
            tracepoints: false,
        }
    }

    /// The tabs of the enabled graphs, in the order Events, Packets, Kernel,
    /// Cubic, BBR, Tracepoints.
    pub fn tabs(&self) -> (r: Vec<GraphKind>)
        ensures
            r@ == spec_graph_tabs(*self),
    {
        let mut r: Vec<GraphKind> = Vec::new();
        if self.events {
            r.push(GraphKind::Events);
        }
        if self.packets {
            r.push(GraphKind::Packets);
        }
        if self.kernel {
            r.push(GraphKind::Kernel);
        }
        if self.cubic {
            r.push(GraphKind::Cubic);
        }
        if self.bbr {
            r.push(GraphKind::Bbr);
        }
        if self.tracepoints {
            r.push(GraphKind::Tracepoints);
        }
        r
    }
}

/// The graph drawn for the selected tab; with no tab, the events graph.
pub fn selected_graph(tabs: &[GraphKind], selected_tab: usize) -> (r: GraphKind)
    requires
        tabs@.len() == 0 || selected_tab < tabs@.len(),
    ensures
        r == (if tabs@.len() == 0 {
            GraphKind::Events
        } else {
            tabs@[selected_tab as int]
        }),
{
    if tabs.len() == 0 {
        GraphKind::Events
    } else {
        tabs[selected_tab]
    }
}

/// The layouts the view can arrange its graphs in.
#[derive(Clone, Copy, Debug, PartialEq, Eq, Structural)]
pub enum ViewLayout {
    PacketsOnly,
    CallsOnly,
    SplitHorizontal,
    SplitVertical,
    BBROnly,
    CubicOnly,
}

/// The layouts offered for what is recorded: packets, kernel calls, both (split
/// either way), the congestion algorithms; with nothing recorded, a single
/// empty packets view.
pub open spec fn spec_views(packets: bool, calls: bool, algorithms: bool) -> Seq<(Seq<char>, ViewLayout)> {
    let a: Seq<(Seq<char>, ViewLayout)> = if packets {
        seq![("Packets"@, ViewLayout::PacketsOnly)]
    } else {
        Seq::empty()
    };
    let b = if calls {
        a.push(("Calls"@, ViewLayout::CallsOnly))
    } else {
        a
    };
    let c = if packets && calls {
        b.push(("Split H"@, ViewLayout::SplitHorizontal)).push(("Split V"@, ViewLayout::SplitVertical))
    } else {
        b
    };
    let d = if algorithms {
        c.push(("BBR"@, ViewLayout::BBROnly)).push(("Cubic"@, ViewLayout::CubicOnly))
    } else {
        c
    };
    if d.len() == 0 {
        seq![("None"@, ViewLayout::PacketsOnly)]
    } else {
        d
    }
}

/// The layouts offered by the view.
pub fn views(packets: bool, calls: bool, algorithms: bool) -> (r: Vec<(&'static str, ViewLayout)>)
    ensures
        r@.map_values(|v: (&'static str, ViewLayout)| (v.0@, v.1)) == spec_views(
            packets,
            calls,
            algorithms,
        ),
{
    let mut r: Vec<(&'static str, ViewLayout)> = Vec::new();
    if packets {
        r.push(("Packets", ViewLayout::PacketsOnly));
    }
    if calls {
        r.push(("Calls", ViewLayout::CallsOnly));
    }
    if packets && calls {
        r.push(("Split H", ViewLayout::SplitHorizontal));
        r.push(("Split V", ViewLayout::SplitVertical));
    }
    if algorithms {
        r.push(("BBR", ViewLayout::BBROnly));
        r.push(("Cubic", ViewLayout::CubicOnly));
    }
    if r.len() == 0 {
        r.push(("None", ViewLayout::PacketsOnly));
    }
    assert(r@.map_values(|v: (&'static str, ViewLayout)| (v.0@, v.1)) =~= spec_views(
        packets,
        calls,
        algorithms,
    ));
    r
}

/// The status column of the terminal view.
pub struct Status {}

/// The captions of the status blocks, top to bottom.
pub open spec fn spec_status_titles() -> Seq<Seq<char>> {
    seq![
        "Time Elapsed"@,
        "Events Handled"@,
        "Events Dropped"@,
        "Event Rate"@,
        "Disk File Size"@,
        "Write Speed"@,
        "TCP Bytes Sent"@,
        "TCP Bytes Received"@,
    ]
}

impl Status {
    pub fn new() -> (r: Status) {
        Status {  }
    }

    /// The number of blocks in the status column.
    pub fn num_blocks(&self) -> (r: usize)
        ensures
            r == 8,
            r == spec_status_titles().len(),
    {
        8
    }

    /// The captions of the status blocks, top to bottom.
    pub fn titles(&self) -> (r: Vec<&'static str>)
        ensures
            r@.map_values(|t: &'static str| t@) == spec_status_titles(),
    {
        let mut r: Vec<&'static str> = Vec::new();
        r.push("Time Elapsed");
        r.push("Events Handled");
        r.push("Events Dropped");
        r.push("Event Rate");
        r.push("Disk File Size");
        r.push("Write Speed");
        r.push("TCP Bytes Sent");
        r.push("TCP Bytes Received");
        assert(r@.map_values(|t: &'static str| t@) =~= spec_status_titles());
        r
    }
}

/// The counters saved at the end of a recording.
#[derive(Clone, Copy, Debug)]
pub struct Metrics {
    pub handled: u32,
    pub dropped: u32,
    pub ingress: u32,
    pub egress: u32,
    pub ingress_calls: u32,
    pub egress_calls: u32,
    pub tcp_bytes_sent: u32,
    pub tcp_bytes_received: u32,
}

// ---------------------------------------------------------------------------
// Navigation.

/// Where the user is in the terminal view: the selected graph tab and the first
/// flow row shown.
#[derive(Clone, Copy, Debug)]
pub struct TuiState {
    pub selected_tab: usize,
    pub scroll_index: usize,
}

/// The inputs the view reacts to.
#[derive(Clone, Copy, Debug, PartialEq, Eq, Structural)]
pub enum TuiEvent {
    /// Esc or 'q'.
    Quit,
    /// Down arrow or mouse wheel down.
    ScrollDown,
    /// Up arrow or mouse wheel up.
    ScrollUp,
    /// Right arrow or Tab.
    NextTab,
    /// Left arrow.
    PreviousTab,
    /// A left click on the tab with this position.
    ClickTab(usize),
    /// Anything else.
    Other,
}

/// What the view asks its loop to do after an input.
#[derive(Clone, Copy, Debug, PartialEq, Eq, Structural)]
pub enum TuiAction {
    Continue,
    Stop,
}

/// The state after an input, with `tabs` graph tabs and `flows` flow rows.
pub open spec fn spec_tui_step(s: TuiState, e: TuiEvent, tabs: nat, flows: nat) -> TuiState {
    match e {
        TuiEvent::ScrollDown => TuiState {
            scroll_index: if s.scroll_index < flows {
                (s.scroll_index + 1) as usize
            } else {
                flows as usize
            },
            ..s
        },
        TuiEvent::ScrollUp => TuiState {
            scroll_index: if s.scroll_index > 0 {
                (s.scroll_index - 1) as usize
            } else {
                0
            },
            ..s
        },
        TuiEvent::NextTab => if tabs > 0 {
            TuiState { selected_tab: ((s.selected_tab + 1) % (tabs as int)) as usize, ..s }
        } else {
            s
        },
        TuiEvent::PreviousTab => if tabs == 0 {
            s
        } else if s.selected_tab > 0 {
            TuiState { selected_tab: (s.selected_tab - 1) as usize, ..s }
        } else {
            TuiState { selected_tab: (tabs - 1) as usize, ..s }
        },
        TuiEvent::ClickTab(i) => TuiState { selected_tab: i, ..s },
        _ => s,
    }
}

impl TuiState {
    /// First tab selected, list scrolled to the top.
    pub fn new() -> (r: TuiState)
        ensures
            r.selected_tab == 0,
            r.scroll_index == 0,
    {
        TuiState { selected_tab: 0, scroll_index: 0 }
    }

    /// Applies one input. `tabs` is the number of graph tabs and `flows` the
    /// number of flow rows; a click names a tab that exists.
    pub fn handle(&mut self, event: TuiEvent, tabs: usize, flows: usize) -> (r: TuiAction)
        requires
            event matches TuiEvent::ClickTab(i) ==> i < tabs,
            tabs == 0 || old(self).selected_tab < tabs,
        ensures
            *final(self) == spec_tui_step(*old(self), event, tabs as nat, flows as nat),
            r == (if event == TuiEvent::Quit {
                TuiAction::Stop
            } else {
                TuiAction::Continue
            }),
    {
        match event {
            TuiEvent::Quit => {
                return TuiAction::Stop;
            },
            TuiEvent::ScrollDown => {
                self.scroll_index = if self.scroll_index < flows {
                    self.scroll_index + 1
                } else {
                    flows
                };
            },
            TuiEvent::ScrollUp => {
                self.scroll_index = if self.scroll_index > 0 {
                    self.scroll_index - 1
                } else {
                    0
                };
            },
            TuiEvent::NextTab => {
                if tabs > 0 {
                    proof {
                        if old(self).selected_tab + 1 < tabs {
                            vstd::arithmetic::div_mod::lemma_small_mod(
                                (old(self).selected_tab + 1) as nat,
                                tabs as nat,
                            );
                        } else {
                            vstd::arithmetic::div_mod::lemma_mod_self_0(tabs as int);
                        }
                    }
                    self.selected_tab = if self.selected_tab < tabs - 1 {
                        self.selected_tab + 1
                    } else {
                        0
                    };
                }
            },
            TuiEvent::PreviousTab => {
                if tabs == 0 {
                } else if self.selected_tab > 0 {
                    self.selected_tab = self.selected_tab - 1;
                } else {
                    self.selected_tab = tabs - 1;
                }
            },
            TuiEvent::ClickTab(i) => {
                self.selected_tab = i;
            },
            TuiEvent::Other => {},
        }
        TuiAction::Continue
    }
}

/// Every input keeps the selected tab among the existing tabs.
pub proof fn law_tab_stays_in_range(s: TuiState, e: TuiEvent, tabs: nat, flows: nat)
    requires
        0 < tabs <= usize::MAX,
        s.selected_tab < tabs,
        e matches TuiEvent::ClickTab(i) ==> i < tabs,
    ensures
        spec_tui_step(s, e, tabs, flows).selected_tab < tabs,
{
}

/// Scrolling down never goes past the last flow row.
pub proof fn law_scroll_bounded(s: TuiState, tabs: nat, flows: nat)
    requires
        s.scroll_index <= flows,
    ensures
        spec_tui_step(s, TuiEvent::ScrollDown, tabs, flows).scroll_index <= flows,
        spec_tui_step(s, TuiEvent::ScrollUp, tabs, flows).scroll_index <= flows,
{
}

/// Moving to the next tab and back to the previous one returns to the tab one
/// started from.
pub proof fn law_next_then_previous(s: TuiState, tabs: nat, flows: nat)
    requires
        0 < tabs <= usize::MAX,
        s.selected_tab < tabs,
    ensures
        spec_tui_step(spec_tui_step(s, TuiEvent::NextTab, tabs, flows), TuiEvent::PreviousTab, tabs, flows)
            == s,
{
    if s.selected_tab + 1 < tabs {
        vstd::arithmetic::div_mod::lemma_small_mod((s.selected_tab + 1) as nat, tabs);
        assert((s.selected_tab + 1) % (tabs as int) == s.selected_tab + 1);
        assert(spec_tui_step(s, TuiEvent::NextTab, tabs, flows).selected_tab == s.selected_tab + 1);
    } else {
        vstd::arithmetic::div_mod::lemma_mod_self_0(tabs as int);
        assert(s.selected_tab + 1 == tabs);
        assert(spec_tui_step(s, TuiEvent::NextTab, tabs, flows).selected_tab == 0);
    }
}

// ---------------------------------------------------------------------------
// The kernel counters the view watches.

/// The per-CPU counter maps the view reads, each with the unit of its rate and
/// its caption: (map name, unit, caption).
pub open spec fn spec_counter_maps() -> Seq<(Seq<char>, Seq<char>, Seq<char>)> {
    seq![
        ("EVENTS_DROPPED"@, "Events/s"@, "Event Drops"@),
        ("EVENTS_HANDLED"@, "Events/s"@, "Event Handled"@),
        ("INGRESS_EVENTS"@, "pps"@, "Ingress Packets"@),
        ("EGRESS_EVENTS"@, "pps"@, "Egress Packets"@),
        ("SEND_TCP_SOCK"@, "Calls/s"@, "TCP Sendmsg"@),
        ("RECV_TCP_SOCK"@, "Bytes/s"@, "TCP Recvmsg"@),
        ("RECEIVED_TCP_BYTES"@, "Calls/s"@, "TCP Bytes Received"@),
        ("SENT_TCP_BYTES"@, "Calls/s"@, "TCP Bytes Sent"@),
        ("CUBIC_EVENTS_COUNTER"@, "Calls/s"@, "Cubic Events"@),
        ("BBR_EVENTS_COUNTER"@, "Calls/s"@, "BBR Events"@),
        ("TRACEPOINT_EVENTS"@, "Calls/s"@, "Tracepoint Events"@),
    ]
}

/// The counter maps the view reads, in the order they are opened.
pub fn counter_maps() -> (r: Vec<(&'static str, &'static str, &'static str)>)
    ensures
        r@.map_values(|e: (&'static str, &'static str, &'static str)| (e.0@, e.1@, e.2@))
            == spec_counter_maps(),
{
    let mut r: Vec<(&'static str, &'static str, &'static str)> = Vec::new();
    r.push(("EVENTS_DROPPED", "Events/s", "Event Drops"));
    r.push(("EVENTS_HANDLED", "Events/s", "Event Handled"));
    r.push(("INGRESS_EVENTS", "pps", "Ingress Packets"));
    r.push(("EGRESS_EVENTS", "pps", "Egress Packets"));
    r.push(("SEND_TCP_SOCK", "Calls/s", "TCP Sendmsg"));
    r.push(("RECV_TCP_SOCK", "Bytes/s", "TCP Recvmsg"));
    r.push(("RECEIVED_TCP_BYTES", "Calls/s", "TCP Bytes Received"));
    r.push(("SENT_TCP_BYTES", "Calls/s", "TCP Bytes Sent"));
    r.push(("CUBIC_EVENTS_COUNTER", "Calls/s", "Cubic Events"));
    r.push(("BBR_EVENTS_COUNTER", "Calls/s", "BBR Events"));
    r.push(("TRACEPOINT_EVENTS", "Calls/s", "Tracepoint Events"));
    assert(r@.map_values(|e: (&'static str, &'static str, &'static str)| (e.0@, e.1@, e.2@))
        =~= spec_counter_maps());
    r
}

/// The map of flows the view lists.
pub fn flows_map() -> (r: &'static str)
    ensures
        r@ == "FLOWS"@,
{
    "FLOWS"
}

/// The error reported when a map the view needs was not loaded.
pub fn missing_map_message(name: &str) -> (r: String)
    ensures
        r@ == "Could not find "@ + name@ + " map!"@,
{
    let mut m = String::from_str("Could not find ");
    m.append(name);
    m.append(" map!");
    m
}

impl Default for GraphConfig {
    fn default() -> (r: GraphConfig)
        ensures
            !r.events && !r.packets && !r.kernel && !r.cubic && !r.bbr && !r.tracepoints,
    {
        GraphConfig::new()
    }
}

impl Default for Status {
    fn default() -> (r: Status) {
        Status::new()
    }
}

} // verus!

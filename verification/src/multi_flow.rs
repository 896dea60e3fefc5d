//! The decisions of the plotting screens (two flows compared, or one flow):
//! which flows and series are chosen, and whether the chart is drawn.
use vstd::prelude::*;
use crate::flow_wrapper::{selection, without, TcpFlowWrapper};

verus! {

/// What the comparison screen reacts to (zooming and the mouse aside).
#[derive(Clone, Copy, Debug, PartialEq, Eq, Structural)]
pub enum MultiFlowMessage {
    FlowOneSelected(i64),
    FlowTwoSelected(i64),
    FlowOneFeatureSelected(i64),
    FlowTwoFeatureSelected(i64),
    FlowOneFeatureDeselected(i64),
    FlowTwoFeatureDeselected(i64),
    SplitChartRequested(bool),
    DrawLineSeriesRequested(bool),
    GraphGenerationRequested,
    UnselectAllSeries,
}

/// What the screen asks its caller to do after a message.
#[derive(Clone, Copy, Debug, PartialEq, Eq, Structural)]
pub enum MultiFlowAction {
    Nothing,
    /// Reset the zoom to the extent of both flows.
    ResetZoom,
    /// Fetch the plotted data again, then reset the zoom.
    RefetchAndResetZoom,
    /// Redraw the cached chart.
    Redraw,
}

/// The two flows being compared and how the chart is shown.
pub struct MultiFlowState {
    pub first: TcpFlowWrapper,
    pub second: TcpFlowWrapper,
    pub render_chart: bool,
    pub split_chart: bool,
    pub draw_line_series: bool,
}

impl MultiFlowState {
    /// No flows chosen, nothing drawn.
    pub fn new() -> (r: MultiFlowState)
        ensures
            r.first.flow_id is None && r.first.selected_series is None,
            r.second.flow_id is None && r.second.selected_series is None,
            !r.render_chart && !r.split_chart && !r.draw_line_series,
    {
        MultiFlowState {
            first: TcpFlowWrapper::new(),
            second: TcpFlowWrapper::new(),
            render_chart: false,
            split_chart: false,
            draw_line_series: false,
        }
    }

    /// Applies a message. `has_plot_data` tells whether plotted data is
    /// loaded. Choosing a flow stops drawing; deselecting a flow's last series
    /// stops drawing; a request to draw toggles drawing when both flows have
    /// series selected and data is loaded, and stops it otherwise.
    pub fn update(&mut self, message: MultiFlowMessage, has_plot_data: bool) -> (r: MultiFlowAction)
        ensures
            final(self).split_chart == (match message {
                MultiFlowMessage::SplitChartRequested(v) => v,
                _ => old(self).split_chart,
            }),
            final(self).draw_line_series == (match message {
                MultiFlowMessage::DrawLineSeriesRequested(v) => v,
                _ => old(self).draw_line_series,
            }),
            final(self).first.flow_id == (match message {
                MultiFlowMessage::FlowOneSelected(id) => Some(id),
                _ => old(self).first.flow_id,
            }),
            final(self).second.flow_id == (match message {
                MultiFlowMessage::FlowTwoSelected(id) => Some(id),
                _ => old(self).second.flow_id,
            }),
            message == MultiFlowMessage::UnselectAllSeries ==> final(self).first.selected_series is None
                && final(self).second.selected_series is None,
            selection(final(self).first) == (match message {
                MultiFlowMessage::UnselectAllSeries => Seq::empty(),
                MultiFlowMessage::FlowOneFeatureSelected(id) => selection(old(self).first).push(id),
                MultiFlowMessage::FlowOneFeatureDeselected(id) => without(selection(old(self).first), id),
                _ => selection(old(self).first),
            }),
            selection(final(self).second) == (match message {
                MultiFlowMessage::UnselectAllSeries => Seq::empty(),
                MultiFlowMessage::FlowTwoFeatureSelected(id) => selection(old(self).second).push(id),
                MultiFlowMessage::FlowTwoFeatureDeselected(id) => without(selection(old(self).second), id),
                _ => selection(old(self).second),
            }),
            final(self).render_chart == (match message {
                MultiFlowMessage::FlowOneSelected(_) | MultiFlowMessage::FlowTwoSelected(_) => false,
                MultiFlowMessage::FlowOneFeatureDeselected(_) => old(self).render_chart
                    && final(self).first.selected_series is Some,
                MultiFlowMessage::FlowTwoFeatureDeselected(_) => old(self).render_chart
                    && final(self).second.selected_series is Some,
                MultiFlowMessage::GraphGenerationRequested => old(self).first.selected_series is Some
                    && old(self).second.selected_series is Some && has_plot_data
                    && !old(self).render_chart,
                _ => old(self).render_chart,
            }),
            r == (match message {
                MultiFlowMessage::FlowOneSelected(_) | MultiFlowMessage::FlowTwoSelected(_) => MultiFlowAction::ResetZoom,
                MultiFlowMessage::FlowOneFeatureSelected(_) | MultiFlowMessage::FlowTwoFeatureSelected(_)
                | MultiFlowMessage::FlowOneFeatureDeselected(_) | MultiFlowMessage::FlowTwoFeatureDeselected(_) => MultiFlowAction::RefetchAndResetZoom,
                MultiFlowMessage::DrawLineSeriesRequested(_) => MultiFlowAction::Redraw,
                _ => MultiFlowAction::Nothing,
            }),
    {
        match message {
            MultiFlowMessage::FlowOneSelected(id) => {
                self.render_chart = false;
                self.first.flow_id = Some(id);
                MultiFlowAction::ResetZoom
            },
            MultiFlowMessage::FlowTwoSelected(id) => {
                self.render_chart = false;
                self.second.flow_id = Some(id);
                MultiFlowAction::ResetZoom
            },
            MultiFlowMessage::FlowOneFeatureSelected(id) => {
                self.first.add_new_series(id);
                MultiFlowAction::RefetchAndResetZoom
            },
            MultiFlowMessage::FlowTwoFeatureSelected(id) => {
                self.second.add_new_series(id);
                MultiFlowAction::RefetchAndResetZoom
            },
            MultiFlowMessage::FlowOneFeatureDeselected(id) => {
                self.first.remove_series(&id);
                if self.first.selected_series.is_none() {
                    self.render_chart = false;
                }
                MultiFlowAction::RefetchAndResetZoom
            },
            MultiFlowMessage::FlowTwoFeatureDeselected(id) => {
                self.second.remove_series(&id);
                if self.second.selected_series.is_none() {
                    self.render_chart = false;
                }
                MultiFlowAction::RefetchAndResetZoom
            },
            MultiFlowMessage::SplitChartRequested(v) => {
                self.split_chart = v;
                MultiFlowAction::Nothing
            },
            MultiFlowMessage::DrawLineSeriesRequested(v) => {
                self.draw_line_series = v;
                MultiFlowAction::Redraw
            },
            MultiFlowMessage::GraphGenerationRequested => {
                if self.first.selected_series.is_some() && self.second.selected_series.is_some()
                    && has_plot_data {
                    self.render_chart = !self.render_chart;
                } else {
                    self.render_chart = false;
                }
                MultiFlowAction::Nothing
            },
            MultiFlowMessage::UnselectAllSeries => {
                self.first.selected_series = None;
                self.second.selected_series = None;
                MultiFlowAction::Nothing
            },
        }
    }
}

/// What the single-flow plotting screen reacts to (zooming and the mouse aside).
#[derive(Clone, Copy, Debug, PartialEq, Eq, Structural)]
pub enum SingleFlowMessage {
    FlowSelected(i64),
    FlowFeatureSelected(i64),
    FlowFeatureDeselected(i64),
    GraphGenerationRequested,
    UnselectAllSeries,
    CheckBoxMultiplePlots(bool),
}

/// What the single-flow screen asks its caller to do after a message.
#[derive(Clone, Copy, Debug, PartialEq, Eq, Structural)]
pub enum SingleFlowAction {
    Nothing,
    /// Reset the zoom to the extent of the flow.
    ResetZoom,
    /// Reset the zoom, then fetch the plotted data again.
    ResetZoomAndRefetch,
}

/// The flow being plotted and how the chart is shown.
pub struct SingleFlowState {
    pub flow: TcpFlowWrapper,
    pub render_chart: bool,
    pub split_chart: bool,
}

impl SingleFlowState {
    /// No flow chosen, nothing drawn.
    pub fn new() -> (r: SingleFlowState)
        ensures
            r.flow.flow_id is None && r.flow.selected_series is None,
            !r.render_chart && !r.split_chart,
    {
        SingleFlowState { flow: TcpFlowWrapper::new(), render_chart: false, split_chart: false }
    }

    /// Applies a message. Choosing a flow stops drawing and clears the series
    /// selection; deselecting the last series stops drawing; a request to draw
    /// toggles drawing when series are selected, and stops it otherwise.
    pub fn update(&mut self, message: SingleFlowMessage) -> (r: SingleFlowAction)
        ensures
            final(self).split_chart == (match message {
                SingleFlowMessage::CheckBoxMultiplePlots(v) => v,
                _ => old(self).split_chart,
            }),
            final(self).flow.flow_id == (match message {
                SingleFlowMessage::FlowSelected(id) => Some(id),
                _ => old(self).flow.flow_id,
            }),
            (message is FlowSelected || message is UnselectAllSeries)
                ==> final(self).flow.selected_series is None,
            selection(final(self).flow) == (match message {
                SingleFlowMessage::FlowSelected(_) | SingleFlowMessage::UnselectAllSeries => Seq::empty(),
                SingleFlowMessage::FlowFeatureSelected(id) => selection(old(self).flow).push(id),
                SingleFlowMessage::FlowFeatureDeselected(id) => without(selection(old(self).flow), id),
                _ => selection(old(self).flow),
            }),
            !(message is FlowSelected || message is UnselectAllSeries || message is FlowFeatureDeselected)
                ==> (final(self).flow.selected_series is None <==> (old(self).flow.selected_series is None
                && !(message is FlowFeatureSelected))),
            final(self).render_chart == (match message {
                SingleFlowMessage::FlowSelected(_) => false,
                SingleFlowMessage::FlowFeatureDeselected(_) => old(self).render_chart
                    && final(self).flow.selected_series is Some,
                SingleFlowMessage::GraphGenerationRequested => old(self).flow.selected_series is Some
                    && !old(self).render_chart,
                _ => old(self).render_chart,
            }),
            r == (match message {
                SingleFlowMessage::FlowSelected(_) => SingleFlowAction::ResetZoom,
                SingleFlowMessage::FlowFeatureSelected(_) | SingleFlowMessage::FlowFeatureDeselected(_) => SingleFlowAction::ResetZoomAndRefetch,
                _ => SingleFlowAction::Nothing,
            }),
    {
        match message {
            SingleFlowMessage::FlowSelected(id) => {
                self.render_chart = false;
                self.flow.flow_id = Some(id);
                self.flow.selected_series = None;
                SingleFlowAction::ResetZoom
            },
            SingleFlowMessage::FlowFeatureSelected(id) => {
                self.flow.add_new_series(id);
                SingleFlowAction::ResetZoomAndRefetch
            },
            SingleFlowMessage::FlowFeatureDeselected(id) => {
                self.flow.remove_series(&id);
                if self.flow.selected_series.is_none() {
                    self.render_chart = false;
                }
                SingleFlowAction::ResetZoomAndRefetch
            },
            SingleFlowMessage::GraphGenerationRequested => {
                if self.flow.selected_series.is_some() {
                    self.render_chart = !self.render_chart;
                } else {
                    self.render_chart = false;
                }
                SingleFlowAction::Nothing
            },
            SingleFlowMessage::UnselectAllSeries => {
                self.flow.selected_series = None;
                SingleFlowAction::Nothing
            },
            SingleFlowMessage::CheckBoxMultiplePlots(v) => {
                self.split_chart = v;
                SingleFlowAction::Nothing
            },
        }
    }
}

} // verus!

//! Verified core of the TCBee TCP flow recorder and analyser.
use vstd::prelude::*;

pub mod tcp_seq;
pub mod analysis;
pub mod plugins;
pub mod flow_wrapper;
pub mod ui_state;
pub mod text;
pub mod names;
pub mod process_tab;
pub mod flow_filter;
pub mod paths;
pub mod backend;
pub mod db;
pub mod processor;
pub mod sampling;
pub mod moving_average;
pub mod filter;
pub mod flows;
pub mod watcher;
pub mod runner;
pub mod writer;
pub mod home;
pub mod colors;
pub mod plot_state;
pub mod plot_values;
pub mod multi_flow;

verus! {

} // verus!

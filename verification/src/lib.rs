//! A safety layer over a native media filter-graph engine.
//!
//! The engine exposes graph construction and streaming through raw handles
//! and integer status codes.  This crate holds the verified half of the
//! wrapper: the bookkeeping that decides, from each engine status code, which
//! typed result the caller sees, whether ownership of engine-allocated pad
//! lists has transferred, and which operations remain permitted on the graph
//! afterwards.  The unverified half, which makes the actual foreign calls,
//! keeps one value of these types beside every raw handle and consults it
//! before and after every call.

mod error;
mod graph;
mod kind;
mod pads;
mod status;

pub use error::FilterError;
pub use graph::{
    count_end_of_stream, drain_run_valid, lemma_drain_reports_exhaustion_at_most_once,
    lemma_exhausted_sink_is_terminal, lemma_node_stability_transitive, preserves_nodes,
    same_node_identity, FilterGraph, NodeSlot,
};
pub use kind::KindHandle;
pub use pads::{lemma_parse_ownership_discipline, parse_consumes, PadList};
pub use status::{check_status, sink_pull_result, status_ok, STATUS_END_OF_STREAM, STATUS_NOT_READY};

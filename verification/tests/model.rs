use filtergraph::{FilterError, FilterGraph, KindHandle, PadList};

const STATUS_SUCCESS: i32 = 0;
const STATUS_INVALID_ARGUMENT: i32 = -22;

fn source_kind() -> KindHandle {
    KindHandle::lookup(true, true, false).expect("registered source kind")
}

fn sink_kind() -> KindHandle {
    KindHandle::lookup(true, false, true).expect("registered sink kind")
}

#[test]
fn lookup_of_registered_kind_succeeds() {
    let kind = KindHandle::lookup(true, true, false).expect("registered kind");
    assert!(kind.source_capable);
    assert!(!kind.sink_capable);
}

#[test]
fn lookup_of_unknown_kind_fails() {
    let r = KindHandle::lookup(false, false, false);
    assert_eq!(r, Err(FilterError::NodeKindNotFound));
}

#[test]
fn instantiation_issues_consecutive_slots() {
    let mut g = FilterGraph::new();
    assert_eq!(g.node_count(), 0);
    let a = g.instantiate(&source_kind(), STATUS_SUCCESS).expect("first node");
    let b = g.instantiate(&sink_kind(), STATUS_SUCCESS).expect("second node");
    assert_eq!(a, 0);
    assert_eq!(b, 1);
    assert_eq!(g.node_count(), 2);
    assert!(g.node(a).source_capable);
    assert!(g.node(b).sink_capable);
}

#[test]
fn instantiation_keeps_existing_nodes() {
    let mut g = FilterGraph::new();
    let a = g.instantiate(&source_kind(), STATUS_SUCCESS).expect("first node");
    let b = g.instantiate(&sink_kind(), STATUS_SUCCESS).expect("second node");
    let slot_a = g.node(a);
    let slot_b = g.node(b);
    let c = g.instantiate(&sink_kind(), STATUS_SUCCESS).expect("third node");
    assert_eq!(c, 2);
    assert_eq!(g.node(a), slot_a);
    assert_eq!(g.node(b), slot_b);
    assert_eq!(g.node(a).id, 0);
    assert_eq!(g.node(b).id, 1);
}

#[test]
fn failed_instantiation_leaves_container_usable() {
    let mut g = FilterGraph::new();
    let r = g.instantiate(&source_kind(), STATUS_INVALID_ARGUMENT);
    assert_eq!(r, Err(FilterError::NodeCreationFailed));
    assert_eq!(g.node_count(), 0);
    let a = g.instantiate(&source_kind(), STATUS_SUCCESS).expect("container still usable");
    assert_eq!(a, 0);
    assert_eq!(g.node_count(), 1);
}

#[test]
fn configure_failure_reports_invalid_and_leaves_graph_unconfigured() {
    let mut g = FilterGraph::new();
    g.instantiate(&source_kind(), STATUS_SUCCESS).expect("source node");
    let r = g.configure(STATUS_INVALID_ARGUMENT);
    assert_eq!(r, Err(FilterError::ConfigurationInvalid));
    assert!(!g.is_configured());
}

#[test]
fn parse_success_consumes_argument_pad_lists() {
    let mut g = FilterGraph::new();
    let mut inputs = PadList::new();
    let mut outputs = PadList::new();
    assert!(inputs.is_releasable());
    assert!(outputs.is_releasable());
    let (open_in, open_out) = g
        .parse(&mut inputs, &mut outputs, STATUS_SUCCESS, false, true)
        .expect("parse succeeds");
    assert!(!inputs.is_releasable());
    assert!(!outputs.is_releasable());
    assert!(open_in.is_none());
    let returned = open_out.expect("one side stayed open");
    assert!(returned.is_releasable());
}

#[test]
fn parse_failure_leaves_argument_pad_lists_releasable_once() {
    let mut g = FilterGraph::new();
    let mut inputs = PadList::new();
    let mut outputs = PadList::new();
    let r = g.parse(&mut inputs, &mut outputs, STATUS_INVALID_ARGUMENT, false, false);
    assert!(matches!(r, Err(FilterError::GraphParseFailed)));
    assert!(inputs.is_releasable());
    assert!(outputs.is_releasable());
    inputs.release();
    outputs.release();
    assert!(!inputs.is_releasable());
    assert!(!outputs.is_releasable());
}

#[test]
fn property_rejection_changes_nothing() {
    let mut g = FilterGraph::new();
    let a = g.instantiate(&source_kind(), STATUS_SUCCESS).expect("node");
    let r = g.set_property(a, STATUS_INVALID_ARGUMENT);
    assert_eq!(r, Err(FilterError::PropertyRejected));
    assert_eq!(g.node_count(), 1);
    assert!(!g.is_configured());
    let ok = g.set_property(a, STATUS_SUCCESS);
    assert_eq!(ok, Ok(()));
}

#[test]
fn push_rejection_is_reported() {
    let mut g = FilterGraph::new();
    let a = g.instantiate(&source_kind(), STATUS_SUCCESS).expect("source node");
    g.configure(STATUS_SUCCESS).expect("configured");
    assert!(g.push_permitted(a));
    let r = g.push_frame(a, STATUS_INVALID_ARGUMENT);
    assert_eq!(r, Err(FilterError::SourceRejectedFrame));
    assert_eq!(g.push_frame(a, STATUS_SUCCESS), Ok(()));
}

#[test]
fn sink_pull_outcomes_stay_distinct() {
    let mut g = FilterGraph::new();
    let s = g.instantiate(&sink_kind(), STATUS_SUCCESS).expect("sink node");
    g.configure(STATUS_SUCCESS).expect("configured");
    assert!(g.pull_permitted(s));
    assert_eq!(
        g.pull_frame(s, filtergraph::STATUS_NOT_READY),
        Err(FilterError::SinkNotReady)
    );
    assert!(g.pull_permitted(s));
    assert_eq!(g.pull_frame(s, -1), Err(FilterError::SinkError));
    assert!(g.pull_permitted(s));
    assert_eq!(g.pull_frame(s, STATUS_SUCCESS), Ok(()));
}

#[test]
fn paused_source_keeps_sink_retryable() {
    let mut g = FilterGraph::new();
    let s = g.instantiate(&sink_kind(), STATUS_SUCCESS).expect("sink node");
    g.configure(STATUS_SUCCESS).expect("configured");
    for _ in 0..3 {
        assert!(g.pull_permitted(s));
        assert_eq!(
            g.pull_frame(s, filtergraph::STATUS_NOT_READY),
            Err(FilterError::SinkNotReady)
        );
    }
    assert!(g.pull_permitted(s));
}

#[test]
fn exhausted_sink_permits_no_further_pull() {
    let mut g = FilterGraph::new();
    let s = g.instantiate(&sink_kind(), STATUS_SUCCESS).expect("sink node");
    g.configure(STATUS_SUCCESS).expect("configured");
    assert_eq!(
        g.pull_frame(s, filtergraph::STATUS_END_OF_STREAM),
        Err(FilterError::SinkExhausted)
    );
    assert!(g.node(s).exhausted);
    assert!(!g.pull_permitted(s));
}

#[test]
fn round_trip_scenario() {
    // Assemble a container with one source node, one sink node, and a
    // parsed mini-graph between them; configure it; stream one frame
    // through and drain the sink.
    let mut g = FilterGraph::new();
    let source = g.instantiate(&source_kind(), STATUS_SUCCESS).expect("source node");
    let sink = g.instantiate(&sink_kind(), STATUS_SUCCESS).expect("sink node");

    let mut inputs = PadList::new();
    let mut outputs = PadList::new();
    let (open_in, open_out) = g
        .parse(&mut inputs, &mut outputs, STATUS_SUCCESS, false, false)
        .expect("spec fully linked");
    assert!(open_in.is_none());
    assert!(open_out.is_none());
    assert!(!inputs.is_releasable());
    assert!(!outputs.is_releasable());

    g.configure(STATUS_SUCCESS).expect("topology valid");
    assert!(g.is_configured());

    g.push_frame(source, STATUS_SUCCESS).expect("frame accepted");
    g.push_frame(source, STATUS_SUCCESS).expect("end of stream accepted");

    assert_eq!(g.pull_frame(sink, STATUS_SUCCESS), Ok(()));
    assert_eq!(
        g.pull_frame(sink, filtergraph::STATUS_END_OF_STREAM),
        Err(FilterError::SinkExhausted)
    );
    assert!(!g.pull_permitted(sink));

    // The container is still intact: both nodes kept their identity.
    assert_eq!(g.node(source).id, 0);
    assert_eq!(g.node(sink).id, 1);
}

#[test]
fn status_constants_match_the_engine() {
    assert_eq!(filtergraph::STATUS_NOT_READY, -11);
    assert_eq!(filtergraph::STATUS_END_OF_STREAM, -541478725);
}

#[test]
fn check_status_charges_the_given_kind() {
    assert_eq!(filtergraph::check_status(0, FilterError::PropertyRejected), Ok(()));
    assert_eq!(filtergraph::check_status(7, FilterError::PropertyRejected), Ok(()));
    assert_eq!(
        filtergraph::check_status(-1, FilterError::PropertyRejected),
        Err(FilterError::PropertyRejected)
    );
}

#[test]
fn sink_pull_result_classifies_every_code() {
    assert_eq!(filtergraph::sink_pull_result(0), Ok(()));
    assert_eq!(filtergraph::sink_pull_result(3), Ok(()));
    assert_eq!(
        filtergraph::sink_pull_result(filtergraph::STATUS_NOT_READY),
        Err(FilterError::SinkNotReady)
    );
    assert_eq!(
        filtergraph::sink_pull_result(filtergraph::STATUS_END_OF_STREAM),
        Err(FilterError::SinkExhausted)
    );
    assert_eq!(filtergraph::sink_pull_result(-22), Err(FilterError::SinkError));
}

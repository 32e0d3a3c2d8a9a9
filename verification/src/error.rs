use vstd::prelude::*;

verus! {

/// The failure kinds a graph operation can report.
///
/// Every negative status code coming back from the engine is converted at
/// the call site into exactly one of these; nothing is retried or swallowed.
/// `SinkNotReady` is the only kind a caller is expected to treat as a
/// loop-and-retry signal; every other kind is terminal for the operation
/// that produced it.
#[derive(Clone, Copy, PartialEq, Eq, Structural, Debug)]
pub enum FilterError {
    /// Lookup of a node kind by name found no match.
    NodeKindNotFound,
    /// A configuration write was refused by the node's option system.
    PropertyRejected,
    /// Pushing a frame (or the end-of-stream marker) into a source node failed.
    SourceRejectedFrame,
    /// A sink pull found insufficient buffered input (transient, retryable).
    SinkNotReady,
    /// A sink pull found the stream permanently finished (terminal).
    SinkExhausted,
    /// Any other sink-pull failure.
    SinkError,
    /// Instantiating a node inside the graph failed.
    NodeCreationFailed,
    /// Graph validation or finalization failed.
    ConfigurationInvalid,
    /// Textual mini-graph parsing failed; the topology may be partially modified.
    GraphParseFailed,
}

} // verus!

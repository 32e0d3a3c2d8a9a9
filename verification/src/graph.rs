use vstd::prelude::*;

verus! {

use crate::error::FilterError;
use crate::kind::KindHandle;
use crate::pads::{parse_consumes, PadList};
use crate::status::{check_status, sink_pull_result, status_ok, STATUS_END_OF_STREAM,
    STATUS_NOT_READY};

/// The bookkeeping record for one live node of a graph: its identity and
/// the facts about it that gate later operations.
///
/// A node's identity is the slot index it was issued at; the `id` field
/// repeats it so that a slot read out of the container states its own
/// identity.  Nodes are only ever added, never removed or renumbered, so a
/// slot, once issued, describes the same engine node for the container's
/// whole life.
#[derive(Clone, Copy, PartialEq, Eq, Structural, Debug)]
pub struct NodeSlot {
    /// The slot index this node was issued at; never reused, never changed.
    pub id: u64,
    /// Whether the node accepts externally pushed frames.
    pub source_capable: bool,
    /// Whether the node yields frames for the caller to pull.
    pub sink_capable: bool,
    /// Whether a pull from this node has reported the stream permanently
    /// finished.  Set at most once, never cleared.
    pub exhausted: bool,
}

/// Whether two slot records describe the same engine node: the identity
/// and the capabilities agree.  The `exhausted` mark is runtime progress,
/// not identity, so it is left out.
pub open spec fn same_node_identity(a: NodeSlot, b: NodeSlot) -> bool {
    &&& a.id == b.id
    &&& a.source_capable == b.source_capable
    &&& a.sink_capable == b.sink_capable
}

/// The stability relation every container operation maintains: each slot
/// issued before the operation still exists afterwards, at the same index,
/// describing the same engine node.  This is what lets several node
/// references stay valid while further nodes are still being added.
pub open spec fn preserves_nodes(pre: Seq<NodeSlot>, post: Seq<NodeSlot>) -> bool {
    &&& pre.len() <= post.len()
    &&& forall|i: int| 0 <= i < pre.len() ==> same_node_identity(pre[i], #[trigger] post[i])
}

/// The verified state of one graph container: which node slots it has
/// issued and whether the topology has been validated for streaming.
///
/// The unverified boundary keeps one of these beside the engine's raw
/// graph handle and records every engine verdict here, so that the
/// preconditions below — streaming only after a successful `configure`,
/// no pull from an exhausted sink, pad lists released exactly once — are
/// the conditions it tests before each foreign call.
///
/// The engine permits node addition, and only addition, while node
/// references are outstanding, because added nodes cannot invalidate
/// existing ones.  The container leans on the same restriction: it has no
/// remove operation, and every method's contract keeps each issued slot at
/// its index with its identity (see [`preserves_nodes`]).  Releasing the
/// container releases the whole topology; the borrow checker keeps node
/// indices from outliving it on the unverified side.
#[derive(Debug)]
pub struct FilterGraph {
    nodes: Vec<NodeSlot>,
    configured: bool,
}

impl FilterGraph {
    /// The node slots issued so far, in issue order.
    pub closed spec fn nodes(&self) -> Seq<NodeSlot> {
        self.nodes@
    }

    /// Whether the graph's links and formats have been validated, which is
    /// what licenses streaming.
    pub closed spec fn configured(&self) -> bool {
        self.configured
    }

    /// Well-formedness: every slot's stated identity is the index it sits
    /// at.
    pub open spec fn wf(&self) -> bool {
        forall|i: int| 0 <= i < self.nodes().len() ==> (#[trigger] self.nodes()[i]).id == i
    }

    /// Whether a pull from the given node is permitted: the node exists,
    /// is sink-capable, the graph is configured, and the node has not yet
    /// reported exhaustion.
    pub open spec fn pull_ready(&self, node: int) -> bool {
        &&& self.wf()
        &&& 0 <= node < self.nodes().len()
        &&& self.nodes()[node].sink_capable
        &&& self.configured()
        &&& !self.nodes()[node].exhausted
    }

    /// Whether a push into the given node is permitted: the node exists,
    /// is source-capable, and the graph is configured.
    pub open spec fn push_ready(&self, node: int) -> bool {
        &&& self.wf()
        &&& 0 <= node < self.nodes().len()
        &&& self.nodes()[node].source_capable
        &&& self.configured()
    }

    /// Allocates an empty, unconfigured graph.  Allocation exhaustion in
    /// the engine is fatal at the boundary and never reaches this record.
    pub fn new() -> (g: FilterGraph)
        ensures
            g.wf(),
            g.nodes().len() == 0,
            !g.configured(),
    {
        FilterGraph {
            nodes: Vec::new(),
            configured: false,
        }
    }

    /// Records the engine's verdict `status` on instantiating a node of
    /// the given kind inside this graph.
    ///
    /// On success the new node occupies a fresh slot at the end and its
    /// index is returned; every previously issued slot is untouched, so
    /// existing node references stay valid.  On failure with
    /// `NodeCreationFailed` the graph is exactly as it was and remains
    /// usable for further instantiation.
    pub fn instantiate(&mut self, kind: &KindHandle, status: i32) -> (r: Result<
        usize,
        FilterError,
    >)
        requires
            old(self).wf(),
        ensures
            final(self).wf(),
            r is Ok <==> status_ok(status as int),
            r is Err ==> r->Err_0 == FilterError::NodeCreationFailed,
            r matches Ok(idx) ==> idx as int == old(self).nodes().len()
                && final(self).nodes() == old(self).nodes().push(
                (NodeSlot {
                    id: old(self).nodes().len() as u64,
                    source_capable: kind.source_capable,
                    sink_capable: kind.sink_capable,
                    exhausted: false,
                }),
            ),
            r is Err ==> final(self).nodes() == old(self).nodes(),
            final(self).configured() == old(self).configured(),
            preserves_nodes(old(self).nodes(), final(self).nodes()),
    {
        match check_status(status, FilterError::NodeCreationFailed) {
            Ok(_) => {
                let idx = self.nodes.len();
                self.nodes.push(
                    NodeSlot {
                        id: idx as u64,
                        source_capable: kind.source_capable,
                        sink_capable: kind.sink_capable,
                        exhausted: false,
                    },
                );
                Ok(idx)
            },
            Err(e) => Err(e),
        }
    }

    /// Records the engine's verdict `status` on validating and finalizing
    /// all links and formats.  Success marks the graph configured, which
    /// licenses streaming; failure reports `ConfigurationInvalid` and the
    /// graph stays unconfigured, with its topology still amendable.  The
    /// engine leaves repeated validation unspecified, so a configured
    /// graph cannot be configured again.
    pub fn configure(&mut self, status: i32) -> (r: Result<(), FilterError>)
        requires
            old(self).wf(),
            !old(self).configured(),
        ensures
            final(self).wf(),
            r is Ok <==> status_ok(status as int),
            r is Err ==> r->Err_0 == FilterError::ConfigurationInvalid,
            final(self).nodes() == old(self).nodes(),
            final(self).configured() <==> status_ok(status as int),
            preserves_nodes(old(self).nodes(), final(self).nodes()),
    {
        match check_status(status, FilterError::ConfigurationInvalid) {
            Ok(_) => {
                self.configured = true;
                Ok(())
            },
            Err(e) => Err(e),
        }
    }

    /// Records the engine's verdict `status` on parsing a textual
    /// mini-graph description whose free pads were wired to the two given
    /// pad lists, and settles their ownership.
    ///
    /// On success the engine has taken ownership of both argument chains —
    /// whether or not it actually linked them — so both tokens are
    /// disarmed and can never be released by the caller again; the lists
    /// still unresolved after parsing (`open_inputs` / `open_outputs` say
    /// which sides have any) come back as freshly owned, releasable
    /// tokens.  On failure the topology may be partially modified, but the
    /// argument chains are exactly as the caller handed them in: still
    /// owned, to be released once by the ordinary teardown path.
    pub fn parse(
        &mut self,
        inputs: &mut PadList,
        outputs: &mut PadList,
        status: i32,
        open_inputs: bool,
        open_outputs: bool,
    ) -> (r: Result<(Option<PadList>, Option<PadList>), FilterError>)
        requires
            old(self).wf(),
            old(inputs).releasable(),
            old(outputs).releasable(),
        ensures
            final(self).wf(),
            r is Ok <==> status_ok(status as int),
            r is Err ==> r->Err_0 == FilterError::GraphParseFailed,
            parse_consumes(*old(inputs), *final(inputs), r is Ok),
            parse_consumes(*old(outputs), *final(outputs), r is Ok),
            r is Ok ==> !final(inputs).releasable() && !final(outputs).releasable(),
            r is Err ==> *final(inputs) == *old(inputs) && *final(outputs) == *old(outputs),
            r matches Ok(lists) ==> (lists.0 is Some <==> open_inputs) && (lists.1 is Some
                <==> open_outputs),
            r matches Ok(lists) ==> (lists.0 matches Some(p) ==> p.releasable()) && (
            lists.1 matches Some(p) ==> p.releasable()),
            final(self).nodes() == old(self).nodes(),
            final(self).configured() == old(self).configured(),
            preserves_nodes(old(self).nodes(), final(self).nodes()),
    {
        match check_status(status, FilterError::GraphParseFailed) {
            Ok(_) => {
                inputs.disarm();
                outputs.disarm();
                let unresolved_inputs = if open_inputs {
                    Some(PadList::new())
                } else {
                    None
                };
                let unresolved_outputs = if open_outputs {
                    Some(PadList::new())
                } else {
                    None
                };
                Ok((unresolved_inputs, unresolved_outputs))
            },
            Err(e) => Err(e),
        }
    }

    /// Records the engine's verdict `status` on writing one typed value
    /// into the given node's option table.  The write needs exclusive
    /// access to the node but touches no bookkeeping: the graph, every
    /// slot, and the configured mark are exactly as before, whether the
    /// engine accepted the value or refused it with `PropertyRejected`.
    pub fn set_property(&mut self, node: usize, status: i32) -> (r: Result<(), FilterError>)
        requires
            old(self).wf(),
            node < old(self).nodes().len(),
        ensures
            *final(self) == *old(self),
            r is Ok <==> status_ok(status as int),
            r is Err ==> r->Err_0 == FilterError::PropertyRejected,
    {
        check_status(status, FilterError::PropertyRejected)
    }

    /// Records the engine's verdict `status` on pushing one frame — or
    /// the end-of-stream marker — into the given node.  Pushing is
    /// permitted only into a source-capable node of a configured graph;
    /// a refusal is reported as `SourceRejectedFrame` and changes nothing.
    pub fn push_frame(&mut self, node: usize, status: i32) -> (r: Result<(), FilterError>)
        requires
            old(self).push_ready(node as int),
        ensures
            *final(self) == *old(self),
            r is Ok <==> status_ok(status as int),
            r is Err ==> r->Err_0 == FilterError::SourceRejectedFrame,
    {
        check_status(status, FilterError::SourceRejectedFrame)
    }

    /// Records the engine's verdict `status` on pulling a frame out of
    /// the given node, keeping the three sink outcomes distinct: success
    /// means a frame came out; `SinkNotReady` means more input is needed
    /// first (transient — push and retry); `SinkExhausted` means the
    /// stream is permanently finished.  Exhaustion is recorded on the
    /// node's slot, and an exhausted node satisfies no further pull
    /// precondition, so `SinkExhausted` is reported at most once per node
    /// and no pull can succeed after it.  Every other failure is
    /// `SinkError`.
    pub fn pull_frame(&mut self, node: usize, status: i32) -> (r: Result<(), FilterError>)
        requires
            old(self).pull_ready(node as int),
        ensures
            final(self).wf(),
            r is Ok <==> status_ok(status as int),
            r == Err::<(), FilterError>(FilterError::SinkNotReady) <==> status == STATUS_NOT_READY,
            r == Err::<(), FilterError>(FilterError::SinkExhausted) <==> status
                == STATUS_END_OF_STREAM,
            r == Err::<(), FilterError>(FilterError::SinkError) <==> !status_ok(status as int)
                && status != STATUS_NOT_READY && status != STATUS_END_OF_STREAM,
            final(self).nodes().len() == old(self).nodes().len(),
            forall|i: int|
                0 <= i < old(self).nodes().len() && i != node as int ==> final(self).nodes()[i]
                    == old(self).nodes()[i],
            same_node_identity(old(self).nodes()[node as int], final(self).nodes()[node as int]),
            final(self).nodes()[node as int].exhausted <==> status == STATUS_END_OF_STREAM,
            final(self).configured(),
            r == Err::<(), FilterError>(FilterError::SinkExhausted) ==> !final(self).pull_ready(
                node as int,
            ),
            preserves_nodes(old(self).nodes(), final(self).nodes()),
    {
        let r = sink_pull_result(status);
        if status == STATUS_END_OF_STREAM {
            let slot = self.nodes[node];
            self.nodes.set(
                node,
                NodeSlot {
                    id: slot.id,
                    source_capable: slot.source_capable,
                    sink_capable: slot.sink_capable,
                    exhausted: true,
                },
            );
        }
        r
    }

    /// The number of node slots issued so far.
    pub fn node_count(&self) -> (n: usize)
        ensures
            n as int == self.nodes().len(),
    {
        self.nodes.len()
    }

    /// Whether the graph has been validated for streaming.
    pub fn is_configured(&self) -> (b: bool)
        ensures
            b == self.configured(),
    {
        self.configured
    }

    /// Reads the slot record of the given node.
    pub fn node(&self, node: usize) -> (s: NodeSlot)
        requires
            node < self.nodes().len(),
        ensures
            s == self.nodes()[node as int],
    {
        self.nodes[node]
    }

    /// Tests the push precondition, for the boundary to consult before a
    /// foreign push call.
    pub fn push_permitted(&self, node: usize) -> (b: bool)
        requires
            self.wf(),
        ensures
            b == self.push_ready(node as int),
    {
        node < self.nodes.len() && self.nodes[node].source_capable && self.configured
    }

    /// Tests the pull precondition, for the boundary to consult before a
    /// foreign pull call.
    pub fn pull_permitted(&self, node: usize) -> (b: bool)
        requires
            self.wf(),
        ensures
            b == self.pull_ready(node as int),
    {
        node < self.nodes.len() && self.nodes[node].sink_capable && self.configured
            && !self.nodes[node].exhausted
    }
}

impl Default for FilterGraph {
    /// Same as [`FilterGraph::new`]: an empty, unconfigured graph.
    fn default() -> (g: FilterGraph)
        ensures
            g.wf(),
            g.nodes().len() == 0,
            !g.configured(),
    {
        FilterGraph::new()
    }
}

/// Node-reference stability composes: if one operation preserves every
/// slot a container had issued, and a second operation preserves every
/// slot the container had after the first, then the pair preserves every
/// slot of the original container.  By induction, a reference issued at
/// any point stays valid, at its index and with its identity, across any
/// run of container operations.
pub proof fn lemma_node_stability_transitive(a: Seq<NodeSlot>, b: Seq<NodeSlot>, c: Seq<NodeSlot>)
    requires
        preserves_nodes(a, b),
        preserves_nodes(b, c),
    ensures
        preserves_nodes(a, c),
{
}

/// Sink exhaustion is terminal: once a node's slot carries the exhausted
/// mark — which exactly one pull, the one the engine answered with its
/// end-of-stream status, can have set — no pull from that node is
/// permitted any more, so no pull can succeed after it either.
pub proof fn lemma_exhausted_sink_is_terminal(g: FilterGraph, node: int)
    requires
        0 <= node < g.nodes().len(),
        g.nodes()[node].exhausted,
    ensures
        !g.pull_ready(node),
{
}

/// One sink node's drain protocol, abstracted to the run of status codes
/// the engine answers a caller's successive pulls with.  A run is valid
/// when every pull in it was permitted: the node starts unexhausted, each
/// answer consumes one permitted pull, and the end-of-stream answer
/// exhausts the node — exactly the discipline [`FilterGraph::pull_frame`]
/// enforces through `pull_ready` and records on the node's slot.
pub open spec fn drain_run_valid(exhausted: bool, codes: Seq<int>) -> bool
    decreases codes.len(),
{
    codes.len() == 0 || (!exhausted && drain_run_valid(
        exhausted || codes.first() == STATUS_END_OF_STREAM as int,
        codes.drop_first(),
    ))
}

/// How many answers of a run are the end-of-stream status.
pub open spec fn count_end_of_stream(codes: Seq<int>) -> int
    decreases codes.len(),
{
    if codes.len() == 0 {
        0
    } else {
        (if codes.first() == STATUS_END_OF_STREAM as int {
            1int
        } else {
            0int
        }) + count_end_of_stream(codes.drop_first())
    }
}

/// Pulling from one sink repeatedly, for as long as pulling is permitted,
/// meets the engine's end-of-stream answer at most once, and only as the
/// very last pull of the run: a run that never meets it may go on — the
/// transient not-ready answer keeps every later pull permitted — but the
/// pull that meets it exhausts the node and ends the run, so `SinkExhausted`
/// is reported exactly once and no pull can come after it, let alone
/// succeed.
pub proof fn lemma_drain_reports_exhaustion_at_most_once(codes: Seq<int>)
    requires
        drain_run_valid(false, codes),
    ensures
        count_end_of_stream(codes) <= 1,
        forall|i: int|
            0 <= i < codes.len() && codes[i] == STATUS_END_OF_STREAM as int ==> i == codes.len()
                - 1,
{
    lemma_drain_run_bounded(false, codes);
}

/// The inductive core of the drain law: in a valid run from a given
/// exhaustion state, an exhausted node permits no pull at all, and an
/// unexhausted node meets the end-of-stream answer at most once, only at
/// the end.
proof fn lemma_drain_run_bounded(exhausted: bool, codes: Seq<int>)
    requires
        drain_run_valid(exhausted, codes),
    ensures
        exhausted ==> codes.len() == 0,
        count_end_of_stream(codes) <= 1,
        forall|i: int|
            0 <= i < codes.len() && codes[i] == STATUS_END_OF_STREAM as int ==> i == codes.len()
                - 1,
    decreases codes.len(),
{
    if codes.len() > 0 {
        let rest = codes.drop_first();
        lemma_drain_run_bounded(exhausted || codes.first() == STATUS_END_OF_STREAM as int, rest);
        assert forall|i: int|
            0 <= i < codes.len() && codes[i] == STATUS_END_OF_STREAM as int implies i == codes.len()
            - 1 by {
            if i > 0 {
                assert(rest[i - 1] == codes[i]);
            }
        }
    }
}

} // verus!

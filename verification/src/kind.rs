use vstd::prelude::*;

verus! {

use crate::error::FilterError;

/// A handle to one node kind in the engine's static registry: a named,
/// stateless template describing one class of processing node.
///
/// Registry entries are process-wide, initialized once by the engine and
/// never torn down, so the handle carries no release obligation at all: it
/// is plain copyable data and participates in zero cleanup.
#[derive(Clone, Copy, PartialEq, Eq, Structural, Debug)]
pub struct KindHandle {
    /// Whether nodes of this kind accept externally pushed frames.
    pub source_capable: bool,
    /// Whether nodes of this kind yield frames for the caller to pull.
    pub sink_capable: bool,
}

impl KindHandle {
    /// Resolves a lookup of a node kind by name.  `found` is the registry's
    /// verdict — whether a kind with the requested name is registered — and
    /// the capability flags come from the kind's descriptor.  A registered
    /// name yields a handle usable for instantiation; any other name fails
    /// with `NodeKindNotFound`, and nothing else ever does.
    pub fn lookup(found: bool, source_capable: bool, sink_capable: bool) -> (r: Result<
        KindHandle,
        FilterError,
    >)
        ensures
            r is Ok <==> found,
            r is Ok ==> r->Ok_0 == (KindHandle { source_capable, sink_capable }),
            r is Err ==> r->Err_0 == FilterError::NodeKindNotFound,
    {
        if found {
            Ok(KindHandle { source_capable, sink_capable })
        } else {
            Err(FilterError::NodeKindNotFound)
        }
    }
}

} // verus!

use vstd::prelude::*;

verus! {

use crate::error::FilterError;

/// The engine's "try again" status at the sink boundary: pulling found
/// insufficient buffered input.  It is the negated POSIX
/// resource-temporarily-unavailable code as the engine reports it on this
/// platform.
pub const STATUS_NOT_READY: i32 = -11;

/// The engine's end-of-stream status at the sink boundary: the negated
/// little-endian four-byte tag spelling "EOF " that the engine reserves for
/// a permanently finished stream.
pub const STATUS_END_OF_STREAM: i32 = -541478725;

/// Whether an engine status code reports success: zero and positive codes
/// succeed, every negative code is a failure.
pub open spec fn status_ok(code: int) -> bool {
    code >= 0
}

/// Converts an engine status code into a typed result, charging every
/// failure to the single error kind the calling operation reports.
///
/// This is the one conversion point for every boundary call whose failures
/// are not further distinguished: nothing is retried, nothing is swallowed.
pub fn check_status(code: i32, failure: FilterError) -> (r: Result<(), FilterError>)
    ensures
        r is Ok <==> status_ok(code as int),
        r is Err ==> r->Err_0 == failure,
{
    if code >= 0 {
        Ok(())
    } else {
        Err(failure)
    }
}

/// Converts the status of a sink pull, keeping the three failure outcomes
/// distinguishable: `SinkNotReady` (transient, retry after more input),
/// `SinkExhausted` (terminal, stop pulling), and `SinkError` for every
/// other failure.  Collapsing the first two would make callers loop
/// incorrectly, so each is pinned to exactly one status code.
pub fn sink_pull_result(code: i32) -> (r: Result<(), FilterError>)
    ensures
        r is Ok <==> status_ok(code as int),
        r == Err::<(), FilterError>(FilterError::SinkNotReady) <==> code == STATUS_NOT_READY,
        r == Err::<(), FilterError>(FilterError::SinkExhausted) <==> code == STATUS_END_OF_STREAM,
        r == Err::<(), FilterError>(FilterError::SinkError)
            <==> !status_ok(code as int) && code != STATUS_NOT_READY && code != STATUS_END_OF_STREAM,
{
    if code >= 0 {
        Ok(())
    } else if code == STATUS_NOT_READY {
        Err(FilterError::SinkNotReady)
    } else if code == STATUS_END_OF_STREAM {
        Err(FilterError::SinkExhausted)
    } else {
        Err(FilterError::SinkError)
    }
}

} // verus!

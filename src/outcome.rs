use vstd::prelude::*;
use std::time::Duration;
use crate::error::{ExportResult, TraceError, TraceResult};

verus! {

/// The result of one sub-batch export raced against its timeout: what the exporter
/// returned, if it finished first, and a timeout error otherwise.
pub open spec fn export_outcome_spec(finished: Option<ExportResult>, timeout: Duration) -> ExportResult {
    match finished {
        Some(res) => res,
        None => Err(TraceError::ExportTimedOut(timeout)),
    }
}

/// The first error among the results of a flush, or success when there is none.
pub open spec fn first_error_spec(results: Seq<ExportResult>) -> TraceResult<()>
    decreases results.len(),
{
    if results.len() == 0 {
        Ok(())
    } else if results[0] is Err {
        results[0]
    } else {
        first_error_spec(results.drop_first())
    }
}

/// What a caller of a flush or a shutdown is told: `WorkerGone` when no reply came, else
/// the first error of the reply.
pub open spec fn reply_result_spec(reply: Option<Seq<ExportResult>>) -> TraceResult<()> {
    match reply {
        Some(results) => first_error_spec(results),
        None => Err(TraceError::WorkerGone),
    }
}

/// Settles one sub-batch export raced against its timeout; `finished` is `None` when the
/// timeout elapsed first.
pub fn export_outcome(finished: Option<ExportResult>, timeout: Duration) -> (r: ExportResult)
    ensures
        r == export_outcome_spec(finished, timeout),
{
    match finished {
        Some(res) => res,
        None => Err(TraceError::ExportTimedOut(timeout)),
    }
}

/// The first error among `results`, or success when every sub-batch succeeded.
pub fn first_error(results: Vec<ExportResult>) -> (r: TraceResult<()>)
    ensures
        r == first_error_spec(results@),
{
    let mut pending = results;
    let ghost all = results@;
    let mut i: usize = 0;
    assert(all.subrange(0, all.len() as int) =~= all);
    while i < pending.len()
        invariant
            pending@ == all,
            all == results@,
            i <= all.len(),
            first_error_spec(all) == first_error_spec(all.subrange(i as int, all.len() as int)),
        decreases all.len() - i,
    {
        let ghost rest = all.subrange(i as int, all.len() as int);
        assert(rest[0] == all[i as int]);
        if pending[i].is_err() {
            assert(first_error_spec(rest) == all[i as int]);
            let e = pending.swap_remove(i);
            assert(e == all[i as int]);
            return e;
        }
        assert(rest.drop_first() =~= all.subrange(i + 1, all.len() as int));
        i = i + 1;
    }
    assert(all.subrange(i as int, all.len() as int) =~= Seq::<ExportResult>::empty());
    Ok(())
}

/// What a flush or a shutdown returns to its caller, given the reply of the worker
/// (`None` when the worker dropped the reply channel without answering).
pub fn reply_result(reply: Option<Vec<ExportResult>>) -> (r: TraceResult<()>)
    ensures
        r == reply_result_spec(
            match reply {
                Some(v) => Some(v@),
                None => None,
            },
        ),
{
    match reply {
        Some(results) => first_error(results),
        None => Err(TraceError::WorkerGone),
    }
}

} // verus!

use vstd::prelude::*;
use std::time::Duration;
use crate::error::{ExportResult, TraceError};
use crate::outcome::{export_outcome_spec, first_error_spec};
use crate::span::SpanData;
use crate::worker::{
    BatchMessage, WorkerView, calls_exporter, concat_reversed, drain_batches, end_span,
    next_view,
};

verus! {

/// The state after a run of finished spans, each handed to the worker in turn.
pub open spec fn end_spans(v: WorkerView, spans: Seq<SpanData>) -> WorkerView
    decreases spans.len(),
{
    if spans.len() == 0 {
        v
    } else {
        end_spans(end_span(v, spans[0]), spans.drop_first())
    }
}

/// How many of a run of finished spans a running worker drops because its buffer is full.
pub open spec fn dropped_count(v: WorkerView, spans: Seq<SpanData>) -> nat
    decreases spans.len(),
{
    if spans.len() == 0 {
        0
    } else {
        (if !v.stopped && v.spans.len() >= v.queue_size {
            1nat
        } else {
            0nat
        }) + dropped_count(end_span(v, spans[0]), spans.drop_first())
    }
}

/// The state after a run of messages.
pub open spec fn run<R>(v: WorkerView, msgs: Seq<BatchMessage<R>>) -> WorkerView
    decreases msgs.len(),
{
    if msgs.len() == 0 {
        v
    } else {
        run(next_view(v, msgs[0]), msgs.drop_first())
    }
}

/// How many times a run of messages has the worker shut the exporter down.
pub open spec fn exporter_shutdowns<R>(v: WorkerView, msgs: Seq<BatchMessage<R>>) -> nat
    decreases msgs.len(),
{
    if msgs.len() == 0 {
        0
    } else {
        (if !v.stopped && msgs[0] is Shutdown {
            1nat
        } else {
            0nat
        }) + exporter_shutdowns(next_view(v, msgs[0]), msgs.drop_first())
    }
}

pub open spec fn has_shutdown<R>(msgs: Seq<BatchMessage<R>>) -> bool
    decreases msgs.len(),
{
    msgs.len() > 0 && (msgs[0] is Shutdown || has_shutdown(msgs.drop_first()))
}

/// A flush hands the exporter every buffered span exactly once, in non-empty batches of
/// at most the batch size; read from the last batch to the first, they are the buffer.
pub proof fn lemma_drain_batches(spans: Seq<SpanData>, batch: nat)
    requires
        batch > 0,
    ensures
        concat_reversed(drain_batches(spans, batch)) == spans,
        forall|i: int|
            0 <= i < drain_batches(spans, batch).len() ==> 0 < #[trigger] drain_batches(
                spans,
                batch,
            )[i].len() <= batch,
    decreases spans.len(),
{
    if spans.len() > 0 {
        let k = if spans.len() > batch {
            spans.len() - batch
        } else {
            0
        };
        let prefix = spans.subrange(0, k as int);
        let tail = spans.subrange(k as int, spans.len() as int);
        lemma_drain_batches(prefix, batch);
        let d = drain_batches(spans, batch);
        assert(d == seq![tail] + drain_batches(prefix, batch));
        assert(d.drop_first() =~= drain_batches(prefix, batch));
        assert(prefix + tail =~= spans);
        assert forall|i: int| 0 <= i < d.len() implies 0 < #[trigger] d[i].len() <= batch by {
            if i > 0 {
                assert(d[i] == drain_batches(prefix, batch)[i - 1]);
            }
        }
    }
}

/// Spans that fit in the buffer are all kept, in order.
pub proof fn lemma_end_spans_within_capacity(v: WorkerView, spans: Seq<SpanData>)
    requires
        v.valid(),
        !v.stopped,
        v.spans.len() + spans.len() <= v.queue_size,
    ensures
        end_spans(v, spans) == (WorkerView { spans: v.spans + spans, ..v }),
        dropped_count(v, spans) == 0,
    decreases spans.len(),
{
    if spans.len() == 0 {
        assert(v.spans + spans =~= v.spans);
    } else {
        let w = end_span(v, spans[0]);
        lemma_end_spans_within_capacity(w, spans.drop_first());
        assert(w.spans + spans.drop_first() =~= v.spans + spans);
    }
}

/// A flush after spans that fit in the queue hands the exporter each of those spans
/// exactly once, in batches no larger than the batch size.
pub proof fn lemma_flush_delivers_every_span(v: WorkerView, spans: Seq<SpanData>)
    requires
        v.valid(),
        v.batch_size > 0,
        !v.stopped,
        v.spans.len() == 0,
        spans.len() <= v.queue_size,
    ensures
        concat_reversed(drain_batches(end_spans(v, spans).spans, v.batch_size)) == spans,
        forall|i: int|
            0 <= i < drain_batches(end_spans(v, spans).spans, v.batch_size).len() ==> 0
                < #[trigger] drain_batches(end_spans(v, spans).spans, v.batch_size)[i].len()
                <= v.batch_size,
{
    lemma_end_spans_within_capacity(v, spans);
    assert(v.spans + spans =~= spans);
    lemma_drain_batches(spans, v.batch_size);
}

/// Under a burst of spans the buffer keeps at most the queue size, every span beyond that
/// is dropped (and reported), and a flush hands the exporter no more than the queue size.
pub proof fn lemma_burst_is_bounded(v: WorkerView, spans: Seq<SpanData>)
    requires
        v.valid(),
        !v.stopped,
    ensures
        end_spans(v, spans).valid(),
        end_spans(v, spans).spans.len() <= v.queue_size,
        end_spans(v, spans).spans.len() + dropped_count(v, spans) == v.spans.len() + spans.len(),
        dropped_count(v, spans) >= v.spans.len() + spans.len() - v.queue_size,
        v.spans.len() + spans.len() > v.queue_size ==> end_spans(v, spans).spans.len()
            == v.queue_size,
        concat_reversed(drain_batches(end_spans(v, spans).spans, v.batch_size)).len()
            <= v.queue_size,
    decreases spans.len(),
{
    if spans.len() > 0 {
        lemma_burst_is_bounded(end_span(v, spans[0]), spans.drop_first());
    }
    if v.batch_size > 0 {
        lemma_drain_batches(end_spans(v, spans).spans, v.batch_size);
    } else {
        assert(end_spans(v, spans).spans.len() == 0);
    }
}

/// A worker that has shut down keeps its state and never touches the exporter again,
/// whatever messages follow.
pub proof fn lemma_stopped_worker_is_silent<R>(v: WorkerView, msgs: Seq<BatchMessage<R>>)
    requires
        v.stopped,
    ensures
        run(v, msgs) == v,
        exporter_shutdowns(v, msgs) == 0,
        forall|i: int| 0 <= i <= msgs.len() ==> #[trigger] run(v, msgs.take(i)) == v,
        forall|i: int| 0 <= i < msgs.len() ==> !calls_exporter(run(v, msgs.take(i)), #[trigger] msgs[i]),
    decreases msgs.len(),
{
    if msgs.len() > 0 {
        lemma_stopped_worker_is_silent(v, msgs.drop_first());
        assert forall|i: int| 0 <= i <= msgs.len() implies #[trigger] run(v, msgs.take(i)) == v by {
            if i > 0 {
                assert(msgs.take(i).drop_first() =~= msgs.drop_first().take(i - 1));
                assert(next_view(v, msgs.take(i)[0]) == v);
                assert(run(v, msgs.drop_first().take(i - 1)) == v);
            } else {
                assert(msgs.take(i).len() == 0);
            }
        }
    }
}

/// A run of messages that holds a shutdown has a running worker shut the exporter down
/// exactly once; a run without one never does.
pub proof fn lemma_exporter_shut_down_once<R>(v: WorkerView, msgs: Seq<BatchMessage<R>>)
    requires
        !v.stopped,
    ensures
        exporter_shutdowns(v, msgs) == (if has_shutdown(msgs) {
            1nat
        } else {
            0nat
        }),
        has_shutdown(msgs) ==> run(v, msgs).stopped,
    decreases msgs.len(),
{
    if msgs.len() > 0 {
        let w = next_view(v, msgs[0]);
        if msgs[0] is Shutdown {
            lemma_stopped_worker_is_silent(w, msgs.drop_first());
        } else {
            lemma_exporter_shut_down_once(w, msgs.drop_first());
        }
    }
}

/// When a sub-batch times out and every earlier one succeeded, the flush that exported
/// them reports the timeout.
pub proof fn lemma_timeout_is_reported(
    finished: Seq<Option<ExportResult>>,
    timeout: Duration,
    i: int,
)
    requires
        0 <= i < finished.len(),
        finished[i] is None,
        forall|j: int| 0 <= j < i ==> finished[j] == Some(Ok::<(), TraceError>(())),
    ensures
        export_outcome_spec(finished[i], timeout) == Err::<(), TraceError>(
            TraceError::ExportTimedOut(timeout),
        ),
        first_error_spec(finished.map_values(|f: Option<ExportResult>| export_outcome_spec(f, timeout)))
            == Err::<(), TraceError>(TraceError::ExportTimedOut(timeout)),
    decreases i,
{
    let outcomes = finished.map_values(|f: Option<ExportResult>| export_outcome_spec(f, timeout));
    if i > 0 {
        lemma_timeout_is_reported(finished.drop_first(), timeout, i - 1);
        assert(outcomes.drop_first() =~= finished.drop_first().map_values(
            |f: Option<ExportResult>| export_outcome_spec(f, timeout),
        ));
    }
}

} // verus!

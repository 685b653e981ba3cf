use vstd::prelude::*;
use crate::config::BatchConfig;
use crate::span::SpanData;

verus! {

/// A message to the batch worker. `R` is the channel on which the worker answers a
/// flush or a shutdown with the result of each sub-batch it exported.
pub enum BatchMessage<R> {
    /// A span has finished and should be buffered.
    ExportSpan(SpanData),
    /// Export everything buffered; `None` is a timer tick, whose results nobody awaits.
    Flush(Option<R>),
    /// Export everything buffered, shut the exporter down, and stop.
    Shutdown(R),
}

/// What the worker decided on a message; the host carries it out.
#[allow(inconsistent_fields)]
pub enum WorkerStep<R> {
    /// The span was appended to the buffer.
    Buffered,
    /// The buffer was full: the span was dropped, and the host reports the overflow.
    Dropped(SpanData),
    /// Export each batch, in order, and send the results on `reply` (or report the
    /// failures when there is none).
    Export { batches: Vec<Vec<SpanData>>, reply: Option<R> },
    /// Export each batch, in order, shut the exporter down, send the results on `reply`,
    /// and stop running the worker.
    Shutdown { batches: Vec<Vec<SpanData>>, reply: R },
    /// The worker has shut down already: the message is not processed.
    Stopped(BatchMessage<R>),
}

/// The abstract state of a worker.
pub struct WorkerView {
    pub spans: Seq<SpanData>,
    pub stopped: bool,
    pub queue_size: nat,
    pub batch_size: nat,
}

impl WorkerView {
    pub open spec fn valid(self) -> bool {
        &&& self.batch_size <= self.queue_size
        &&& (0 < self.batch_size || self.queue_size == 0)
        &&& self.spans.len() <= self.queue_size
    }
}

/// The single consumer of a batch span processor: it owns the buffer of finished spans
/// and decides, message by message, what is exported and when.
pub struct BatchWorker {
    config: BatchConfig,
    spans: Vec<SpanData>,
    stopped: bool,
}

impl View for BatchWorker {
    type V = WorkerView;

    closed spec fn view(&self) -> WorkerView {
        WorkerView {
            spans: self.spans@,
            stopped: self.stopped,
            queue_size: self.config.max_queue_size as nat,
            batch_size: self.config.max_export_batch_size as nat,
        }
    }
}

/// The batches a flush hands to the exporter: the tail window of at most `batch` spans,
/// then the batches of what is left.
pub open spec fn drain_batches(spans: Seq<SpanData>, batch: nat) -> Seq<Seq<SpanData>>
    decreases spans.len(),
{
    if spans.len() == 0 || batch == 0 {
        seq![]
    } else {
        let k = if spans.len() > batch {
            spans.len() - batch
        } else {
            0
        };
        seq![spans.subrange(k, spans.len() as int)] + drain_batches(spans.subrange(0, k), batch)
    }
}

/// The spans of a list of batches, the last batch first.
pub open spec fn concat_reversed(batches: Seq<Seq<SpanData>>) -> Seq<SpanData>
    decreases batches.len(),
{
    if batches.len() == 0 {
        seq![]
    } else {
        concat_reversed(batches.drop_first()) + batches[0]
    }
}

pub open spec fn batch_views(batches: Seq<Vec<SpanData>>) -> Seq<Seq<SpanData>> {
    batches.map_values(|b: Vec<SpanData>| b@)
}

/// The state after a span finishes: it is buffered if there is room.
pub open spec fn end_span(v: WorkerView, s: SpanData) -> WorkerView {
    if !v.stopped && v.spans.len() < v.queue_size {
        WorkerView { spans: v.spans.push(s), ..v }
    } else {
        v
    }
}

/// The state after a message.
pub open spec fn next_view<R>(v: WorkerView, m: BatchMessage<R>) -> WorkerView {
    if v.stopped {
        v
    } else {
        match m {
            BatchMessage::ExportSpan(s) => end_span(v, s),
            BatchMessage::Flush(_) => WorkerView { spans: seq![], ..v },
            BatchMessage::Shutdown(_) => WorkerView { spans: seq![], stopped: true, ..v },
        }
    }
}

/// Whether the worker, in state `v`, touches the exporter on message `m`: only a flush or
/// a shutdown of a running worker exports or shuts the exporter down.
pub open spec fn calls_exporter<R>(v: WorkerView, m: BatchMessage<R>) -> bool {
    !v.stopped && !(m is ExportSpan)
}

/// What the worker decides on message `m` in state `v`.
pub open spec fn step_spec<R>(v: WorkerView, m: BatchMessage<R>, r: WorkerStep<R>) -> bool {
    if v.stopped {
        r == WorkerStep::Stopped(m)
    } else {
        match m {
            BatchMessage::ExportSpan(s) => if v.spans.len() < v.queue_size {
                r is Buffered
            } else {
                r == WorkerStep::<R>::Dropped(s)
            },
            BatchMessage::Flush(reply) => match r {
                WorkerStep::Export { batches, reply: answer } => {
                    &&& batch_views(batches@) == drain_batches(v.spans, v.batch_size)
                    &&& answer == reply
                },
                _ => false,
            },
            BatchMessage::Shutdown(reply) => match r {
                WorkerStep::Shutdown { batches, reply: answer } => {
                    &&& batch_views(batches@) == drain_batches(v.spans, v.batch_size)
                    &&& answer == reply
                },
                _ => false,
            },
        }
    }
}

impl BatchWorker {
    /// A running worker with an empty buffer.
    pub fn new(config: BatchConfig) -> (r: BatchWorker)
        requires
            config.wf(),
        ensures
            r@.valid(),
            r@.spans.len() == 0,
            !r@.stopped,
            r@.queue_size == config.max_queue_size,
            r@.batch_size == config.max_export_batch_size,
    {
        BatchWorker { config, spans: Vec::new(), stopped: false }
    }

    /// The configuration the worker runs with.
    pub fn config(&self) -> (r: &BatchConfig)
        ensures
            r.max_queue_size == self@.queue_size,
            r.max_export_batch_size == self@.batch_size,
    {
        &self.config
    }

    /// The number of spans buffered.
    pub fn buffered(&self) -> (r: usize)
        ensures
            r == self@.spans.len(),
    {
        self.spans.len()
    }

    /// Whether the worker has processed a shutdown.
    pub fn is_stopped(&self) -> (r: bool)
        ensures
            r == self@.stopped,
    {
        self.stopped
    }

    /// Removes every buffered span, in batches taken from the tail of the buffer.
    fn drain(&mut self) -> (batches: Vec<Vec<SpanData>>)
        requires
            old(self)@.valid(),
        ensures
            final(self)@ == (WorkerView { spans: seq![], ..old(self)@ }),
            batch_views(batches@) == drain_batches(old(self)@.spans, old(self)@.batch_size),
    {
        let ghost initial = self.spans@;
        let ghost batch = self@.batch_size;
        let size = self.config.max_export_batch_size;
        let mut batches: Vec<Vec<SpanData>> = Vec::new();
        while self.spans.len() > 0
            invariant
                self.config == old(self).config,
                self.stopped == old(self).stopped,
                batch == size as nat,
                size > 0 || self.spans@.len() == 0,
                drain_batches(initial, batch) == batch_views(batches@) + drain_batches(self.spans@, batch),
            decreases self.spans.len(),
        {
            let len = self.spans.len();
            let at: usize = if len > size {
                len - size
            } else {
                0
            };
            let ghost before = self.spans@;
            let tail = self.spans.split_off(at);
            assert(drain_batches(before, batch) == seq![tail@] + drain_batches(self.spans@, batch));
            assert(batch_views(batches@.push(tail)) =~= batch_views(batches@).push(tail@));
            batches.push(tail);
            assert(batch_views(batches@) + drain_batches(self.spans@, batch) =~= batch_views(batches@.drop_last()) + (seq![tail@] + drain_batches(self.spans@, batch)));
        }
        assert(self.spans@ =~= seq![]);
        assert(batch_views(batches@) + drain_batches(self.spans@, batch) =~= batch_views(batches@));
        batches
    }

    /// Processes one message: buffers or drops a span, drains the buffer for a flush or a
    /// shutdown, and ignores everything once it has shut down.
    pub fn step<R>(&mut self, msg: BatchMessage<R>) -> (r: WorkerStep<R>)
        requires
            old(self)@.valid(),
        ensures
            final(self)@.valid(),
            final(self)@ == next_view(old(self)@, msg),
            step_spec(old(self)@, msg, r),
            !calls_exporter(old(self)@, msg) ==> (r is Buffered || r is Dropped || r is Stopped),
    {
        if self.stopped {
            return WorkerStep::Stopped(msg);
        }
        match msg {
            BatchMessage::ExportSpan(span) => {
                if self.spans.len() < self.config.max_queue_size {
                    self.spans.push(span);
                    WorkerStep::Buffered
                } else {
                    WorkerStep::Dropped(span)
                }
            },
            BatchMessage::Flush(reply) => {
                let batches = self.drain();
                WorkerStep::Export { batches, reply }
            },
            BatchMessage::Shutdown(reply) => {
                let batches = self.drain();
                self.stopped = true;
                WorkerStep::Shutdown { batches, reply }
            },
        }
    }
}

} // verus!

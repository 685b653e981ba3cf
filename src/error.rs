use vstd::prelude::*;
use std::time::Duration;

verus! {

/// Any failure a processor can report, either to its caller or to the host's error sink.
#[derive(Debug, PartialEq, Eq)]
pub enum TraceError {
    /// The exporter refused a batch; the text says why.
    ExportFailed(String),
    /// A sub-batch did not finish exporting within the configured timeout.
    ExportTimedOut(Duration),
    /// The bounded message channel to the worker was full.
    ChannelFull,
    /// The worker has exited, so the message channel is closed.
    ChannelClosed,
    /// The worker dropped the reply channel before answering.
    WorkerGone,
    /// The worker's queue was full when a finished span arrived; the span was dropped.
    QueueFull,
    /// Any other failure.
    Other(String),
}

pub type TraceResult<T> = Result<T, TraceError>;

pub type ExportResult = Result<(), TraceError>;

} // verus!

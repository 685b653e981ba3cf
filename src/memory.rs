use vstd::prelude::*;
use crate::error::{ExportResult, TraceError};
use crate::processor::SpanExporter;
use crate::span::SpanData;

verus! {

/// An exporter that keeps what it is handed in memory: every batch, and for every
/// shutdown the number of batches exported before it. It fails each export with
/// `ExportFailed` while a failure message is set.
pub struct InMemoryExporter {
    /// The batches exported so far, oldest first.
    pub batches: Vec<Vec<SpanData>>,
    /// For each shutdown, oldest first, how many batches had been exported before it.
    pub shutdown_log: Vec<usize>,
    /// When set, exports are recorded but fail with this message.
    pub fail_with: Option<String>,
}

impl InMemoryExporter {
    /// An exporter that has seen nothing and accepts every batch.
    pub fn new() -> (r: InMemoryExporter)
        ensures
            r.exported().len() == 0,
            r.shutdowns() == 0,
            r.fail_with is None,
    {
        InMemoryExporter { batches: Vec::new(), shutdown_log: Vec::new(), fail_with: None }
    }

    /// An exporter that has seen nothing and fails every export with `message`.
    pub fn failing(message: String) -> (r: InMemoryExporter)
        ensures
            r.exported().len() == 0,
            r.shutdowns() == 0,
            r.fail_with == Some(message),
    {
        InMemoryExporter { batches: Vec::new(), shutdown_log: Vec::new(), fail_with: Some(message) }
    }
}

impl SpanExporter for InMemoryExporter {
    open spec fn exported(&self) -> Seq<Seq<SpanData>> {
        self.batches@.map_values(|b: Vec<SpanData>| b@)
    }

    open spec fn shutdowns(&self) -> nat {
        self.shutdown_log@.len()
    }

    fn export(&mut self, batch: Vec<SpanData>) -> (r: ExportResult)
        ensures
            final(self).fail_with == old(self).fail_with,
            match old(self).fail_with {
                Some(m) => r == Err::<(), TraceError>(TraceError::ExportFailed(m)),
                None => r == Ok::<(), TraceError>(()),
            },
    {
        let ghost before = self.batches@;
        self.batches.push(batch);
        assert(self.batches@.map_values(|b: Vec<SpanData>| b@) =~= before.map_values(
            |b: Vec<SpanData>| b@,
        ).push(batch@));
        match &self.fail_with {
            Some(m) => Err(TraceError::ExportFailed(m.clone())),
            None => Ok(()),
        }
    }

    fn shutdown(&mut self) {
        let exported = self.batches.len();
        self.shutdown_log.push(exported);
    }
}

} // verus!

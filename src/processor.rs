use vstd::prelude::*;
use crate::error::{ExportResult, TraceError, TraceResult};
use crate::span::{Context, Span, SpanData};

verus! {

/// A sink that ships batches of finished spans to some backend.
///
/// Its contract is stated over a record of the calls made to it: the batches it was
/// handed, oldest first, and how many times it was shut down.
pub trait SpanExporter {
    /// Every batch handed to `export` so far, oldest first.
    spec fn exported(&self) -> Seq<Seq<SpanData>>;

    /// How many times `shutdown` has been called.
    spec fn shutdowns(&self) -> nat;

    /// Exports one batch of spans.
    fn export(&mut self, batch: Vec<SpanData>) -> (r: ExportResult)
        ensures
            final(self).exported() == old(self).exported().push(batch@),
            final(self).shutdowns() == old(self).shutdowns(),
    ;

    /// Shuts the exporter down; called once, when its processor shuts down.
    fn shutdown(&mut self)
        ensures
            final(self).exported() == old(self).exported(),
            final(self).shutdowns() == old(self).shutdowns() + 1,
    ;
}

/// Hooks for span start and end, invoked by the tracer for every recording span.
pub trait SpanProcessor {
    /// Called when a span starts, on the thread that started it; must not block or fail.
    fn on_start(&self, span: &Span, cx: &Context);

    /// Called when a span has ended; must not block on lengthy work. Failures go to the
    /// host's error sink rather than to the caller.
    fn on_end(&mut self, span: SpanData);

    /// Hands every span buffered so far to the exporter.
    fn force_flush(&self) -> TraceResult<()>;

    /// Drains the processor and shuts its exporter down.
    fn shutdown(&mut self) -> TraceResult<()>;
}

/// A processor that exports each span synchronously as soon as it ends.
pub struct SimpleSpanProcessor<E> {
    /// The exporter that receives every finished span.
    pub exporter: E,
    /// Export failures not yet collected by the host for its error sink, oldest first.
    pub errors: Vec<TraceError>,
}

impl<E: SpanExporter> SimpleSpanProcessor<E> {
    /// A processor that exports through `exporter`, with no failure recorded.
    pub fn new(exporter: E) -> (r: Self)
        ensures
            r.exporter == exporter,
            r.errors@.len() == 0,
    {
        SimpleSpanProcessor { exporter, errors: Vec::new() }
    }

    /// Exports `span` alone, as a batch of one.
    pub fn export_span(&mut self, span: SpanData) -> (r: ExportResult)
        ensures
            final(self).errors@ == old(self).errors@,
            final(self).exporter.exported() == old(self).exporter.exported().push(seq![span]),
            final(self).exporter.shutdowns() == old(self).exporter.shutdowns(),
    {
        let mut batch: Vec<SpanData> = Vec::new();
        batch.push(span);
        assert(batch@ =~= seq![span]);
        self.exporter.export(batch)
    }

    /// Records the failure of an export, if it failed, for the host's error sink.
    pub fn record(&mut self, result: ExportResult)
        ensures
            final(self).exporter == old(self).exporter,
            match result {
                Ok(()) => final(self).errors@ == old(self).errors@,
                Err(e) => final(self).errors@ == old(self).errors@.push(e),
            },
    {
        if let Err(e) = result {
            self.errors.push(e);
        }
    }

    /// Hands over the recorded failures, oldest first, and forgets them.
    pub fn take_errors(&mut self) -> (r: Vec<TraceError>)
        ensures
            r@ == old(self).errors@,
            final(self).errors@.len() == 0,
            final(self).exporter == old(self).exporter,
    {
        let mut taken: Vec<TraceError> = Vec::new();
        std::mem::swap(&mut self.errors, &mut taken);
        taken
    }
}

impl<E: SpanExporter> SpanProcessor for SimpleSpanProcessor<E> {
    fn on_start(&self, span: &Span, cx: &Context) {
    }

    /// Exports `span` alone and records the error if the export fails.
    fn on_end(&mut self, span: SpanData)
        ensures
            final(self).exporter.exported() == old(self).exporter.exported().push(seq![span]),
            final(self).exporter.shutdowns() == old(self).exporter.shutdowns(),
            final(self).errors@ == old(self).errors@ || final(self).errors@.drop_last()
                == old(self).errors@ && final(self).errors@.len() == old(self).errors@.len() + 1,
    {
        let result = self.export_span(span);
        self.record(result);
    }

    fn force_flush(&self) -> (r: TraceResult<()>)
        ensures
            r == Ok::<(), TraceError>(()),
    {
        Ok(())
    }

    /// Shuts the exporter down, once.
    fn shutdown(&mut self) -> (r: TraceResult<()>)
        ensures
            r == Ok::<(), TraceError>(()),
            final(self).exporter.shutdowns() == old(self).exporter.shutdowns() + 1,
            final(self).exporter.exported() == old(self).exporter.exported(),
            final(self).errors@ == old(self).errors@,
    {
        self.exporter.shutdown();
        Ok(())
    }
}

} // verus!

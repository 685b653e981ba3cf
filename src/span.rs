use vstd::prelude::*;

verus! {

/// A finished span, as the tracer hands it to a processor. Processors treat it as an
/// opaque unit that is queued and exported.
#[derive(Clone, Debug, PartialEq, Eq)]
pub struct SpanData {
    pub trace_id: u128,
    pub span_id: u64,
    pub parent_span_id: u64,
    pub name: String,
}

/// A span that has just started.
#[derive(Clone, Debug, PartialEq, Eq)]
pub struct Span {
    pub trace_id: u128,
    pub span_id: u64,
    pub name: String,
}

/// The context a span was started in.
#[derive(Clone, Debug, Default, PartialEq, Eq)]
pub struct Context {
    /// The span that was active when the new span started, if any.
    pub active_span_id: Option<u64>,
}

} // verus!

//! The span-processing stage of a tracing SDK: a processor that exports every finished
//! span at once, and the decision core of a batching processor that buffers spans and
//! exports them in bounded batches on a timer, on demand, and at shutdown.

pub mod builder;
pub mod config;
pub mod error;
pub mod guarantees;
pub mod memory;
pub mod outcome;
pub mod parse;
pub mod processor;
pub mod span;
pub mod time;
pub mod worker;

pub use builder::BatchSpanProcessorBuilder;
pub use config::{BatchConfig, BatchEnv};
pub use memory::InMemoryExporter;
pub use error::{ExportResult, TraceError, TraceResult};
pub use outcome::{export_outcome, first_error, reply_result};
pub use parse::parse_decimal;
pub use processor::{SimpleSpanProcessor, SpanExporter, SpanProcessor};
pub use span::{Context, Span, SpanData};
pub use worker::{BatchMessage, BatchWorker, WorkerStep};

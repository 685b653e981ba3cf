use std::time::Duration;

use otel_processor::{
    export_outcome, first_error, reply_result, BatchConfig, BatchMessage, BatchWorker,
    ExportResult, SpanData, TraceError, WorkerStep,
};

fn span(id: u64) -> SpanData {
    SpanData {
        trace_id: 42,
        span_id: id,
        parent_span_id: 0,
        name: format!("span-{}", id),
    }
}

fn config(queue: usize, batch: usize) -> BatchConfig {
    let mut config = BatchConfig::default();
    config.max_queue_size = queue;
    config.max_export_batch_size = batch;
    config
}

fn end(worker: &mut BatchWorker, id: u64) -> WorkerStep<u32> {
    worker.step(BatchMessage::ExportSpan(span(id)))
}

fn flush_batches(step: WorkerStep<u32>) -> (Vec<Vec<SpanData>>, Option<u32>) {
    match step {
        WorkerStep::Export { batches, reply } => (batches, reply),
        _ => panic!("expected an export"),
    }
}

fn ids(batches: &[Vec<SpanData>]) -> Vec<Vec<u64>> {
    batches
        .iter()
        .map(|b| b.iter().map(|s| s.span_id).collect())
        .collect()
}

#[test]
fn flush_with_long_tick_exports_the_one_span() {
    let mut config = BatchConfig::default();
    config.scheduled_delay = Duration::from_secs(60 * 60 * 24);
    let mut worker = BatchWorker::new(config);
    assert!(matches!(end(&mut worker, 1), WorkerStep::Buffered));
    let (batches, reply) = flush_batches(worker.step(BatchMessage::Flush(Some(9))));
    assert_eq!(batches, vec![vec![span(1)]]);
    assert_eq!(reply, Some(9));
    assert_eq!(worker.buffered(), 0);
    let results: Vec<ExportResult> = vec![Ok(())];
    assert_eq!(reply_result(Some(results)), Ok(()));
}

#[test]
fn flush_exports_every_span_once_in_bounded_tail_batches() {
    let mut worker = BatchWorker::new(config(10, 3));
    for id in 1..=7 {
        assert!(matches!(end(&mut worker, id), WorkerStep::Buffered));
    }
    let (batches, _) = flush_batches(worker.step(BatchMessage::Flush(Some(0))));
    assert_eq!(ids(&batches), vec![vec![5, 6, 7], vec![2, 3, 4], vec![1]]);
    let mut seen: Vec<u64> = batches.iter().flatten().map(|s| s.span_id).collect();
    seen.sort();
    assert_eq!(seen, (1..=7).collect::<Vec<u64>>());
}

#[test]
fn flush_of_an_exact_multiple_has_full_batches() {
    let mut worker = BatchWorker::new(config(8, 4));
    for id in 1..=8 {
        end(&mut worker, id);
    }
    let (batches, _) = flush_batches(worker.step(BatchMessage::Flush(None)));
    assert_eq!(ids(&batches), vec![vec![5, 6, 7, 8], vec![1, 2, 3, 4]]);
}

#[test]
fn flush_of_an_empty_buffer_exports_nothing() {
    let mut worker = BatchWorker::new(config(4, 2));
    let (batches, reply) = flush_batches(worker.step(BatchMessage::Flush(Some(3))));
    assert!(batches.is_empty());
    assert_eq!(reply, Some(3));
    assert_eq!(reply_result(Some(Vec::new())), Ok(()));
}

#[test]
fn timer_tick_flush_has_no_reply() {
    let mut worker = BatchWorker::new(config(4, 4));
    end(&mut worker, 1);
    let (batches, reply) = flush_batches(worker.step(BatchMessage::Flush(None)));
    assert_eq!(batches, vec![vec![span(1)]]);
    assert_eq!(reply, None);
}

#[test]
fn burst_beyond_queue_size_drops_the_excess() {
    let mut worker = BatchWorker::new(config(3, 2));
    let mut dropped = Vec::new();
    for id in 1..=5 {
        if let WorkerStep::Dropped(s) = end(&mut worker, id) {
            dropped.push(s.span_id);
        }
    }
    assert_eq!(dropped, vec![4, 5]);
    assert_eq!(worker.buffered(), 3);
    let (batches, _) = flush_batches(worker.step(BatchMessage::Flush(None)));
    assert_eq!(ids(&batches), vec![vec![2, 3], vec![1]]);
    assert!(batches.iter().all(|b| b.len() <= 2));
}

#[test]
fn shutdown_drains_then_stops_for_good() {
    let mut worker = BatchWorker::new(config(4, 4));
    end(&mut worker, 1);
    end(&mut worker, 2);
    match worker.step(BatchMessage::Shutdown(5)) {
        WorkerStep::Shutdown { batches, reply } => {
            assert_eq!(batches, vec![vec![span(1), span(2)]]);
            assert_eq!(reply, 5);
        }
        _ => panic!("expected a shutdown"),
    }
    assert!(worker.is_stopped());
    assert!(matches!(
        end(&mut worker, 3),
        WorkerStep::Stopped(BatchMessage::ExportSpan(_))
    ));
    assert!(matches!(
        worker.step(BatchMessage::Flush(Some(6))),
        WorkerStep::Stopped(BatchMessage::Flush(Some(6)))
    ));
    assert!(matches!(
        worker.step(BatchMessage::Shutdown(7)),
        WorkerStep::Stopped(BatchMessage::Shutdown(7))
    ));
    assert_eq!(worker.buffered(), 0);
}

#[test]
fn worker_reports_its_configuration() {
    let worker = BatchWorker::new(config(6, 2));
    assert_eq!(worker.config().max_queue_size, 6);
    assert_eq!(worker.config().max_export_batch_size, 2);
    assert!(!worker.is_stopped());
}

#[test]
fn timed_out_export_yields_export_timed_out() {
    let timeout = Duration::from_millis(5);
    assert_eq!(
        export_outcome(None, timeout),
        Err(TraceError::ExportTimedOut(Duration::from_millis(5)))
    );
}

#[test]
fn finished_export_keeps_its_result() {
    let timeout = Duration::from_millis(60);
    assert_eq!(export_outcome(Some(Ok(())), timeout), Ok(()));
    assert_eq!(
        export_outcome(Some(Err(TraceError::ExportFailed("no".to_string()))), timeout),
        Err(TraceError::ExportFailed("no".to_string()))
    );
}

#[test]
fn flush_that_timed_out_returns_the_timeout() {
    let timeout = Duration::from_millis(5);
    let results = vec![export_outcome(None, timeout)];
    assert_eq!(
        reply_result(Some(results)),
        Err(TraceError::ExportTimedOut(Duration::from_millis(5)))
    );
    // the shutdown that follows exports nothing and succeeds
    assert_eq!(reply_result(Some(Vec::new())), Ok(()));
}

#[test]
fn flush_within_timeout_succeeds() {
    let results = vec![export_outcome(Some(Ok(())), Duration::from_millis(60))];
    assert_eq!(reply_result(Some(results)), Ok(()));
}

#[test]
fn first_error_picks_the_earliest_failure() {
    let results: Vec<ExportResult> = vec![
        Ok(()),
        Err(TraceError::ExportFailed("second".to_string())),
        Err(TraceError::ExportTimedOut(Duration::from_millis(1))),
    ];
    assert_eq!(
        first_error(results),
        Err(TraceError::ExportFailed("second".to_string()))
    );
    assert_eq!(first_error(vec![Ok(()), Ok(())]), Ok(()));
}

#[test]
fn missing_reply_means_the_worker_is_gone() {
    assert_eq!(reply_result(None), Err(TraceError::WorkerGone));
}

#[test]
fn zero_queue_worker_drops_every_span_and_flushes_nothing() {
    let mut worker = BatchWorker::new(config(0, 0));
    assert!(matches!(end(&mut worker, 1), WorkerStep::Dropped(_)));
    let (batches, _) = flush_batches(worker.step(BatchMessage::Flush(Some(1))));
    assert!(batches.is_empty());
}

use vstd::prelude::*;
use std::time::Duration;
use crate::config::BatchConfig;

verus! {

/// Gathers what a batch span processor is built from: the exporter, the host's task
/// spawner, its timer factory and its sleep function, and the configuration.
pub struct BatchSpanProcessorBuilder<E, S, I, D> {
    pub exporter: E,
    pub interval: I,
    pub spawn: S,
    pub delay: D,
    pub config: BatchConfig,
}

impl<E, S, I, D> BatchSpanProcessorBuilder<E, S, I, D> {
    /// A builder over the given parts.
    pub fn new(exporter: E, spawn: S, interval: I, delay: D, config: BatchConfig) -> (r: Self)
        ensures
            r.exporter == exporter,
            r.spawn == spawn,
            r.interval == interval,
            r.delay == delay,
            r.config == config,
    {
        BatchSpanProcessorBuilder { exporter, interval, spawn, delay, config }
    }

    /// Sets the most spans buffered for delayed processing.
    pub fn with_max_queue_size(self, size: usize) -> (r: Self)
        ensures
            r.config.max_queue_size == size,
            r.config.scheduled_delay == self.config.scheduled_delay,
            r.config.max_export_batch_size == self.config.max_export_batch_size,
            r.config.max_export_timeout == self.config.max_export_timeout,
            r.exporter == self.exporter,
            r.spawn == self.spawn,
            r.interval == self.interval,
            r.delay == self.delay,
    {
        let mut config = self.config;
        config.max_queue_size = size;
        BatchSpanProcessorBuilder { config, ..self }
    }

    /// Sets the delay between two timer-driven exports.
    pub fn with_scheduled_delay(self, delay: Duration) -> (r: Self)
        ensures
            r.config.max_queue_size == self.config.max_queue_size,
            r.config.scheduled_delay == delay,
            r.config.max_export_batch_size == self.config.max_export_batch_size,
            r.config.max_export_timeout == self.config.max_export_timeout,
            r.exporter == self.exporter,
            r.spawn == self.spawn,
            r.interval == self.interval,
            r.delay == self.delay,
    {
        let mut config = self.config;
        config.scheduled_delay = delay;
        BatchSpanProcessorBuilder { config, ..self }
    }

    /// Sets the time allowed for one export call.
    pub fn with_max_timeout(self, timeout: Duration) -> (r: Self)
        ensures
            r.config.max_queue_size == self.config.max_queue_size,
            r.config.scheduled_delay == self.config.scheduled_delay,
            r.config.max_export_batch_size == self.config.max_export_batch_size,
            r.config.max_export_timeout == timeout,
            r.exporter == self.exporter,
            r.spawn == self.spawn,
            r.interval == self.interval,
            r.delay == self.delay,
    {
        let mut config = self.config;
        config.max_export_timeout = timeout;
        BatchSpanProcessorBuilder { config, ..self }
    }

    /// Sets the most spans handed to the exporter in one call, lowered to the current
    /// queue size where it exceeds it.
    pub fn with_max_export_batch_size(self, size: usize) -> (r: Self)
        ensures
            r.config.max_queue_size == self.config.max_queue_size,
            r.config.scheduled_delay == self.config.scheduled_delay,
            r.config.max_export_batch_size == (if size > self.config.max_queue_size {
                self.config.max_queue_size
            } else {
                size
            }),
            r.config.max_export_timeout == self.config.max_export_timeout,
            r.exporter == self.exporter,
            r.spawn == self.spawn,
            r.interval == self.interval,
            r.delay == self.delay,
    {
        let mut config = self.config;
        if size > config.max_queue_size {
            config.max_export_batch_size = config.max_queue_size;
        } else {
            config.max_export_batch_size = size;
        }
        BatchSpanProcessorBuilder { config, ..self }
    }

    /// Takes the builder apart: exporter, spawner, timer factory, sleep function and
    /// configuration.
    pub fn into_parts(self) -> (r: (E, S, I, D, BatchConfig))
        ensures
            r == (self.exporter, self.spawn, self.interval, self.delay, self.config),
    {
        (self.exporter, self.spawn, self.interval, self.delay, self.config)
    }
}

} // verus!

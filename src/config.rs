use vstd::prelude::*;
use vstd::string::StringSliceAdditionalSpecFns;
use std::time::Duration;
use crate::parse::{decimal_value, parse_decimal};
use crate::time::duration_from_millis;

verus! {

/// Default number of spans the worker buffers.
pub const DEFAULT_MAX_QUEUE_SIZE: usize = 2048;

/// Default delay between two timer-driven exports, in milliseconds.
pub const DEFAULT_SCHEDULE_DELAY_MILLIS: u64 = 5000;

/// Default number of spans handed to the exporter in one call.
pub const DEFAULT_MAX_EXPORT_BATCH_SIZE: usize = 512;

/// Default time allowed for one export call, in milliseconds.
pub const DEFAULT_EXPORT_TIMEOUT_MILLIS: u64 = 30000;

/// Batch span processor configuration.
pub struct BatchConfig {
    /// The most spans buffered for delayed processing; further spans are dropped.
    pub max_queue_size: usize,
    /// The delay between two consecutive timer-driven exports.
    pub scheduled_delay: Duration,
    /// The most spans handed to the exporter in one call.
    pub max_export_batch_size: usize,
    /// The time allowed for one export call.
    pub max_export_timeout: Duration,
}

/// The raw values of the environment variables that override the defaults, as read by the
/// host: `OTEL_BSP_MAX_QUEUE_SIZE`, `OTEL_BSP_SCHEDULE_DELAY`,
/// `OTEL_BSP_SCHEDULE_DELAY_MILLIS`, `OTEL_BSP_MAX_EXPORT_BATCH_SIZE`,
/// `OTEL_BSP_EXPORT_TIMEOUT` and `OTEL_BSP_EXPORT_TIMEOUT_MILLIS`.
pub struct BatchEnv<'a> {
    pub max_queue_size: Option<&'a str>,
    pub schedule_delay: Option<&'a str>,
    pub schedule_delay_millis: Option<&'a str>,
    pub max_export_batch_size: Option<&'a str>,
    pub export_timeout: Option<&'a str>,
    pub export_timeout_millis: Option<&'a str>,
}

impl BatchConfig {
    /// A configuration the worker can run with: batches are no larger than the queue, and
    /// non-empty unless the queue holds nothing at all.
    pub open spec fn wf(&self) -> bool {
        &&& self.max_export_batch_size <= self.max_queue_size
        &&& (0 < self.max_export_batch_size || self.max_queue_size == 0)
    }
}

/// The value of a variable, when it is set and reads as a decimal numeral up to `max`.
pub open spec fn env_number(v: Option<&str>, max: nat) -> Option<nat> {
    match v {
        Some(s) => decimal_value(s.spec_bytes(), max),
        None => None,
    }
}

/// The first of two variables that is set; the second is consulted only when the first is not.
pub open spec fn first_set<'a>(a: Option<&'a str>, b: Option<&'a str>) -> Option<&'a str> {
    if a is Some {
        a
    } else {
        b
    }
}

pub open spec fn or_default(v: Option<nat>, default: nat) -> nat {
    match v {
        Some(n) => n,
        None => default,
    }
}

pub open spec fn min_nat(a: nat, b: nat) -> nat {
    if a <= b {
        a
    } else {
        b
    }
}

/// The queue size that the defaults and the environment give.
pub open spec fn env_queue_size(env: BatchEnv) -> nat {
    or_default(env_number(env.max_queue_size, usize::MAX as nat), DEFAULT_MAX_QUEUE_SIZE as nat)
}

/// The batch size that the defaults and the environment give, before it is clamped.
pub open spec fn env_batch_size(env: BatchEnv) -> nat {
    or_default(
        env_number(env.max_export_batch_size, usize::MAX as nat),
        DEFAULT_MAX_EXPORT_BATCH_SIZE as nat,
    )
}

pub open spec fn env_delay_millis(env: BatchEnv) -> nat {
    or_default(
        env_number(first_set(env.schedule_delay, env.schedule_delay_millis), u64::MAX as nat),
        DEFAULT_SCHEDULE_DELAY_MILLIS as nat,
    )
}

pub open spec fn env_timeout_millis(env: BatchEnv) -> nat {
    or_default(
        env_number(first_set(env.export_timeout, env.export_timeout_millis), u64::MAX as nat),
        DEFAULT_EXPORT_TIMEOUT_MILLIS as nat,
    )
}

fn read_number(v: Option<&str>, max: u64) -> (r: Option<u64>)
    ensures
        match env_number(v, max as nat) {
            Some(n) => r == Some(n as u64),
            None => r is None,
        },
{
    match v {
        Some(s) => parse_decimal(s, max),
        None => None,
    }
}

fn first_set_exec<'a>(a: Option<&'a str>, b: Option<&'a str>) -> (r: Option<&'a str>)
    ensures
        r == first_set(a, b),
{
    if a.is_some() {
        a
    } else {
        b
    }
}

impl BatchConfig {
    /// The defaults, overridden by every variable in `env` that reads as a number, with the
    /// batch size then lowered to the queue size where it exceeds it.
    pub fn from_env(env: &BatchEnv) -> (r: BatchConfig)
        ensures
            r.max_queue_size == env_queue_size(*env),
            r.max_export_batch_size == min_nat(env_batch_size(*env), env_queue_size(*env)),
            r.scheduled_delay == duration_from_millis(env_delay_millis(*env) as u64),
            r.max_export_timeout == duration_from_millis(env_timeout_millis(*env) as u64),
            r.wf() <==> (env_batch_size(*env) > 0 || env_queue_size(*env) == 0),
    {
        let max_count = usize::MAX as u64;
        let max_queue_size = match read_number(env.max_queue_size, max_count) {
            Some(n) => n as usize,
            None => DEFAULT_MAX_QUEUE_SIZE,
        };
        let delay = match read_number(
            first_set_exec(env.schedule_delay, env.schedule_delay_millis),
            u64::MAX,
        ) {
            Some(n) => n,
            None => DEFAULT_SCHEDULE_DELAY_MILLIS,
        };
        let mut max_export_batch_size = match read_number(env.max_export_batch_size, max_count) {
            Some(n) => n as usize,
            None => DEFAULT_MAX_EXPORT_BATCH_SIZE,
        };
        if max_export_batch_size > max_queue_size {
            max_export_batch_size = max_queue_size;
        }
        let timeout = match read_number(
            first_set_exec(env.export_timeout, env.export_timeout_millis),
            u64::MAX,
        ) {
            Some(n) => n,
            None => DEFAULT_EXPORT_TIMEOUT_MILLIS,
        };
        BatchConfig {
            max_queue_size,
            scheduled_delay: Duration::from_millis(delay),
            max_export_batch_size,
            max_export_timeout: Duration::from_millis(timeout),
        }
    }
}

impl BatchConfig {
    /// The same configuration with the batch size lowered to the queue size where it
    /// exceeds it.
    pub fn clamped(self) -> (r: BatchConfig)
        ensures
            r.max_queue_size == self.max_queue_size,
            r.max_export_batch_size == min_nat(
                self.max_export_batch_size as nat,
                self.max_queue_size as nat,
            ),
            r.scheduled_delay == self.scheduled_delay,
            r.max_export_timeout == self.max_export_timeout,
            r.wf() <==> (self.max_export_batch_size > 0 || self.max_queue_size == 0),
    {
        let mut config = self;
        if config.max_export_batch_size > config.max_queue_size {
            config.max_export_batch_size = config.max_queue_size;
        }
        config
    }
}

impl Default for BatchConfig {
    /// The documented defaults, without any environment override.
    fn default() -> (r: BatchConfig)
        ensures
            r.max_queue_size == DEFAULT_MAX_QUEUE_SIZE,
            r.max_export_batch_size == DEFAULT_MAX_EXPORT_BATCH_SIZE,
            r.scheduled_delay == duration_from_millis(DEFAULT_SCHEDULE_DELAY_MILLIS),
            r.max_export_timeout == duration_from_millis(DEFAULT_EXPORT_TIMEOUT_MILLIS),
            r.wf(),
    {
        BatchConfig {
            max_queue_size: DEFAULT_MAX_QUEUE_SIZE,
            scheduled_delay: Duration::from_millis(DEFAULT_SCHEDULE_DELAY_MILLIS),
            max_export_batch_size: DEFAULT_MAX_EXPORT_BATCH_SIZE,
            max_export_timeout: Duration::from_millis(DEFAULT_EXPORT_TIMEOUT_MILLIS),
        }
    }
}

} // verus!

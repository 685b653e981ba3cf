use std::time::Duration;

use otel_processor::{parse_decimal, BatchConfig, BatchEnv, BatchSpanProcessorBuilder};

fn no_env() -> BatchEnv<'static> {
    BatchEnv {
        max_queue_size: None,
        schedule_delay: None,
        schedule_delay_millis: None,
        max_export_batch_size: None,
        export_timeout: None,
        export_timeout_millis: None,
    }
}

#[test]
fn test_build_batch_span_processor_builder() {
    let mut env = no_env();
    env.max_export_batch_size = Some("500");
    env.export_timeout = Some("2046");
    env.schedule_delay = Some("I am not number");

    let builder = BatchSpanProcessorBuilder::new((), (), (), (), BatchConfig::from_env(&env));
    // export batch size cannot exceed max queue size
    assert_eq!(builder.config.max_export_batch_size, 500);
    assert_eq!(builder.config.scheduled_delay, Duration::from_millis(5000));
    assert_eq!(builder.config.max_queue_size, 2048);
    assert_eq!(builder.config.max_export_timeout, Duration::from_millis(2046));

    env.max_queue_size = Some("120");
    let builder = BatchSpanProcessorBuilder::new((), (), (), (), BatchConfig::from_env(&env));
    assert_eq!(builder.config.max_export_batch_size, 120);
    assert_eq!(builder.config.max_queue_size, 120);
}

#[test]
fn default_config_has_documented_values() {
    let config = BatchConfig::default();
    assert_eq!(config.max_queue_size, 2048);
    assert_eq!(config.scheduled_delay, Duration::from_millis(5000));
    assert_eq!(config.max_export_batch_size, 512);
    assert_eq!(config.max_export_timeout, Duration::from_millis(30000));
}

#[test]
fn empty_environment_gives_defaults() {
    let config = BatchConfig::from_env(&no_env());
    assert_eq!(config.max_queue_size, 2048);
    assert_eq!(config.scheduled_delay, Duration::from_millis(5000));
    assert_eq!(config.max_export_batch_size, 512);
    assert_eq!(config.max_export_timeout, Duration::from_millis(30000));
}

#[test]
fn millis_variables_are_used_when_the_plain_ones_are_unset() {
    let mut env = no_env();
    env.schedule_delay_millis = Some("250");
    env.export_timeout_millis = Some("750");
    let config = BatchConfig::from_env(&env);
    assert_eq!(config.scheduled_delay, Duration::from_millis(250));
    assert_eq!(config.max_export_timeout, Duration::from_millis(750));
}

#[test]
fn a_set_but_malformed_plain_variable_hides_the_millis_one() {
    let mut env = no_env();
    env.schedule_delay = Some("soon");
    env.schedule_delay_millis = Some("250");
    env.export_timeout = Some("10");
    env.export_timeout_millis = Some("750");
    let config = BatchConfig::from_env(&env);
    assert_eq!(config.scheduled_delay, Duration::from_millis(5000));
    assert_eq!(config.max_export_timeout, Duration::from_millis(10));
}

#[test]
fn negative_and_malformed_counts_are_ignored() {
    let mut env = no_env();
    env.max_queue_size = Some("-5");
    env.max_export_batch_size = Some("12a");
    let config = BatchConfig::from_env(&env);
    assert_eq!(config.max_queue_size, 2048);
    assert_eq!(config.max_export_batch_size, 512);
}

#[test]
fn builder_setters_change_only_their_field() {
    let builder = BatchSpanProcessorBuilder::new("exporter", 1u8, 2u8, 3u8, BatchConfig::default())
        .with_max_queue_size(100)
        .with_scheduled_delay(Duration::from_secs(86400))
        .with_max_timeout(Duration::from_millis(5));
    assert_eq!(builder.config.max_queue_size, 100);
    assert_eq!(builder.config.scheduled_delay, Duration::from_secs(86400));
    assert_eq!(builder.config.max_export_timeout, Duration::from_millis(5));
    assert_eq!(builder.config.max_export_batch_size, 512);
    let (exporter, spawn, interval, delay, config) = builder.into_parts();
    assert_eq!((exporter, spawn, interval, delay), ("exporter", 1u8, 2u8, 3u8));
    assert_eq!(config.max_queue_size, 100);
}

#[test]
fn builder_clamps_batch_size_to_current_queue_size() {
    let builder = BatchSpanProcessorBuilder::new((), (), (), (), BatchConfig::default())
        .with_max_queue_size(100)
        .with_max_export_batch_size(101);
    assert_eq!(builder.config.max_export_batch_size, 100);
    let builder = builder.with_max_export_batch_size(40);
    assert_eq!(builder.config.max_export_batch_size, 40);
    let builder = builder.with_max_export_batch_size(100);
    assert_eq!(builder.config.max_export_batch_size, 100);
}

#[test]
fn parse_decimal_reads_unsigned_numerals() {
    assert_eq!(parse_decimal("0", u64::MAX), Some(0));
    assert_eq!(parse_decimal("2046", u64::MAX), Some(2046));
    assert_eq!(parse_decimal("+17", u64::MAX), Some(17));
    assert_eq!(parse_decimal("007", u64::MAX), Some(7));
    assert_eq!(parse_decimal("18446744073709551615", u64::MAX), Some(u64::MAX));
}

#[test]
fn parse_decimal_rejects_what_is_not_a_fitting_numeral() {
    assert_eq!(parse_decimal("", u64::MAX), None);
    assert_eq!(parse_decimal("+", u64::MAX), None);
    assert_eq!(parse_decimal("-1", u64::MAX), None);
    assert_eq!(parse_decimal(" 1", u64::MAX), None);
    assert_eq!(parse_decimal("1_000", u64::MAX), None);
    assert_eq!(parse_decimal("\u{661}\u{662}", u64::MAX), None);
    assert_eq!(parse_decimal("18446744073709551616", u64::MAX), None);
    assert_eq!(parse_decimal("256", 255), None);
    assert_eq!(parse_decimal("255", 255), Some(255));
}

#[test]
fn clamped_lowers_batch_size_to_queue_size() {
    let mut config = BatchConfig::default();
    config.max_queue_size = 10;
    config.max_export_batch_size = 11;
    let config = config.clamped();
    assert_eq!(config.max_queue_size, 10);
    assert_eq!(config.max_export_batch_size, 10);
    let config = config.clamped();
    assert_eq!(config.max_export_batch_size, 10);
}

#[test]
fn clamped_keeps_a_batch_size_that_fits() {
    let mut config = BatchConfig::default();
    config.max_export_batch_size = 7;
    let config = config.clamped();
    assert_eq!(config.max_export_batch_size, 7);
    assert_eq!(config.max_queue_size, 2048);
    assert_eq!(config.scheduled_delay, Duration::from_millis(5000));
}

#[test]
fn zero_queue_from_environment_clamps_batch_size_to_zero() {
    let mut env = no_env();
    env.max_queue_size = Some("0");
    let config = BatchConfig::from_env(&env);
    assert_eq!(config.max_queue_size, 0);
    assert_eq!(config.max_export_batch_size, 0);
}

use fluxite::exporter::{drain_queue, remaining_pause, Batcher, MAX_BATCH_SIZE};
use fluxite::registry::{init_sink, InstallError, InstalledSink, SinkRegistry};
use fluxite::sink::Sink;
use fluxite::{
    emit_counter, emit_counter_with_labels, GraphiteSink, InfluxSink, Label, MetricsConfig,
    NoopSink, SinkType,
};

fn influx_config(prefix: &str) -> MetricsConfig {
    MetricsConfig {
        endpoint: "127.0.0.1:2115".to_string(),
        sink_type: SinkType::Influx,
        prefix: if prefix.is_empty() {
            None
        } else {
            Some(prefix.to_string())
        },
        interval: Some(1000),
    }
}

#[test]
fn emission_before_init_is_a_noop() {
    let reg = SinkRegistry::new();
    let labels = vec![Label::from_parts("user", "foo")];
    // No sink installed: nothing to format, nothing to enqueue, no panic.
    emit_counter(&reg, "early", 1);
    emit_counter_with_labels(&reg, "early", 2, &labels);
    assert!(reg.current().is_none());
}

#[test]
fn install_is_write_once() {
    let mut reg = SinkRegistry::new();
    let (tx, _rx) = crossbeam_channel::unbounded();
    assert!(reg
        .install(InstalledSink::Influx(InfluxSink::new("one_", tx)))
        .is_ok());
    let before = reg.render_sample("m", 1, &vec![], 5).unwrap();
    let (tx2, _rx2) = crossbeam_channel::unbounded();
    let second = reg.install(InstalledSink::Graphite(GraphiteSink::new("two_", tx2)));
    assert_eq!(second, Err(InstallError::AlreadyInstalled));
    // The registry still holds the first sink, unchanged.
    let after = reg.render_sample("m", 1, &vec![], 5).unwrap();
    assert_eq!(before, after);
    assert_eq!(after, "one_m count=1 5");
    assert!(reg.current().is_some());
}

#[test]
fn noop_sink_renders_nothing() {
    let mut reg = SinkRegistry::new();
    reg.install(InstalledSink::Noop(NoopSink)).unwrap();
    assert!(reg.render_sample("m", 1, &vec![], 5).is_none());
    // The no-op sink swallows direct emissions too.
    NoopSink.count("m", 1);
    NoopSink.count_with_labels("m", 1, &vec![Label::from_parts("a", "b")]);
    emit_counter(&reg, "m", 1);
}

#[test]
fn init_sink_builds_and_installs() {
    let mut reg = SinkRegistry::new();
    let rx = init_sink(&mut reg, &influx_config("dev_")).unwrap();
    emit_counter(&reg, "foo", 9);
    let line = rx.try_recv().unwrap();
    let mut parts = line.split(' ');
    assert_eq!(parts.next().unwrap(), "dev_foo");
    assert_eq!(parts.next().unwrap(), "count=9");
    let ts = parts.next().unwrap();
    assert!(parts.next().is_none());
    assert!(!ts.is_empty() && ts.bytes().all(|b| b.is_ascii_digit()));

    // A second initialization is rejected and the first sink stays.
    let second = init_sink(&mut reg, &influx_config(""));
    assert!(second.is_err());
    emit_counter(&reg, "foo", 2);
    assert!(rx.try_recv().unwrap().starts_with("dev_foo count=2 "));
}

#[test]
fn end_to_end_influx_scenario() {
    // Influx sink, prefix `app=demo`, interval 1s: one labeled emission
    // yields exactly one datagram within the interval, carrying the one
    // formatted line.
    let mut reg = SinkRegistry::new();
    let config = influx_config("app=demo");
    let rx = init_sink(&mut reg, &config).unwrap();
    assert_eq!(config.interval_or_default(), 1000);
    let labels = vec![Label::from_parts("route", "/x")];
    emit_counter_with_labels(&reg, "requests", 3, &labels);

    let mut batcher = Batcher::new();
    let datagrams = drain_queue(&rx, &mut batcher, usize::MAX);
    assert_eq!(datagrams.len(), 1);
    let line = &datagrams[0];
    assert!(line.starts_with("app=demorequests,route=/x count=3 "));
    let ts = line.rsplit(' ').next().unwrap();
    assert!(ts.bytes().all(|b| b.is_ascii_digit()));
    // And nothing more arrives without further emissions.
    assert!(drain_queue(&rx, &mut batcher, usize::MAX).is_empty());
}

#[test]
fn batcher_splits_at_threshold() {
    let mut b = Batcher::with_limit(10);
    assert!(b.push("aaaaaa".to_string()).is_none());
    let first = b.push("bbbbbb".to_string());
    assert_eq!(first.unwrap(), "aaaaaa\nbbbbbb");
    // The batch reset: the next small sample is pending again.
    assert!(b.push("cc".to_string()).is_none());
    assert_eq!(b.flush().unwrap(), "cc");
    assert!(b.flush().is_none());
}

#[test]
fn oversized_sample_ships_whole() {
    let mut b = Batcher::with_limit(3);
    let out = b.push("abcdefgh".to_string());
    assert_eq!(out.unwrap(), "abcdefgh");
    assert!(b.flush().is_none());
}

#[test]
fn burst_yields_multiple_bounded_datagrams() {
    let (tx, rx) = crossbeam_channel::unbounded();
    let sample = "x".repeat(120);
    for _ in 0..100 {
        tx.send(sample.clone()).unwrap();
    }
    let mut b = Batcher::with_limit(1000);
    let datagrams = drain_queue(&rx, &mut b, usize::MAX);
    // 100 samples of 120 bytes against a 1000-byte threshold: more than
    // one datagram, each within the threshold plus one sample plus the
    // separators between its lines.
    assert!(datagrams.len() > 1);
    let mut recovered = 0;
    for d in &datagrams {
        let lines: Vec<&str> = d.split('\n').collect();
        assert!(d.len() <= 1000 + sample.len() + (lines.len() - 1));
        for l in &lines {
            assert_eq!(*l, sample);
            recovered += 1;
        }
    }
    assert_eq!(recovered, 100);
}

#[test]
fn default_threshold_matches_policy() {
    assert_eq!(MAX_BATCH_SIZE, 25000);
    let burst = "y".repeat(26000);
    let mut b = Batcher::new();
    // A single sample larger than the threshold still goes out whole.
    assert_eq!(b.push(burst.clone()).unwrap(), burst);
}

#[test]
fn empty_queue_sends_nothing_and_sleeps_the_interval() {
    let (_tx, rx) = crossbeam_channel::unbounded::<String>();
    let mut b = Batcher::new();
    let datagrams = drain_queue(&rx, &mut b, usize::MAX);
    assert!(datagrams.is_empty());
    // With no work done the exporter sleeps the whole interval; once the
    // drain consumed it, it loops again immediately.
    assert_eq!(remaining_pause(5000, 0), 5000);
    assert_eq!(remaining_pause(5000, 1200), 3800);
    assert_eq!(remaining_pause(5000, 5000), 0);
    assert_eq!(remaining_pause(5000, 9000), 0);
}

#[test]
fn queue_preserves_order() {
    let mut reg = SinkRegistry::new();
    let rx = init_sink(&mut reg, &influx_config("")).unwrap();
    for v in 0..5 {
        emit_counter(&reg, "seq", v);
    }
    let mut b = Batcher::new();
    let datagrams = drain_queue(&rx, &mut b, usize::MAX);
    assert_eq!(datagrams.len(), 1);
    let values: Vec<String> = datagrams[0]
        .split('\n')
        .map(|l| l.split(' ').nth(1).unwrap().to_string())
        .collect();
    assert_eq!(values, vec!["count=0", "count=1", "count=2", "count=3", "count=4"]);
}

#[test]
fn clock_reads_nanoseconds_since_epoch() {
    let nanos = fluxite::clock::epoch_nanos();
    // Far past 2020-01-01 in nanoseconds, far before the year 3000.
    assert!(nanos > 1_577_836_800_000_000_000);
    assert!(nanos < 32_503_680_000_000_000_000_000u128);
}

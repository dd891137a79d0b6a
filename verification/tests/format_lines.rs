use fluxite::observers::{
    app_cluster_prefix, drain_metrics, format_labels, graphite_hist_line, graphite_observer_line,
    graphite_observer_prefix, influx_hist_line, influx_observer_line, influx_observer_prefix,
    quantile_field, quantile_sample,
};
use fluxite::registry::{InstalledSink, SinkRegistry};
use fluxite::{GraphiteSink, InfluxSink, Label, MetricsConfig, SinkType};

fn influx_registry(prefix: &str) -> (SinkRegistry, crossbeam_channel::Receiver<String>) {
    let mut reg = SinkRegistry::new();
    let (tx, rx) = crossbeam_channel::unbounded();
    reg.install(InstalledSink::Influx(InfluxSink::new(prefix, tx)))
        .unwrap();
    (reg, rx)
}

fn graphite_registry(prefix: &str) -> (SinkRegistry, crossbeam_channel::Receiver<String>) {
    let mut reg = SinkRegistry::new();
    let (tx, rx) = crossbeam_channel::unbounded();
    reg.install(InstalledSink::Graphite(GraphiteSink::new(prefix, tx)))
        .unwrap();
    (reg, rx)
}

#[test]
fn influx_line_without_labels() {
    let (reg, _rx) = influx_registry("dev_");
    let line = reg.render_sample("my_api", 1, &vec![], 42).unwrap();
    assert_eq!(line, "dev_my_api count=1 42");
}

#[test]
fn influx_line_with_labels_in_emission_order() {
    let (reg, _rx) = influx_registry("");
    let labels = vec![
        Label::from_parts("user", "foo"),
        Label::from_parts("route", "/x"),
    ];
    let line = reg.render_sample("my_api", 4, &labels, 7).unwrap();
    assert_eq!(line, "my_api,user=foo,route=/x count=4 7");
}

#[test]
fn influx_line_prefix_precedes_name() {
    let (reg, _rx) = influx_registry("app=demo,");
    let labels = vec![Label::from_parts("route", "/x")];
    let line = reg.render_sample("requests", 3, &labels, 99).unwrap();
    assert_eq!(line, "app=demo,requests,route=/x count=3 99");
}

#[test]
fn influx_line_extreme_values() {
    let (reg, _rx) = influx_registry("");
    let line = reg
        .render_sample("edge", usize::MAX, &vec![], 1234567890123456789012345678)
        .unwrap();
    assert_eq!(
        line,
        format!("edge count={} 1234567890123456789012345678", usize::MAX)
    );
    let zero = reg.render_sample("edge", 0, &vec![], 0).unwrap();
    assert_eq!(zero, "edge count=0 0");
}

#[test]
fn graphite_line_shape() {
    let (reg, _rx) = graphite_registry("dev.");
    let line = reg.render_sample("foo", 7, &vec![], 90).unwrap();
    assert_eq!(line, "dev.foo 7 90");
}

#[test]
fn graphite_drops_label_text() {
    let (reg, _rx) = graphite_registry("dev.");
    let labels = vec![Label::from_parts("user", "foo")];
    let with = reg.render_sample("foo", 7, &labels, 90).unwrap();
    let without = reg.render_sample("foo", 7, &vec![], 90).unwrap();
    assert_eq!(with, without);
    assert!(!with.contains("user"));
    assert!(!with.contains("foo=bar"));
}

#[test]
fn uninstalled_registry_renders_nothing() {
    let reg = SinkRegistry::new();
    let labels = vec![Label::from_parts("user", "foo")];
    assert!(reg.render_sample("my_api", 1, &vec![], 42).is_none());
    assert!(reg.render_sample("my_api", 1, &labels, 42).is_none());
}

#[test]
fn observer_line_name_first() {
    let prefix = influx_observer_prefix("app=demo");
    assert_eq!(prefix, ",app=demo");
    let labels = vec![Label::from_parts("route", "/x")];
    let line = influx_observer_line("requests", &prefix, "count", 3, &labels, 777);
    assert_eq!(line, "requests,app=demo,route=/x count=3 777");
}

#[test]
fn observer_line_empty_prefix_and_gauge() {
    let prefix = influx_observer_prefix("");
    assert_eq!(prefix, "");
    let line = influx_observer_line("mem", &prefix, "gauge", 12, &vec![], 5);
    assert_eq!(line, "mem gauge=12 5");
}

#[test]
fn observer_app_cluster_prefix_shape() {
    let prefix = app_cluster_prefix("svc", "east");
    assert_eq!(prefix, ",app=svc,cluster=east");
    let line = influx_observer_line("reqs", &prefix, "count", 2, &vec![], 8);
    assert_eq!(line, "reqs,app=svc,cluster=east count=2 8");
}

#[test]
fn graphite_observer_prefix_and_line() {
    assert_eq!(graphite_observer_prefix(""), "");
    let prefix = graphite_observer_prefix("my_cluster.my_app");
    assert_eq!(prefix, "my_cluster.my_app.");
    let line = graphite_observer_line(&prefix, "my_count", 1, 66);
    assert_eq!(line, "my_cluster.my_app.my_count 1 66");
}

#[test]
fn histogram_lines() {
    assert_eq!(quantile_field("p99", 250), "p99=250");
    assert_eq!(quantile_sample("p99", 250), "p99 250");
    let labels = vec![
        Label::from_parts("a", "1"),
        Label::from_parts("b", "2"),
    ];
    assert_eq!(format_labels(&labels), "a=1,b=2");
    assert_eq!(format_labels(&vec![]), "");
    let line = influx_hist_line("lat", ",app=x", "a=1,b=2", "min=0,p50=3", 11);
    assert_eq!(line, "lat,app=x,a=1,b=2 min=0,p50=3 11");
    let bare = influx_hist_line("lat", "", "", "min=0,p50=3", 11);
    assert_eq!(bare, "lat min=0,p50=3 11");
    let g = graphite_hist_line("c.", "lat", "p99 250", 12);
    assert_eq!(g, "c.lat.p99 250 12");
}

#[test]
fn drain_joins_and_clears() {
    let mut metrics = vec!["a 1 2".to_string(), "b 3 4".to_string()];
    let rendered = drain_metrics(&mut metrics);
    assert_eq!(rendered, "a 1 2\nb 3 4");
    assert!(metrics.is_empty());
    assert_eq!(drain_metrics(&mut metrics), "");
}

#[test]
fn reparse_recovers_emitted_pairs() {
    // The set of (name, value) pairs read back from the emitted lines,
    // timestamp ignored, is exactly the set that was emitted.
    let emitted: Vec<(&str, usize)> = vec![("alpha", 1), ("beta", 22), ("gamma", 333)];
    let (ireg, _rx1) = influx_registry("");
    let (greg, _rx2) = graphite_registry("");
    let labels = vec![Label::from_parts("route", "/x")];
    let mut influx_parsed: Vec<(String, usize)> = Vec::new();
    let mut graphite_parsed: Vec<(String, usize)> = Vec::new();
    for (name, value) in &emitted {
        let iline = ireg.render_sample(name, *value, &labels, 900).unwrap();
        let series = iline.split(' ').next().unwrap();
        let measurement = series.split(',').next().unwrap();
        let field = iline.split(' ').nth(1).unwrap();
        let val: usize = field.split('=').nth(1).unwrap().parse().unwrap();
        influx_parsed.push((measurement.to_string(), val));

        let gline = greg.render_sample(name, *value, &labels, 900).unwrap();
        let mut it = gline.split(' ');
        let path = it.next().unwrap();
        let val: usize = it.next().unwrap().parse().unwrap();
        graphite_parsed.push((path.to_string(), val));
    }
    let expected: Vec<(String, usize)> = emitted
        .iter()
        .map(|(n, v)| (n.to_string(), *v))
        .collect();
    assert_eq!(influx_parsed, expected);
    assert_eq!(graphite_parsed, expected);
}

#[test]
fn config_defaults() {
    let config = MetricsConfig {
        endpoint: "localhost:8089".to_string(),
        sink_type: SinkType::Influx,
        prefix: None,
        interval: None,
    };
    assert_eq!(config.prefix_or_default(), "");
    assert_eq!(config.interval_or_default(), 5000);
    let config = MetricsConfig {
        endpoint: "localhost:8089".to_string(),
        sink_type: SinkType::Graphite,
        prefix: Some("dev_".to_string()),
        interval: Some(1000),
    };
    assert_eq!(config.prefix_or_default(), "dev_");
    assert_eq!(config.interval_or_default(), 1000);
}

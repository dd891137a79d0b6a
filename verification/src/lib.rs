//! Metrics emission library.
//!
//! Application code records counters (optionally with key/value labels)
//! through a process-wide sink; a background task batches the formatted
//! samples and ships them over UDP in either InfluxDB line format or
//! Graphite plaintext format.
use vstd::prelude::*;

pub mod channel;
pub mod clock;
pub mod exporter;
pub mod graphite;
pub mod influx;
pub mod metrics_config;
pub mod observers;
pub mod parse;
pub mod registry;
pub mod sink;
pub mod strfmt;

pub use clock::epoch_time;
pub use graphite::GraphiteSink;
pub use influx::InfluxSink;
pub use metrics_config::{MetricsConfig, SinkType};
pub use registry::{init_sink, InstallError, InstalledSink, SinkRegistry};
pub use sink::{NoopSink, Sink};

verus! {

/// One key/value pair attached to a metric sample. Labels carry no
/// uniqueness constraint; their emission order is preserved in output.
#[derive(Clone, Copy, Debug)]
pub struct Label<'a>(&'a str, &'a str);

impl<'a> Label<'a> {
    /// The label's key.
    pub closed spec fn key(&self) -> Seq<char> {
        self.0@
    }

    /// The label's value.
    pub closed spec fn val(&self) -> Seq<char> {
        self.1@
    }

    pub fn from_parts(key: &'a str, val: &'a str) -> (r: Self)
        ensures
            r.key() == key@,
            r.val() == val@,
    {
        Label(key, val)
    }

    /// The label's key.
    pub fn key_str(&self) -> (r: &'a str)
        ensures
            r@ == self.key(),
    {
        self.0
    }

    /// The label's value.
    pub fn val_str(&self) -> (r: &'a str)
        ensures
            r@ == self.val(),
    {
        self.1
    }
}

/// The key/value text of each label, in emission order.
pub open spec fn labels_view<'a>(labels: Seq<Label<'a>>) -> Seq<(Seq<char>, Seq<char>)> {
    labels.map_values(|l: Label<'a>| (l.key(), l.val()))
}

/// Each pair rendered as `key=value`, in order.
pub open spec fn spec_kv_pairs(pairs: Seq<(Seq<char>, Seq<char>)>) -> Seq<Seq<char>> {
    pairs.map_values(|p: (Seq<char>, Seq<char>)| strfmt::spec_kv_pair(p.0, p.1))
}

/// Render each label as `key=value`, in emission order.
pub(crate) fn render_labels<'a>(labels: &Vec<Label<'a>>) -> (r: Vec<String>)
    ensures
        r.deep_view() == spec_kv_pairs(labels_view(labels@)),
{
    let mut r: Vec<String> = Vec::new();
    let mut i: usize = 0;
    while i < labels.len()
        invariant
            i <= labels.len(),
            r.deep_view() == spec_kv_pairs(labels_view(labels@.take(i as int))),
        decreases labels.len() - i,
    {
        let ghost prev = r.deep_view();
        let l = labels[i];
        r.push(strfmt::kv_pair(l.key_str(), l.val_str()));
        proof {
            let lv = labels@;
            assert(lv.take(i + 1) =~= lv.take(i as int).push(lv[i as int]));
            assert(labels_view(lv.take(i + 1)) =~= labels_view(lv.take(i as int)).push(
                (lv[i as int].key(), lv[i as int].val()),
            ));
            assert(spec_kv_pairs(labels_view(lv.take(i + 1))) =~= spec_kv_pairs(
                labels_view(lv.take(i as int)),
            ).push(strfmt::spec_kv_pair(lv[i as int].key(), lv[i as int].val())));
            assert(r.deep_view() =~= prev.push(
                strfmt::spec_kv_pair(lv[i as int].key(), lv[i as int].val()),
            ));
        }
        i += 1;
    }
    proof {
        assert(labels@.take(labels@.len() as int) =~= labels@);
    }
    r
}

/// Fast-path emission: look up the current sink via the registry; while
/// none is installed this is a complete no-op.
pub fn emit_counter(reg: &SinkRegistry, key: &str, val: usize) {
    if let Some(s) = reg.current() {
        s.count(key, val);
    }
}

/// Labeled emission: look up the current sink via the registry; while
/// none is installed this is a complete no-op.
pub fn emit_counter_with_labels(reg: &SinkRegistry, key: &str, val: usize, labels: &Vec<Label>) {
    if let Some(s) = reg.current() {
        s.count_with_labels(key, val, labels);
    }
}

} // verus!

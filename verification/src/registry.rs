//! The sink registry: a write-once-then-read-many holder of the active
//! sink. Before installation every lookup observes "absent" and emission
//! is a silent no-op; after the one successful installation every lookup
//! observes the installed sink, and further installs are rejected.
use crate::channel::new_channel;
use crate::graphite::{spec_graphite_line, GraphiteSink};
use crate::influx::{spec_influx_line, InfluxSink};
use crate::metrics_config::{MetricsConfig, SinkType};
use crate::sink::{NoopSink, Sink};
use crate::{labels_view, Label};
use vstd::prelude::*;

verus! {

/// The closed set of sink implementations an application can install.
pub enum InstalledSink {
    Influx(InfluxSink),
    Graphite(GraphiteSink),
    Noop(NoopSink),
}

impl Sink for InstalledSink {
    fn count(&self, key: &str, val: usize) {
        match self {
            InstalledSink::Influx(s) => s.count(key, val),
            InstalledSink::Graphite(s) => s.count(key, val),
            InstalledSink::Noop(s) => s.count(key, val),
        }
    }

    fn count_with_labels(&self, key: &str, val: usize, labels: &Vec<Label>) {
        match self {
            InstalledSink::Influx(s) => s.count_with_labels(key, val, labels),
            InstalledSink::Graphite(s) => s.count_with_labels(key, val, labels),
            InstalledSink::Noop(s) => s.count_with_labels(key, val, labels),
        }
    }
}

/// Installing a sink into a registry that already holds one is a
/// programming error, reported rather than silently overwriting.
#[derive(Clone, Copy, Debug, PartialEq, Eq, Structural)]
pub enum InstallError {
    AlreadyInstalled,
}

/// Holder of the single active sink.
pub struct SinkRegistry {
    sink: Option<InstalledSink>,
}

/// The fixed value key of counter samples.
pub open spec fn spec_count_key() -> Seq<char> {
    seq!['c', 'o', 'u', 'n', 't']
}

/// The line the registry's sink would enqueue for one counter event
/// captured at time `now`: nothing while no sink is installed or while
/// the no-op sink is active, a wire-format line otherwise.
pub open spec fn spec_sample(
    reg: SinkRegistry,
    name: Seq<char>,
    value: nat,
    labels: Seq<(Seq<char>, Seq<char>)>,
    now: nat,
) -> Option<Seq<char>> {
    match reg.spec_sink() {
        None => None,
        Some(InstalledSink::Noop(_)) => None,
        Some(InstalledSink::Influx(s)) => Some(
            spec_influx_line(s.spec_prefix(), name, labels, spec_count_key(), value, now),
        ),
        Some(InstalledSink::Graphite(s)) => Some(
            spec_graphite_line(s.spec_prefix(), name, value, now),
        ),
    }
}

/// Whether `s` is the sink that `c` asks for: the matching format, bound
/// to the configured prefix.
pub open spec fn sink_matches_config(s: InstalledSink, c: MetricsConfig) -> bool {
    match s {
        InstalledSink::Influx(i) => c.sink_type == SinkType::Influx && i.spec_prefix()
            == c.spec_prefix(),
        InstalledSink::Graphite(g) => c.sink_type == SinkType::Graphite && g.spec_prefix()
            == c.spec_prefix(),
        InstalledSink::Noop(_) => false,
    }
}

impl SinkRegistry {
    /// The sink held, if one was installed.
    pub closed spec fn spec_sink(&self) -> Option<InstalledSink> {
        self.sink
    }

    /// Whether a sink has been installed.
    pub open spec fn spec_installed(&self) -> bool {
        self.spec_sink() is Some
    }

    /// A registry with no sink installed.
    pub fn new() -> (r: SinkRegistry)
        ensures
            !r.spec_installed(),
    {
        SinkRegistry { sink: None }
    }

    /// Install the active sink. Succeeds at most once per registry:
    /// a second call is rejected and leaves the installed sink in place.
    pub fn install(&mut self, sink: InstalledSink) -> (r: Result<(), InstallError>)
        ensures
            old(self).spec_installed() ==> (r == Result::<(), InstallError>::Err(
                InstallError::AlreadyInstalled,
            ) && final(self).spec_sink() == old(self).spec_sink()),
            !old(self).spec_installed() ==> (r is Ok && final(self).spec_sink() == Some(sink)),
    {
        if self.sink.is_some() {
            Err(InstallError::AlreadyInstalled)
        } else {
            self.sink = Some(sink);
            Ok(())
        }
    }

    /// The current sink: absent before `install`, and afterwards the one
    /// installed value in every call.
    pub fn current(&self) -> (r: Option<&InstalledSink>)
        ensures
            (match r {
                Some(s) => self.spec_sink() == Some(*s),
                None => self.spec_sink() is None,
            }),
    {
        self.sink.as_ref()
    }

    /// The line this registry would enqueue for one counter event.
    pub fn render_sample(&self, name: &str, value: usize, labels: &Vec<Label>, now: u128) -> (r:
        Option<String>)
        ensures
            (r matches Some(s) ==> spec_sample(
                *self,
                name@,
                value as nat,
                labels_view(labels@),
                now as nat,
            ) == Some(s@)),
            (r is None <==> spec_sample(
                *self,
                name@,
                value as nat,
                labels_view(labels@),
                now as nat,
            ) is None),
    {
        proof {
            reveal_strlit("count");
            assert(("count")@ =~= spec_count_key());
        }
        match self.current() {
            None => None,
            Some(InstalledSink::Noop(_)) => None,
            Some(InstalledSink::Influx(s)) => Some(
                s.format_metric(name, value, "count", labels, now),
            ),
            Some(InstalledSink::Graphite(s)) => Some(s.format_metric(name, value, now)),
        }
    }
}

/// Before any sink is installed, no counter event produces formatted
/// output: emission is a complete no-op.
pub proof fn lemma_uninstalled_produces_nothing(
    reg: SinkRegistry,
    name: Seq<char>,
    value: nat,
    labels: Seq<(Seq<char>, Seq<char>)>,
    now: nat,
)
    requires
        !reg.spec_installed(),
    ensures
        spec_sample(reg, name, value, labels, now) is None,
{
}

/// The Graphite format has no label syntax: with a Graphite sink
/// installed, two emissions that differ only in their labels produce the
/// same line, so supplied label text never reaches the output.
pub proof fn lemma_graphite_ignores_labels(
    reg: SinkRegistry,
    name: Seq<char>,
    value: nat,
    labels1: Seq<(Seq<char>, Seq<char>)>,
    labels2: Seq<(Seq<char>, Seq<char>)>,
    now: nat,
)
    requires
        reg.spec_sink() matches Some(InstalledSink::Graphite(_)),
    ensures
        spec_sample(reg, name, value, labels1, now) == spec_sample(reg, name, value, labels2, now),
{
}

/// Build the sink chosen by `config`, bind it to a fresh unbounded queue,
/// and install it; hands back the consuming end for the exporter to
/// drain. Rejected without effect when a sink is already installed.
pub fn init_sink(reg: &mut SinkRegistry, config: &MetricsConfig) -> (r: Result<
    crossbeam_channel::Receiver<String>,
    InstallError,
>)
    ensures
        old(reg).spec_installed() ==> (r is Err && final(reg).spec_sink() == old(
            reg,
        ).spec_sink()),
        !old(reg).spec_installed() ==> (r is Ok && (match final(reg).spec_sink() {
            Some(s) => sink_matches_config(s, *config),
            None => false,
        })),
{
    let prefix = config.prefix_or_default();
    let (tx, rx) = new_channel();
    let sink = match config.sink_type {
        SinkType::Influx => InstalledSink::Influx(InfluxSink::new(prefix.as_str(), tx)),
        SinkType::Graphite => InstalledSink::Graphite(GraphiteSink::new(prefix.as_str(), tx)),
    };
    match reg.install(sink) {
        Ok(()) => Ok(rx),
        Err(e) => Err(e),
    }
}

} // verus!

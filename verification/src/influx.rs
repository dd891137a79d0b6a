//! A sink that converts metrics to InfluxDB line-protocol format.
use crate::channel::send_string;
use crate::clock::epoch_nanos;
use crate::sink::Sink;
use crate::strfmt::{dec, join_with, usize_to_dec, u128_to_dec};
use crate::{labels_view, render_labels, spec_kv_pairs, Label};
use vstd::prelude::*;
use vstd::string::StringExecFns;

verus! {

/// One InfluxDB line-protocol sample:
/// `<prefix><name>[,<k1>=<v1>,...] <value_key>=<value> <unix_nanos>`,
/// with labels in emission order and the label block present exactly when
/// labels were given.
pub open spec fn spec_influx_line(
    prefix: Seq<char>,
    name: Seq<char>,
    labels: Seq<(Seq<char>, Seq<char>)>,
    value_key: Seq<char>,
    value: nat,
    now: nat,
) -> Seq<char> {
    if labels.len() == 0 {
        prefix + name + seq![' '] + value_key + seq!['='] + dec(value) + seq![' '] + dec(now)
    } else {
        prefix + name + seq![','] + join_with(spec_kv_pairs(labels), ',') + seq![' '] + value_key
            + seq!['='] + dec(value) + seq![' '] + dec(now)
    }
}

/// A sink that renders counter events as InfluxDB line protocol and
/// enqueues them for transport.
pub struct InfluxSink {
    prefix: String,
    tx: crossbeam_channel::Sender<String>,
}

impl InfluxSink {
    /// The static text prepended to every sample.
    pub closed spec fn spec_prefix(&self) -> Seq<char> {
        self.prefix@
    }

    pub fn new(prefix: &str, tx: crossbeam_channel::Sender<String>) -> (r: InfluxSink)
        ensures
            r.spec_prefix() == prefix@,
    {
        InfluxSink { prefix: String::from_str(prefix), tx }
    }

    pub(crate) fn format_metric(
        &self,
        key: &str,
        value: usize,
        value_key: &str,
        labels: &Vec<Label>,
        now: u128,
    ) -> (r: String)
        ensures
            r@ == spec_influx_line(
                self.spec_prefix(),
                key@,
                labels_view(labels@),
                value_key@,
                value as nat,
                now as nat,
            ),
    {
        proof {
            reveal_strlit(" ");
            reveal_strlit("=");
            reveal_strlit(",");
            assert((" ")@ =~= seq![' ']);
            assert(("=")@ =~= seq!['=']);
            assert((",")@ =~= seq![',']);
        }
        let mut s = String::from_str(self.prefix.as_str());
        s.append(key);
        if labels.len() > 0 {
            s.append(",");
            let pairs = render_labels(labels);
            let joined = crate::strfmt::join_with_sep(&pairs, ",");
            s.append(joined.as_str());
            proof {
                assert(s@ =~= self.spec_prefix() + key@ + seq![','] + join_with(
                    spec_kv_pairs(labels_view(labels@)),
                    ',',
                ));
            }
        }
        s.append(" ");
        s.append(value_key);
        s.append("=");
        let v = usize_to_dec(value);
        s.append(v.as_str());
        s.append(" ");
        let t = u128_to_dec(now);
        s.append(t.as_str());
        proof {
            assert(s@ =~= spec_influx_line(
                self.spec_prefix(),
                key@,
                labels_view(labels@),
                value_key@,
                value as nat,
                now as nat,
            ));
        }
        s
    }
}

impl Sink for InfluxSink {
    fn count(&self, key: &str, val: usize) {
        self.count_with_labels(key, val, &vec![]);
    }

    fn count_with_labels(&self, key: &str, val: usize, labels: &Vec<Label>) {
        let now = epoch_nanos();
        let m = self.format_metric(key, val, "count", labels, now);
        let _ = send_string(&self.tx, m);
    }
}

} // verus!

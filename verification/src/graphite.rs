//! A sink that converts metrics to Graphite plaintext format.
use crate::channel::send_string;
use crate::clock::epoch_nanos;
use crate::sink::Sink;
use crate::strfmt::{dec, usize_to_dec, u128_to_dec};
use crate::Label;
use vstd::prelude::*;
use vstd::string::StringExecFns;

verus! {

/// One Graphite plaintext sample: `<prefix><name> <value> <unix_nanos>`.
/// Labels have no place in this format and never appear.
pub open spec fn spec_graphite_line(
    prefix: Seq<char>,
    name: Seq<char>,
    value: nat,
    now: nat,
) -> Seq<char> {
    prefix + name + seq![' '] + dec(value) + seq![' '] + dec(now)
}

/// A sink that renders counter events as Graphite plaintext and enqueues
/// them for transport.
pub struct GraphiteSink {
    prefix: String,
    tx: crossbeam_channel::Sender<String>,
}

impl GraphiteSink {
    /// The static text prepended to every sample.
    pub closed spec fn spec_prefix(&self) -> Seq<char> {
        self.prefix@
    }

    pub fn new(prefix: &str, tx: crossbeam_channel::Sender<String>) -> (r: GraphiteSink)
        ensures
            r.spec_prefix() == prefix@,
    {
        GraphiteSink { prefix: String::from_str(prefix), tx }
    }

    pub(crate) fn format_metric(&self, key: &str, value: usize, now: u128) -> (r: String)
        ensures
            r@ == spec_graphite_line(self.spec_prefix(), key@, value as nat, now as nat),
    {
        proof {
            reveal_strlit(" ");
            assert((" ")@ =~= seq![' ']);
        }
        let mut s = String::from_str(self.prefix.as_str());
        s.append(key);
        s.append(" ");
        let v = usize_to_dec(value);
        s.append(v.as_str());
        s.append(" ");
        let t = u128_to_dec(now);
        s.append(t.as_str());
        proof {
            assert(s@ =~= spec_graphite_line(self.spec_prefix(), key@, value as nat, now as nat));
        }
        s
    }
}

impl Sink for GraphiteSink {
    fn count(&self, key: &str, val: usize) {
        self.count_with_labels(key, val, &vec![]);
    }

    fn count_with_labels(&self, key: &str, val: usize, _labels: &Vec<Label>) {
        let now = epoch_nanos();
        let m = self.format_metric(key, val, now);
        let _ = send_string(&self.tx, m);
    }
}

} // verus!

//! Line formatting for the observer backends. Observers place the
//! measurement name first and carry their prefix as a tag-set (Influx) or
//! a dotted path head (Graphite); histograms drain into one line per
//! metric with a comma-joined quantile list (Influx) or one line per
//! quantile (Graphite).
use crate::graphite::spec_graphite_line;
use crate::influx::spec_influx_line;
use crate::strfmt::{dec, join_with, join_with_sep, spec_kv_pair, u128_to_dec, u64_to_dec};
use crate::{labels_view, render_labels, spec_kv_pairs, Label};
use vstd::prelude::*;
use vstd::string::StringExecFns;

verus! {

/// One Influx observer sample:
/// `<name><prefix>[,<k1>=<v1>,...] <value_key>=<value> <unix_nanos>` -
/// the same grammar as the sink's line, with the measurement name ahead
/// of the prefix.
pub open spec fn spec_influx_observer_line(
    name: Seq<char>,
    prefix: Seq<char>,
    labels: Seq<(Seq<char>, Seq<char>)>,
    value_key: Seq<char>,
    value: nat,
    now: nat,
) -> Seq<char> {
    spec_influx_line(name, prefix, labels, value_key, value, now)
}

/// Render one Influx observer sample.
pub fn influx_observer_line(
    name: &str,
    prefix: &str,
    value_key: &str,
    value: u64,
    labels: &Vec<Label>,
    now: u128,
) -> (r: String)
    ensures
        r@ == spec_influx_observer_line(
            name@,
            prefix@,
            labels_view(labels@),
            value_key@,
            value as nat,
            now as nat,
        ),
{
    proof {
        reveal_strlit(" ");
        reveal_strlit("=");
        reveal_strlit(",");
        assert((" ")@ =~= seq![' ']);
        assert(("=")@ =~= seq!['=']);
        assert((",")@ =~= seq![',']);
    }
    let mut s = String::from_str(name);
    s.append(prefix);
    if labels.len() > 0 {
        s.append(",");
        let pairs = render_labels(labels);
        let joined = join_with_sep(&pairs, ",");
        s.append(joined.as_str());
        proof {
            assert(s@ =~= name@ + prefix@ + seq![','] + join_with(
                spec_kv_pairs(labels_view(labels@)),
                ',',
            ));
        }
    }
    s.append(" ");
    s.append(value_key);
    s.append("=");
    let v = u64_to_dec(value);
    s.append(v.as_str());
    s.append(" ");
    let t = u128_to_dec(now);
    s.append(t.as_str());
    proof {
        assert(s@ =~= spec_influx_observer_line(
            name@,
            prefix@,
            labels_view(labels@),
            value_key@,
            value as nat,
            now as nat,
        ));
    }
    s
}

/// Render one Graphite observer sample:
/// `<prefix><name> <value> <unix_nanos>`.
pub fn graphite_observer_line(prefix: &str, name: &str, value: u64, now: u128) -> (r: String)
    ensures
        r@ == spec_graphite_line(prefix@, name@, value as nat, now as nat),
{
    proof {
        reveal_strlit(" ");
        assert((" ")@ =~= seq![' ']);
    }
    let mut s = String::from_str(prefix);
    s.append(name);
    s.append(" ");
    let v = u64_to_dec(value);
    s.append(v.as_str());
    s.append(" ");
    let t = u128_to_dec(now);
    s.append(t.as_str());
    proof {
        assert(s@ =~= spec_graphite_line(prefix@, name@, value as nat, now as nat));
    }
    s
}

/// One drained Influx histogram line:
/// `<name><prefix>[,<labels_csv>] <values_csv> <unix_nanos>`, the label
/// block present exactly when the metric carried labels.
pub open spec fn spec_influx_hist_line(
    name: Seq<char>,
    prefix: Seq<char>,
    labels_csv: Seq<char>,
    values_csv: Seq<char>,
    now: nat,
) -> Seq<char> {
    if labels_csv.len() == 0 {
        name + prefix + seq![' '] + values_csv + seq![' '] + dec(now)
    } else {
        name + prefix + seq![','] + labels_csv + seq![' '] + values_csv + seq![' '] + dec(now)
    }
}

/// Render one drained Influx histogram line.
pub fn influx_hist_line(
    name: &str,
    prefix: &str,
    labels_csv: &str,
    values_csv: &str,
    now: u128,
) -> (r: String)
    ensures
        r@ == spec_influx_hist_line(name@, prefix@, labels_csv@, values_csv@, now as nat),
{
    proof {
        reveal_strlit(" ");
        reveal_strlit(",");
        assert((" ")@ =~= seq![' ']);
        assert((",")@ =~= seq![',']);
        crate::strfmt::lemma_byte_len_zero(labels_csv@);
    }
    let mut s = String::from_str(name);
    s.append(prefix);
    if crate::strfmt::byte_count(labels_csv) > 0 {
        s.append(",");
        s.append(labels_csv);
    }
    s.append(" ");
    s.append(values_csv);
    s.append(" ");
    let t = u128_to_dec(now);
    s.append(t.as_str());
    proof {
        if labels_csv@.len() == 0 {
            assert(labels_csv@ =~= Seq::<char>::empty());
        }
        assert(s@ =~= spec_influx_hist_line(name@, prefix@, labels_csv@, values_csv@, now as nat));
    }
    s
}

/// One drained Graphite histogram line:
/// `<prefix><name>.<quantile_sample> <unix_nanos>`.
pub fn graphite_hist_line(prefix: &str, name: &str, hist_value: &str, now: u128) -> (r: String)
    ensures
        r@ == prefix@ + name@ + seq!['.'] + hist_value@ + seq![' '] + dec(now as nat),
{
    proof {
        reveal_strlit(" ");
        reveal_strlit(".");
        assert((" ")@ =~= seq![' ']);
        assert((".")@ =~= seq!['.']);
    }
    let mut s = String::from_str(prefix);
    s.append(name);
    s.append(".");
    s.append(hist_value);
    s.append(" ");
    let t = u128_to_dec(now);
    s.append(t.as_str());
    proof {
        assert(s@ =~= prefix@ + name@ + seq!['.'] + hist_value@ + seq![' '] + dec(now as nat));
    }
    s
}

/// One quantile of a drained Influx histogram: `<label>=<value>`.
pub fn quantile_field(label: &str, value: u64) -> (r: String)
    ensures
        r@ == spec_kv_pair(label@, dec(value as nat)),
{
    proof {
        reveal_strlit("=");
        assert(("=")@ =~= seq!['=']);
    }
    let mut s = String::from_str(label);
    s.append("=");
    let v = u64_to_dec(value);
    s.append(v.as_str());
    proof {
        assert(s@ =~= spec_kv_pair(label@, dec(value as nat)));
    }
    s
}

/// One quantile of a drained Graphite histogram: `<label> <value>`.
pub fn quantile_sample(label: &str, value: u64) -> (r: String)
    ensures
        r@ == label@ + seq![' '] + dec(value as nat),
{
    proof {
        reveal_strlit(" ");
        assert((" ")@ =~= seq![' ']);
    }
    let mut s = String::from_str(label);
    s.append(" ");
    let v = u64_to_dec(value);
    s.append(v.as_str());
    proof {
        assert(s@ =~= label@ + seq![' '] + dec(value as nat));
    }
    s
}

/// The comma-joined `key=value` text of a metric's labels.
pub fn format_labels(labels: &Vec<Label>) -> (r: String)
    ensures
        r@ == join_with(spec_kv_pairs(labels_view(labels@)), ','),
{
    proof {
        reveal_strlit(",");
        assert((",")@[0] == ',');
    }
    let pairs = render_labels(labels);
    join_with_sep(&pairs, ",")
}

/// The observer prefix that an Influx builder derives from its
/// configured tag-set: empty stays empty, anything else gains a leading
/// comma so that it extends the tag list after the measurement name.
pub fn influx_observer_prefix(prefix: &str) -> (r: String)
    ensures
        prefix@.len() == 0 ==> r@ == Seq::<char>::empty(),
        prefix@.len() > 0 ==> r@ == seq![','] + prefix@,
{
    proof {
        reveal_strlit(",");
        assert((",")@ =~= seq![',']);
        crate::strfmt::lemma_byte_len_zero(prefix@);
    }
    if crate::strfmt::byte_count(prefix) == 0 {
        String::new()
    } else {
        let mut s = String::from_str(",");
        s.append(prefix);
        s
    }
}

/// The tag-set prefix `,app=<app_name>,cluster=<cluster_name>` that the
/// application/cluster flavour of the Influx observer stamps onto every
/// sample.
pub open spec fn spec_app_cluster_prefix(app_name: Seq<char>, cluster_name: Seq<char>) -> Seq<
    char,
> {
    seq![',', 'a', 'p', 'p', '='] + app_name + seq![',', 'c', 'l', 'u', 's', 't', 'e', 'r', '=']
        + cluster_name
}

/// Render the application/cluster tag-set prefix.
pub fn app_cluster_prefix(app_name: &str, cluster_name: &str) -> (r: String)
    ensures
        r@ == spec_app_cluster_prefix(app_name@, cluster_name@),
{
    proof {
        reveal_strlit(",app=");
        reveal_strlit(",cluster=");
        assert((",app=")@ =~= seq![',', 'a', 'p', 'p', '=']);
        assert((",cluster=")@ =~= seq![',', 'c', 'l', 'u', 's', 't', 'e', 'r', '=']);
    }
    let mut s = String::from_str(",app=");
    s.append(app_name);
    s.append(",cluster=");
    s.append(cluster_name);
    proof {
        assert(s@ =~= spec_app_cluster_prefix(app_name@, cluster_name@));
    }
    s
}

/// The observer prefix that a Graphite builder derives from its
/// configured path head: empty stays empty, anything else gains a
/// trailing dot.
pub fn graphite_observer_prefix(prefix: &str) -> (r: String)
    ensures
        prefix@.len() == 0 ==> r@ == Seq::<char>::empty(),
        prefix@.len() > 0 ==> r@ == prefix@ + seq!['.'],
{
    proof {
        reveal_strlit(".");
        assert((".")@ =~= seq!['.']);
        crate::strfmt::lemma_byte_len_zero(prefix@);
    }
    if crate::strfmt::byte_count(prefix) == 0 {
        String::new()
    } else {
        let mut s = String::from_str(prefix);
        s.append(".");
        s
    }
}

/// Join the accumulated metric lines with newlines and clear the buffer:
/// the drain step of both observers.
pub fn drain_metrics(metrics: &mut Vec<String>) -> (r: String)
    ensures
        r@ == join_with(old(metrics).deep_view(), '\n'),
        final(metrics)@.len() == 0,
{
    proof {
        reveal_strlit("\n");
        assert(("\n")@[0] == '\n');
    }
    let r = join_with_sep(metrics, "\n");
    *metrics = Vec::new();
    r
}

} // verus!

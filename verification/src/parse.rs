//! Re-parsing of emitted wire lines. The (name, value) pair of a counter
//! sample is recoverable from its rendered line, timestamp ignored, so
//! collectors see exactly the values that were emitted.
use crate::graphite::spec_graphite_line;
use crate::influx::spec_influx_line;
use crate::strfmt::{dec, dec_digit, join_with, spec_kv_pair};
use crate::spec_kv_pairs;
use vstd::prelude::*;

verus! {

/// Index of the first occurrence of `c` in `s`, or -1 when absent.
pub open spec fn find_first(s: Seq<char>, c: char) -> int
    decreases s.len(),
{
    if s.len() == 0 {
        -1
    } else if s[0] == c {
        0
    } else {
        let rest = find_first(s.drop_first(), c);
        if rest == -1 {
            -1
        } else {
            rest + 1
        }
    }
}

/// The numeric value of one decimal digit character; 10 for any other
/// character.
pub open spec fn digit_val(ch: char) -> nat {
    if ch == '0' {
        0
    } else if ch == '1' {
        1
    } else if ch == '2' {
        2
    } else if ch == '3' {
        3
    } else if ch == '4' {
        4
    } else if ch == '5' {
        5
    } else if ch == '6' {
        6
    } else if ch == '7' {
        7
    } else if ch == '8' {
        8
    } else if ch == '9' {
        9
    } else {
        10
    }
}

/// A non-empty, all-digit sequence.
pub open spec fn is_digits(s: Seq<char>) -> bool {
    s.len() > 0 && (forall|i: int| 0 <= i < s.len() ==> digit_val(#[trigger] s[i]) < 10)
}

/// The value of a decimal digit string, most significant digit first.
pub open spec fn dec_val(s: Seq<char>) -> nat
    decreases s.len(),
{
    if s.len() == 0 {
        0
    } else {
        dec_val(s.drop_last()) * 10 + digit_val(s.last())
    }
}

/// Rendering a number yields digits, and reading them back yields the
/// number.
pub proof fn lemma_dec_val_of_dec(n: nat)
    ensures
        is_digits(dec(n)),
        dec_val(dec(n)) == n,
    decreases n,
{
    if n < 10 {
        assert(dec(n) =~= seq![dec_digit(n)]);
        assert(digit_val(dec_digit(n)) == n);
        assert(dec(n).drop_last() =~= Seq::<char>::empty());
        assert(dec_val(dec(n)) == dec_val(Seq::<char>::empty()) * 10 + digit_val(dec_digit(n)));
    } else {
        lemma_dec_val_of_dec(n / 10);
        let s = dec(n / 10).push(dec_digit(n % 10));
        assert(dec(n) == s);
        assert(s.drop_last() =~= dec(n / 10));
        assert(s.last() == dec_digit(n % 10));
        assert(digit_val(dec_digit(n % 10)) == n % 10);
        assert(dec_val(s) == dec_val(dec(n / 10)) * 10 + n % 10);
        assert(forall|i: int| 0 <= i < s.len() ==> digit_val(#[trigger] s[i]) < 10) by {
            assert forall|i: int| 0 <= i < s.len() implies digit_val(#[trigger] s[i]) < 10 by {
                if i < s.len() - 1 {
                    assert(s[i] == dec(n / 10)[i]);
                } else {
                    assert(s[i] == dec_digit(n % 10));
                }
            }
        }
    }
}

/// A digit string never contains a non-digit character.
pub proof fn lemma_digits_not_contains(s: Seq<char>, c: char)
    requires
        is_digits(s),
        digit_val(c) == 10,
    ensures
        !s.contains(c),
{
    if s.contains(c) {
        let i = choose|i: int| 0 <= i < s.len() && s[i] == c;
        assert(digit_val(s[i]) < 10);
    }
}

/// A concatenation holds a character only where one of its halves does.
pub proof fn lemma_concat_no_char(a: Seq<char>, b: Seq<char>, c: char)
    requires
        !a.contains(c),
        !b.contains(c),
    ensures
        !(a + b).contains(c),
{
    if (a + b).contains(c) {
        let i = choose|i: int| 0 <= i < (a + b).len() && (a + b)[i] == c;
        if i < a.len() {
            assert(a[i] == c);
            assert(a.contains(c));
        } else {
            assert(b[i - a.len()] == c);
            assert(b.contains(c));
        }
    }
}

/// A one-character sequence holds only its character.
pub proof fn lemma_singleton_no_char(sep: char, c: char)
    requires
        c != sep,
    ensures
        !seq![sep].contains(c),
{
    if seq![sep].contains(c) {
        let i = choose|i: int| 0 <= i < seq![sep].len() && seq![sep][i] == c;
        assert(seq![sep][0] == sep);
    }
}

/// A join holds no character that is neither the separator nor in any
/// part.
pub proof fn lemma_join_no_char(parts: Seq<Seq<char>>, sep: char, c: char)
    requires
        c != sep,
        forall|i: int| 0 <= i < parts.len() ==> !(#[trigger] parts[i]).contains(c),
    ensures
        !join_with(parts, sep).contains(c),
    decreases parts.len(),
{
    if parts.len() == 0 {
        assert(join_with(parts, sep).len() == 0);
    } else if parts.len() == 1 {
        assert(join_with(parts, sep) == parts[0]);
    } else {
        assert(forall|i: int|
            0 <= i < parts.drop_first().len() ==> !(#[trigger] parts.drop_first()[i]).contains(
                c,
            )) by {
            assert forall|i: int|
                0 <= i < parts.drop_first().len() implies !(#[trigger] parts.drop_first()[
            i]).contains(c) by {
                assert(parts.drop_first()[i] == parts[i + 1]);
            }
        }
        lemma_join_no_char(parts.drop_first(), sep, c);
        lemma_singleton_no_char(sep, c);
        lemma_concat_no_char(parts[0], seq![sep], c);
        lemma_concat_no_char(parts[0] + seq![sep], join_with(parts.drop_first(), sep), c);
    }
}

/// Without the character, `find_first` reports absence.
pub proof fn lemma_find_first_absent(s: Seq<char>, c: char)
    requires
        !s.contains(c),
    ensures
        find_first(s, c) == -1,
    decreases s.len(),
{
    if s.len() > 0 {
        assert(s[0] != c) by {
            if s[0] == c {
                assert(s.contains(c));
            }
        }
        assert(!s.drop_first().contains(c)) by {
            if s.drop_first().contains(c) {
                let i = choose|i: int|
                    0 <= i < s.drop_first().len() && s.drop_first()[i] == c;
                assert(s[i + 1] == c);
                assert(s.contains(c));
            }
        }
        lemma_find_first_absent(s.drop_first(), c);
    }
}

/// `find_first` lands exactly on the separator that follows a clean
/// head.
pub proof fn lemma_find_first_after(a: Seq<char>, c: char, b: Seq<char>)
    requires
        !a.contains(c),
    ensures
        find_first(a + seq![c] + b, c) == a.len(),
    decreases a.len(),
{
    let s = a + seq![c] + b;
    if a.len() == 0 {
        assert(s[0] == c);
    } else {
        assert(s[0] == a[0]);
        assert(a[0] != c) by {
            if a[0] == c {
                assert(a.contains(c));
            }
        }
        assert(!a.drop_first().contains(c)) by {
            if a.drop_first().contains(c) {
                let i = choose|i: int|
                    0 <= i < a.drop_first().len() && a.drop_first()[i] == c;
                assert(a[i + 1] == c);
                assert(a.contains(c));
            }
        }
        lemma_find_first_after(a.drop_first(), c, b);
        assert(s.drop_first() =~= a.drop_first() + seq![c] + b);
        assert(find_first(s.drop_first(), c) == a.len() - 1);
    }
}

/// The (name, value) a collector reads from a Graphite plaintext line,
/// timestamp ignored: the path before the first space and the digits
/// between the first and second spaces.
pub open spec fn parse_graphite_line(line: Seq<char>) -> Option<(Seq<char>, nat)> {
    let i = find_first(line, ' ');
    if i < 0 {
        None
    } else {
        let path = line.take(i);
        let rest = line.skip(i + 1);
        let j = find_first(rest, ' ');
        if j < 0 {
            None
        } else {
            let valtok = rest.take(j);
            if is_digits(valtok) {
                Some((path, dec_val(valtok)))
            } else {
                None
            }
        }
    }
}

/// Round trip for the Graphite formatter: for any sample whose prefix
/// and name hold no space, re-parsing the emitted line recovers the
/// prefixed name and the value exactly - no sample is distorted,
/// fabricated or lost in rendering.
pub proof fn lemma_graphite_round_trip(prefix: Seq<char>, name: Seq<char>, value: nat, now: nat)
    requires
        !prefix.contains(' '),
        !name.contains(' '),
    ensures
        parse_graphite_line(spec_graphite_line(prefix, name, value, now)) == Some(
            (prefix + name, value),
        ),
{
    let line = spec_graphite_line(prefix, name, value, now);
    let path = prefix + name;
    let tail = dec(value) + seq![' '] + dec(now);
    assert(line =~= path + seq![' '] + tail);
    lemma_concat_no_char(prefix, name, ' ');
    lemma_find_first_after(path, ' ', tail);
    assert(find_first(line, ' ') == path.len());
    assert(line.take(path.len() as int) =~= path);
    assert(line.skip(path.len() as int + 1) =~= tail);
    lemma_dec_val_of_dec(value);
    lemma_digits_not_contains(dec(value), ' ');
    lemma_find_first_after(dec(value), ' ', dec(now));
    assert(tail.take(dec(value).len() as int) =~= dec(value));
}

/// The (name, value) a collector reads from an Influx line-protocol
/// line, timestamp ignored: the series part before the first space, cut
/// at its first comma where tags follow; the value is the digits after
/// the `=` of the field token between the first and second spaces.
pub open spec fn parse_influx_line(line: Seq<char>) -> Option<(Seq<char>, nat)> {
    let i = find_first(line, ' ');
    if i < 0 {
        None
    } else {
        let series = line.take(i);
        let c = find_first(series, ',');
        let measurement = if c < 0 {
            series
        } else {
            series.take(c)
        };
        let rest = line.skip(i + 1);
        let j = find_first(rest, ' ');
        if j < 0 {
            None
        } else {
            let field = rest.take(j);
            let k = find_first(field, '=');
            if k < 0 {
                None
            } else {
                let valtok = field.skip(k + 1);
                if is_digits(valtok) {
                    Some((measurement, dec_val(valtok)))
                } else {
                    None
                }
            }
        }
    }
}

/// Round trip for the Influx formatter: for any sample whose prefix and
/// name hold neither space nor comma, whose value key holds neither
/// space nor `=`, and whose label keys and values hold no space,
/// re-parsing the emitted line recovers the prefixed name and the value
/// exactly - no sample is distorted, fabricated or lost in rendering.
pub proof fn lemma_influx_round_trip(
    prefix: Seq<char>,
    name: Seq<char>,
    labels: Seq<(Seq<char>, Seq<char>)>,
    value_key: Seq<char>,
    value: nat,
    now: nat,
)
    requires
        !prefix.contains(' '),
        !name.contains(' '),
        !prefix.contains(','),
        !name.contains(','),
        !value_key.contains(' '),
        !value_key.contains('='),
        forall|i: int|
            0 <= i < labels.len() ==> !(#[trigger] labels[i]).0.contains(' ') && !labels[
                i
            ].1.contains(' '),
    ensures
        parse_influx_line(spec_influx_line(prefix, name, labels, value_key, value, now)) == Some(
            (prefix + name, value),
        ),
{
    let line = spec_influx_line(prefix, name, labels, value_key, value, now);
    let measurement = prefix + name;
    let tail = value_key + seq!['='] + dec(value) + seq![' '] + dec(now);
    lemma_dec_val_of_dec(value);
    lemma_digits_not_contains(dec(value), ' ');
    lemma_concat_no_char(prefix, name, ' ');
    lemma_concat_no_char(prefix, name, ',');
    if labels.len() == 0 {
        let series = measurement;
        assert(line =~= series + seq![' '] + tail);
        lemma_find_first_after(series, ' ', tail);
        assert(find_first(line, ' ') == series.len());
        assert(line.take(series.len() as int) =~= series);
        assert(line.skip(series.len() as int + 1) =~= tail);
        lemma_find_first_absent(series, ',');
        lemma_influx_tail(value_key, value, now, tail);
    } else {
        let joined = join_with(spec_kv_pairs(labels), ',');
        let series = measurement + seq![','] + joined;
        assert(line =~= series + seq![' '] + tail);
        assert(forall|i: int|
            0 <= i < spec_kv_pairs(labels).len() ==> !(#[trigger] spec_kv_pairs(labels)[
        i]).contains(' ')) by {
            assert forall|i: int|
                0 <= i < spec_kv_pairs(labels).len() implies !(#[trigger] spec_kv_pairs(labels)[
            i]).contains(' ') by {
                assert(spec_kv_pairs(labels)[i] == spec_kv_pair(labels[i].0, labels[i].1));
                lemma_singleton_no_char('=', ' ');
                lemma_concat_no_char(labels[i].0, seq!['='], ' ');
                lemma_concat_no_char(labels[i].0 + seq!['='], labels[i].1, ' ');
            }
        }
        lemma_join_no_char(spec_kv_pairs(labels), ',', ' ');
        lemma_singleton_no_char(',', ' ');
        lemma_concat_no_char(measurement, seq![','], ' ');
        lemma_concat_no_char(measurement + seq![','], joined, ' ');
        lemma_find_first_after(series, ' ', tail);
        assert(find_first(line, ' ') == series.len());
        assert(line.take(series.len() as int) =~= series);
        assert(line.skip(series.len() as int + 1) =~= tail);
        assert(series =~= measurement + seq![','] + joined);
        lemma_find_first_after(measurement, ',', joined);
        assert(find_first(series, ',') == measurement.len());
        assert(series.take(measurement.len() as int) =~= measurement);
        lemma_influx_tail(value_key, value, now, tail);
    }
}

/// The field token of an Influx line parses back to its value: within
/// `<value_key>=<value> <unix_nanos>` the first space follows the value
/// digits, and the first `=` follows the value key.
proof fn lemma_influx_tail(value_key: Seq<char>, value: nat, now: nat, tail: Seq<char>)
    requires
        !value_key.contains(' '),
        !value_key.contains('='),
        tail == value_key + seq!['='] + dec(value) + seq![' '] + dec(now),
    ensures
        ({
            let j = find_first(tail, ' ');
            &&& j == value_key.len() + 1 + dec(value).len()
            &&& ({
                let field = tail.take(j);
                let k = find_first(field, '=');
                &&& k == value_key.len()
                &&& field.skip(k + 1) =~= dec(value)
                &&& is_digits(field.skip(k + 1))
                &&& dec_val(field.skip(k + 1)) == value
            })
        }),
{
    let field = value_key + seq!['='] + dec(value);
    lemma_dec_val_of_dec(value);
    lemma_digits_not_contains(dec(value), ' ');
    lemma_singleton_no_char('=', ' ');
    lemma_concat_no_char(value_key, seq!['='], ' ');
    lemma_concat_no_char(value_key + seq!['='], dec(value), ' ');
    assert(tail =~= field + seq![' '] + dec(now));
    lemma_find_first_after(field, ' ', dec(now));
    assert(find_first(tail, ' ') == field.len());
    assert(tail.take(field.len() as int) =~= field);
    lemma_find_first_after(value_key, '=', dec(value));
    assert(find_first(field, '=') == value_key.len());
    assert(field.skip(value_key.len() as int + 1) =~= dec(value));
}

} // verus!

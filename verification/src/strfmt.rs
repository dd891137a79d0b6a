//! String-building primitives shared by the wire formatters: decimal
//! rendering of unsigned integers and separator-joined concatenation.
use vstd::prelude::*;
use vstd::string::StringExecFns;
use vstd::utf8::{encode_scalar, encode_utf8};

verus! {

/// The character for one decimal digit.
pub open spec fn dec_digit(d: nat) -> char {
    if d == 0 {
        '0'
    } else if d == 1 {
        '1'
    } else if d == 2 {
        '2'
    } else if d == 3 {
        '3'
    } else if d == 4 {
        '4'
    } else if d == 5 {
        '5'
    } else if d == 6 {
        '6'
    } else if d == 7 {
        '7'
    } else if d == 8 {
        '8'
    } else {
        '9'
    }
}

/// The decimal rendering of `n`, most significant digit first, with no
/// leading zeros (a single `'0'` for zero itself).
pub open spec fn dec(n: nat) -> Seq<char>
    decreases n,
{
    if n < 10 {
        seq![dec_digit(n)]
    } else {
        dec(n / 10).push(dec_digit(n % 10))
    }
}

/// `parts` joined with a single `sep` character between consecutive parts.
pub open spec fn join_with(parts: Seq<Seq<char>>, sep: char) -> Seq<char>
    decreases parts.len(),
{
    if parts.len() == 0 {
        Seq::empty()
    } else if parts.len() == 1 {
        parts[0]
    } else {
        parts[0] + seq![sep] + join_with(parts.drop_first(), sep)
    }
}

/// The length in bytes of the UTF-8 encoding of `s`.
pub open spec fn byte_len(s: Seq<char>) -> nat {
    encode_utf8(s).len()
}

/// Total UTF-8 byte length of the parts themselves, separators not counted.
pub open spec fn sum_byte_lens(parts: Seq<Seq<char>>) -> nat
    decreases parts.len(),
{
    if parts.len() == 0 {
        0
    } else {
        byte_len(parts[0]) + sum_byte_lens(parts.drop_first())
    }
}

/// UTF-8 encoding distributes over concatenation.
pub proof fn lemma_encode_utf8_concat(a: Seq<char>, b: Seq<char>)
    ensures
        encode_utf8(a + b) == encode_utf8(a) + encode_utf8(b),
    decreases a.len(),
{
    if a.len() == 0 {
        assert(a + b =~= b);
        assert(encode_utf8(a) + encode_utf8(b) =~= encode_utf8(b));
    } else {
        lemma_encode_utf8_concat(a.drop_first(), b);
        assert((a + b)[0] == a[0]);
        assert((a + b).drop_first() =~= a.drop_first() + b);
        assert(encode_scalar(a[0] as u32) + (encode_utf8(a.drop_first()) + encode_utf8(b)) =~= (
        encode_scalar(a[0] as u32) + encode_utf8(a.drop_first())) + encode_utf8(b));
    }
}

/// Byte length adds up over concatenation.
pub proof fn lemma_byte_len_concat(a: Seq<char>, b: Seq<char>)
    ensures
        byte_len(a + b) == byte_len(a) + byte_len(b),
{
    lemma_encode_utf8_concat(a, b);
}

/// A one-character sequence below `0x80` encodes as a single byte.
pub proof fn lemma_ascii_char_byte_len(c: char)
    requires
        (c as u32) < 0x80,
    ensures
        byte_len(seq![c]) == 1,
{
    assert(seq![c].drop_first() =~= Seq::<char>::empty());
    assert(encode_utf8(seq![c]) =~= encode_scalar(c as u32) + encode_utf8(
        seq![c].drop_first(),
    ));
    assert(encode_scalar(c as u32) + Seq::<u8>::empty() =~= encode_scalar(c as u32));
}

/// A sequence encodes to UTF-8 bytes exactly when it has characters.
pub proof fn lemma_byte_len_zero(s: Seq<char>)
    ensures
        (byte_len(s) == 0) <==> (s.len() == 0),
{
    if s.len() > 0 {
        assert(encode_scalar(s[0] as u32).len() >= 1);
    }
}

/// Appending one part extends the join by one separator and the part.
pub proof fn lemma_join_push(parts: Seq<Seq<char>>, x: Seq<char>, sep: char)
    ensures
        join_with(parts.push(x), sep) == if parts.len() == 0 {
            x
        } else {
            join_with(parts, sep) + seq![sep] + x
        },
    decreases parts.len(),
{
    if parts.len() == 0 {
        assert(parts.push(x) =~= seq![x]);
        assert(join_with(seq![x], sep) == x);
    } else if parts.len() == 1 {
        assert(parts.push(x).drop_first() =~= seq![x]);
        assert(parts.push(x)[0] == parts[0]);
        assert(join_with(seq![x], sep) == x);
        assert(join_with(parts.push(x), sep) == parts[0] + seq![sep] + x);
        assert(join_with(parts, sep) == parts[0]);
    } else {
        assert(parts.push(x)[0] == parts[0]);
        lemma_join_push(parts.drop_first(), x, sep);
        assert(parts.push(x).drop_first() =~= parts.drop_first().push(x));
        assert(join_with(parts.push(x), sep) == parts[0] + seq![sep] + (join_with(
            parts.drop_first(),
            sep,
        ) + seq![sep] + x));
        assert(parts[0] + seq![sep] + (join_with(parts.drop_first(), sep) + seq![sep] + x) =~= (
        parts[0] + seq![sep] + join_with(parts.drop_first(), sep)) + seq![sep] + x);
    }
}

/// Appending one part adds its byte length to the running total.
pub proof fn lemma_sum_byte_lens_push(parts: Seq<Seq<char>>, x: Seq<char>)
    ensures
        sum_byte_lens(parts.push(x)) == sum_byte_lens(parts) + byte_len(x),
    decreases parts.len(),
{
    if parts.len() == 0 {
        assert(parts.push(x) =~= seq![x]);
        assert(parts.push(x)[0] == x);
        assert(parts.push(x).drop_first() =~= Seq::<Seq<char>>::empty());
        assert(sum_byte_lens(Seq::<Seq<char>>::empty()) == 0);
    } else {
        lemma_sum_byte_lens_push(parts.drop_first(), x);
        assert(parts.push(x)[0] == parts[0]);
        assert(parts.push(x).drop_first() =~= parts.drop_first().push(x));
    }
}

/// A join is as many bytes as its parts plus one single-byte separator
/// between each pair of consecutive parts.
pub proof fn lemma_join_byte_len(parts: Seq<Seq<char>>, sep: char)
    requires
        parts.len() > 0,
        (sep as u32) < 0x80,
    ensures
        byte_len(join_with(parts, sep)) == sum_byte_lens(parts) + parts.len() - 1,
    decreases parts.len(),
{
    lemma_ascii_char_byte_len(sep);
    if parts.len() == 1 {
        assert(sum_byte_lens(parts.drop_first()) == 0);
    } else {
        lemma_join_byte_len(parts.drop_first(), sep);
        lemma_byte_len_concat(parts[0] + seq![sep], join_with(parts.drop_first(), sep));
        lemma_byte_len_concat(parts[0], seq![sep]);
    }
}

/// Relies on str::len: the length of a string slice is the byte length
/// of its UTF-8 contents - the very bytes that `byte_len` counts - and it
/// is a `usize`, so that length cannot exceed `usize::MAX`.
#[verifier::external_body]
pub fn byte_count(s: &str) -> (n: usize)
    ensures
        n as nat == byte_len(s@),
{
    s.len()
}

/// One decimal digit as a string slice.
fn digit_str(d: u128) -> (r: &'static str)
    requires
        d < 10,
    ensures
        r@ == seq![dec_digit(d as nat)],
{
    proof {
        reveal_strlit("0");
        reveal_strlit("1");
        reveal_strlit("2");
        reveal_strlit("3");
        reveal_strlit("4");
        reveal_strlit("5");
        reveal_strlit("6");
        reveal_strlit("7");
        reveal_strlit("8");
        reveal_strlit("9");
    }
    match d {
        0 => "0",
        1 => "1",
        2 => "2",
        3 => "3",
        4 => "4",
        5 => "5",
        6 => "6",
        7 => "7",
        8 => "8",
        _ => "9",
    }
}

/// Render `n` in decimal.
pub fn u128_to_dec(n: u128) -> (s: String)
    ensures
        s@ == dec(n as nat),
    decreases n,
{
    if n < 10 {
        String::from_str(digit_str(n))
    } else {
        let mut s = u128_to_dec(n / 10);
        s.append(digit_str(n % 10));
        proof {
            assert(s@ =~= dec((n / 10) as nat).push(dec_digit((n % 10) as nat)));
        }
        s
    }
}

/// Render `n` in decimal.
pub fn usize_to_dec(n: usize) -> (s: String)
    ensures
        s@ == dec(n as nat),
{
    u128_to_dec(n as u128)
}

/// Render `n` in decimal.
pub fn u64_to_dec(n: u64) -> (s: String)
    ensures
        s@ == dec(n as nat),
{
    u128_to_dec(n as u128)
}

/// The rendered `key=value` text of one label or field.
pub open spec fn spec_kv_pair(k: Seq<char>, v: Seq<char>) -> Seq<char> {
    k + seq!['='] + v
}

/// Render one `key=value` pair.
pub fn kv_pair(k: &str, v: &str) -> (r: String)
    ensures
        r@ == spec_kv_pair(k@, v@),
{
    let mut s = String::from_str(k);
    s.append("=");
    s.append(v);
    proof {
        reveal_strlit("=");
        assert(("=")@ =~= seq!['=']);
        assert(s@ =~= spec_kv_pair(k@, v@));
    }
    s
}

/// Join the strings of `parts` with the single-character separator `sep`.
pub fn join_with_sep(parts: &Vec<String>, sep: &str) -> (r: String)
    requires
        sep@.len() == 1,
    ensures
        r@ == join_with(parts.deep_view(), sep@[0]),
{
    let mut r = String::new();
    let mut i: usize = 0;
    while i < parts.len()
        invariant
            i <= parts.len(),
            sep@.len() == 1,
            r@ == join_with(parts.deep_view().take(i as int), sep@[0]),
        decreases parts.len() - i,
    {
        if i > 0 {
            r.append(sep);
        }
        r.append(parts[i].as_str());
        proof {
            let pv = parts.deep_view();
            lemma_join_push(pv.take(i as int), pv[i as int], sep@[0]);
            assert(pv.take(i + 1) =~= pv.take(i as int).push(pv[i as int]));
            assert(seq![sep@[0]] =~= sep@);
            if i > 0 {
                assert(r@ =~= join_with(pv.take(i as int), sep@[0]) + sep@ + pv[i as int]);
            }
        }
        i += 1;
    }
    proof {
        assert(parts.deep_view().take(parts.len() as int) =~= parts.deep_view());
    }
    r
}

} // verus!

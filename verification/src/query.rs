//! Query-string form of a builder's fields.
//!
//! GET operations carry their optional parameters as URL query parameters:
//! `key=value` pairs joined with `&`, in the order the fields were set, with
//! unset fields absent. String values are percent-encoded byte for byte over
//! their UTF-8 form; unreserved characters stand for themselves.

use vstd::prelude::*;
use vstd::utf8::encode_scalar;

use crate::fields::Fields;
use crate::json::{digit_char, enc_int, jview, write_int_chars, Json, JsonVal};

verus! {

/// Characters that stand for themselves in a query string.
pub open spec fn is_unreserved(c: char) -> bool {
    ('A' <= c && c <= 'Z') || ('a' <= c && c <= 'z') || ('0' <= c && c <= '9') || c == '-' || c
        == '_' || c == '.' || c == '~'
}

/// The hexadecimal digit `d` as an upper-case character, for `0 <= d <= 15`.
pub open spec fn hex_upper(d: int) -> char {
    if d < 10 {
        digit_char(d)
    } else {
        ((55 + d) as u8) as char
    }
}

/// One byte as a percent escape.
pub open spec fn pct_byte(b: u8) -> Seq<char> {
    seq!['%', hex_upper(b as int / 16), hex_upper(b as int % 16)]
}

/// A byte sequence as consecutive percent escapes.
pub open spec fn pct_bytes(bs: Seq<u8>) -> Seq<char>
    decreases bs.len(),
{
    if bs.len() == 0 {
        Seq::empty()
    } else {
        pct_byte(bs[0]) + pct_bytes(bs.drop_first())
    }
}

/// One character in a query value: itself when unreserved, else the percent
/// escapes of its UTF-8 bytes.
pub open spec fn pct_char(c: char) -> Seq<char> {
    if is_unreserved(c) {
        seq![c]
    } else {
        pct_bytes(encode_scalar(c as u32))
    }
}

/// A string percent-encoded character by character.
pub open spec fn pct_str(s: Seq<char>) -> Seq<char>
    decreases s.len(),
{
    if s.len() == 0 {
        Seq::empty()
    } else {
        pct_char(s[0]) + pct_str(s.drop_first())
    }
}

/// The query form of one field value. Only strings, booleans and integers
/// appear as query parameters.
pub open spec fn qval(v: JsonVal) -> Seq<char> {
    match v {
        JsonVal::Null => Seq::empty(),
        JsonVal::Bool(b) => if b {
            seq!['t', 'r', 'u', 'e']
        } else {
            seq!['f', 'a', 'l', 's', 'e']
        },
        JsonVal::Int(i) => enc_int(i),
        JsonVal::Str(s) => pct_str(s),
        JsonVal::Arr(_) => Seq::empty(),
        JsonVal::Obj(_) => Seq::empty(),
    }
}

/// The query string of a field sequence: `key=value` pairs joined with `&`,
/// in order, nothing for fields that are not there.
pub open spec fn query_of(s: Seq<(Seq<char>, JsonVal)>) -> Seq<char>
    decreases s.len(),
{
    if s.len() == 0 {
        Seq::empty()
    } else if s.len() == 1 {
        s[0].0 + seq!['='] + qval(s[0].1)
    } else {
        s[0].0 + seq!['='] + qval(s[0].1) + seq!['&'] + query_of(s.drop_first())
    }
}

/// Appending one more pair to a query string.
pub proof fn lemma_query_push(s: Seq<(Seq<char>, JsonVal)>, k: Seq<char>, v: JsonVal)
    ensures
        query_of(s.push((k, v))) == if s.len() == 0 {
            k + seq!['='] + qval(v)
        } else {
            query_of(s) + seq!['&'] + (k + seq!['='] + qval(v))
        },
    decreases s.len(),
{
    if s.len() == 0 {
        assert(s.push((k, v))[0] == (k, v));
        assert(s.push((k, v)).len() == 1);
    } else {
        lemma_query_push(s.drop_first(), k, v);
        assert(s.push((k, v)).drop_first() =~= s.drop_first().push((k, v)));
        assert(query_of(s.push((k, v))) =~= query_of(s) + seq!['&'] + (k + seq!['='] + qval(v)));
    }
}

/// Appending one more character to a percent-encoded string.
proof fn lemma_pct_str_push(s: Seq<char>, c: char)
    ensures
        pct_str(s.push(c)) == pct_str(s) + pct_char(c),
    decreases s.len(),
{
    if s.len() == 0 {
        assert(s.push(c)[0] == c);
        assert(s.push(c).drop_first() =~= Seq::<char>::empty());
        assert(pct_str(Seq::<char>::empty()) == Seq::<char>::empty());
        assert(pct_str(s.push(c)) =~= pct_char(c));
        assert(pct_str(s) + pct_char(c) =~= pct_char(c));
    } else {
        lemma_pct_str_push(s.drop_first(), c);
        assert(s.push(c).drop_first() =~= s.drop_first().push(c));
        assert(pct_str(s.push(c)) =~= pct_str(s) + pct_char(c));
    }
}

/// Appends the upper-case hexadecimal digit `d`.
fn push_hex_upper(d: u8, out: &mut Vec<char>)
    requires
        d < 16,
    ensures
        final(out)@ == old(out)@.push(hex_upper(d as int)),
{
    if d < 10 {
        out.push((48 + d) as char);
    } else {
        out.push((55 + d) as char);
    }
}

/// Appends the percent escape of one byte.
fn push_pct_byte(b: u8, out: &mut Vec<char>)
    ensures
        final(out)@ == old(out)@ + pct_byte(b),
{
    out.push('%');
    push_hex_upper(b / 16, out);
    push_hex_upper(b % 16, out);
    assert(out@ =~= old(out)@ + pct_byte(b));
}

/// The UTF-8 bytes of one character, exactly as the encoding specification
/// lays them out.
fn char_utf8(c: char) -> (r: Vec<u8>)
    ensures
        r@ == encode_scalar(c as u32),
{
    let u = c as u32;
    let mut out: Vec<u8> = Vec::new();
    if u <= 0x7F {
        out.push((u & 0x7F) as u8);
        assert(out@ =~= encode_scalar(c as u32));
    } else if u <= 0x7FF {
        out.push(0xC0u8 | ((u >> 6) & 0x1F) as u8);
        out.push(0x80u8 | (u & 0x3F) as u8);
        assert(out@ =~= encode_scalar(c as u32));
    } else if u <= 0xFFFF {
        out.push(0xE0u8 | ((u >> 12) & 0x0F) as u8);
        out.push(0x80u8 | ((u >> 6) & 0x3F) as u8);
        out.push(0x80u8 | (u & 0x3F) as u8);
        assert(out@ =~= encode_scalar(c as u32));
    } else {
        out.push(0xF0u8 | ((u >> 18) & 0x7) as u8);
        out.push(0x80u8 | ((u >> 12) & 0x3F) as u8);
        out.push(0x80u8 | ((u >> 6) & 0x3F) as u8);
        out.push(0x80u8 | (u & 0x3F) as u8);
        assert(out@ =~= encode_scalar(c as u32));
    }
    out
}

/// Whether `c` stands for itself in a query string.
fn is_unreserved_exec(c: char) -> (r: bool)
    ensures
        r == is_unreserved(c),
{
    let u = c as u32;
    (65 <= u && u <= 90) || (97 <= u && u <= 122) || (48 <= u && u <= 57) || c == '-' || c == '_'
        || c == '.' || c == '~'
}

/// Appends the percent-encoded form of one character.
fn push_pct_char(c: char, out: &mut Vec<char>)
    ensures
        final(out)@ == old(out)@ + pct_char(c),
{
    if is_unreserved_exec(c) {
        out.push(c);
        assert(out@ =~= old(out)@ + pct_char(c));
    } else {
        let bs = char_utf8(c);
        let n = bs.len();
        let mut i: usize = 0;
        while i < n
            invariant
                i <= n,
                n == bs@.len(),
                bs@ == encode_scalar(c as u32),
                out@ == old(out)@ + pct_bytes(bs@.take(i as int)),
            decreases n - i,
        {
            proof {
                lemma_pct_bytes_push(bs@.take(i as int), bs@[i as int]);
                assert(bs@.take(i + 1 as int) =~= bs@.take(i as int).push(bs@[i as int]));
            }
            push_pct_byte(bs[i], out);
            i = i + 1;
        }
        proof {
            assert(bs@.take(n as int) =~= bs@);
        }
    }
}

/// Appending one more byte to a percent-escaped byte run.
proof fn lemma_pct_bytes_push(bs: Seq<u8>, b: u8)
    ensures
        pct_bytes(bs.push(b)) == pct_bytes(bs) + pct_byte(b),
    decreases bs.len(),
{
    if bs.len() == 0 {
        assert(bs.push(b)[0] == b);
        assert(bs.push(b).drop_first() =~= Seq::<u8>::empty());
        assert(pct_bytes(Seq::<u8>::empty()) == Seq::<char>::empty());
        assert(pct_bytes(bs.push(b)) =~= pct_byte(b));
        assert(pct_bytes(bs) + pct_byte(b) =~= pct_byte(b));
    } else {
        lemma_pct_bytes_push(bs.drop_first(), b);
        assert(bs.push(b).drop_first() =~= bs.drop_first().push(b));
        assert(pct_bytes(bs.push(b)) =~= pct_bytes(bs) + pct_byte(b));
    }
}

/// Appends the percent-encoded characters of `s`.
fn push_pct_str(s: &str, out: &mut Vec<char>)
    ensures
        final(out)@ == old(out)@ + pct_str(s@),
{
    let n = s.unicode_len();
    let mut i: usize = 0;
    while i < n
        invariant
            i <= n,
            n == s@.len(),
            out@ == old(out)@ + pct_str(s@.take(i as int)),
        decreases n - i,
    {
        let c = s.get_char(i);
        proof {
            lemma_pct_str_push(s@.take(i as int), c);
            assert(s@.take(i + 1 as int) =~= s@.take(i as int).push(c));
        }
        push_pct_char(c, out);
        i = i + 1;
    }
    proof {
        assert(s@.take(n as int) =~= s@);
    }
}

/// Appends the characters of `s` unchanged.
fn push_plain_str(s: &str, out: &mut Vec<char>)
    ensures
        final(out)@ == old(out)@ + s@,
{
    let n = s.unicode_len();
    let mut i: usize = 0;
    while i < n
        invariant
            i <= n,
            n == s@.len(),
            out@ == old(out)@ + s@.take(i as int),
        decreases n - i,
    {
        let c = s.get_char(i);
        proof {
            assert(s@.take(i + 1 as int) =~= s@.take(i as int).push(c));
        }
        out.push(c);
        proof {
            assert(out@ =~= old(out)@ + s@.take(i + 1 as int));
        }
        i = i + 1;
    }
    proof {
        assert(s@.take(n as int) =~= s@);
    }
}

/// Appends the query form of one field value.
fn push_qval(v: &Json, out: &mut Vec<char>)
    ensures
        final(out)@ == old(out)@ + qval(jview(*v)),
{
    match v {
        Json::Null => {},
        Json::Bool(b) => {
            if *b {
                out.push('t');
                out.push('r');
                out.push('u');
                out.push('e');
            } else {
                out.push('f');
                out.push('a');
                out.push('l');
                out.push('s');
                out.push('e');
            }
            assert(out@ =~= old(out)@ + qval(jview(*v)));
        },
        Json::Int(i) => {
            write_int_chars(*i, out);
        },
        Json::Str(s) => {
            push_pct_str(s.as_str(), out);
        },
        Json::Arr(_) => {},
        Json::Obj(_) => {},
    }
}

/// The full query string of a field map: the fields in order, each as
/// `key=value`, joined with `&`. An empty map gives an empty string.
#[verifier::loop_isolation(false)]
pub fn query_string(fields: &Fields) -> (r: String)
    ensures
        r@ == query_of(fields@),
{
    let mut out: Vec<char> = Vec::new();
    let n = fields.items.len();
    proof {
        crate::json::lemma_jview_pairs(fields.items@);
    }
    let mut i: usize = 0;
    while i < n
        invariant
            i <= n,
            n == fields.items@.len(),
            out@ == query_of(fields@.take(i as int)),
        decreases n - i,
    {
        if i > 0 {
            out.push('&');
        }
        let ghost before = out@;
        push_plain_str(fields.items[i].0.as_str(), &mut out);
        out.push('=');
        push_qval(&fields.items[i].1, &mut out);
        proof {
            let k = fields.items@[i as int].0@;
            let v = jview(fields.items@[i as int].1);
            assert(fields@[i as int] == (k, v));
            assert(out@ =~= before + (k + seq!['='] + qval(v)));
            lemma_query_push(fields@.take(i as int), k, v);
            assert(fields@.take(i + 1 as int) =~= fields@.take(i as int).push((k, v)));
            assert(out@ =~= query_of(fields@.take(i + 1 as int)));
        }
        i = i + 1;
    }
    proof {
        assert(fields@.take(n as int) =~= fields@);
    }
    crate::json::chars_into_string(&out)
}

/// The query suffix of a request URL: nothing when no field is set, else a
/// question mark and the pairs.
pub open spec fn query_suffix(s: Seq<(Seq<char>, JsonVal)>) -> Seq<char> {
    if s.len() == 0 {
        Seq::empty()
    } else {
        "?"@ + query_of(s)
    }
}

/// Renders the query suffix of a field map.
pub fn query_suffix_string(fields: &Fields) -> (r: String)
    ensures
        r@ == query_suffix(fields@),
{
    if fields.len() == 0 {
        String::new()
    } else {
        let q = query_string(fields);
        let mut out = String::new();
        out.append("?");
        out.append(q.as_str());
        proof {
            assert(Seq::<char>::empty() + "?"@ + q@ =~= "?"@ + q@);
        }
        out
    }
}

} // verus!

//! JSON value model and its exact wire form.
//!
//! A [`Json`] value is the library's own representation of what travels on the
//! wire: request bodies are built as `Json` objects and response bodies are
//! parsed back into `Json` values before they are interpreted. Numbers are
//! held as 64-bit integers; the server's numeric fields are identifiers and
//! counts, so nothing finer is represented.

use vstd::prelude::*;

verus! {

broadcast use vstd::std_specs::vec::group_vec_axioms;

/// Mathematical model of a JSON value.
pub enum JsonVal {
    Null,
    Bool(bool),
    Int(int),
    Str(Seq<char>),
    Arr(Seq<JsonVal>),
    Obj(Seq<(Seq<char>, JsonVal)>),
}

/// Executable JSON value. Objects keep their fields in insertion order.
#[derive(Debug, PartialEq, Eq)]
pub enum Json {
    Null,
    Bool(bool),
    Int(i64),
    Str(String),
    Arr(Vec<Json>),
    Obj(Vec<(String, Json)>),
}

/// The model of an executable JSON value.
pub open spec fn jview(j: Json) -> JsonVal
    decreases j,
{
    match j {
        Json::Null => JsonVal::Null,
        Json::Bool(b) => JsonVal::Bool(b),
        Json::Int(i) => JsonVal::Int(i as int),
        Json::Str(s) => JsonVal::Str(s@),
        Json::Arr(a) => JsonVal::Arr(jviews(a@)),
        Json::Obj(o) => JsonVal::Obj(jview_pairs(o@)),
    }
}

/// The models of a sequence of executable JSON values, element by element.
pub open spec fn jviews(s: Seq<Json>) -> Seq<JsonVal>
    decreases s,
{
    if s.len() == 0 {
        Seq::empty()
    } else {
        seq![jview(s[0])] + jviews(s.drop_first())
    }
}

/// The models of a sequence of key-value pairs, element by element.
pub open spec fn jview_pairs(s: Seq<(String, Json)>) -> Seq<(Seq<char>, JsonVal)>
    decreases s,
{
    if s.len() == 0 {
        Seq::empty()
    } else {
        seq![(s[0].0@, jview(s[0].1))] + jview_pairs(s.drop_first())
    }
}

impl View for Json {
    type V = JsonVal;

    open spec fn view(&self) -> JsonVal {
        jview(*self)
    }
}

impl DeepView for Json {
    type V = JsonVal;

    open spec fn deep_view(&self) -> JsonVal {
        jview(*self)
    }
}

/// `jviews` element by element.
pub broadcast proof fn lemma_jviews(s: Seq<Json>)
    ensures
        #[trigger] jviews(s).len() == s.len(),
        forall|i: int| 0 <= i < s.len() ==> jviews(s)[i] == jview(s[i]),
    decreases s.len(),
{
    if s.len() > 0 {
        lemma_jviews(s.drop_first());
    }
}

/// `jview_pairs` element by element.
pub broadcast proof fn lemma_jview_pairs(s: Seq<(String, Json)>)
    ensures
        #[trigger] jview_pairs(s).len() == s.len(),
        forall|i: int|
            0 <= i < s.len() ==> jview_pairs(s)[i] == (s[i].0@, jview(s[i].1)),
    decreases s.len(),
{
    if s.len() > 0 {
        lemma_jview_pairs(s.drop_first());
    }
}

/// The decimal digit `d` as a character, for `0 <= d <= 9`.
pub open spec fn digit_char(d: int) -> char {
    ((48 + d) as u8) as char
}

/// The hexadecimal digit `d` as a lower-case character, for `0 <= d <= 15`.
pub open spec fn hex_char(d: int) -> char {
    if d < 10 {
        digit_char(d)
    } else {
        ((87 + d) as u8) as char
    }
}

/// Decimal digits of a non-negative integer, most significant first.
pub open spec fn dec_digits(n: int) -> Seq<char>
    decreases n,
{
    if n < 10 {
        seq![digit_char(n)]
    } else {
        dec_digits(n / 10) + seq![digit_char(n % 10)]
    }
}

/// Wire form of an integer: a minus sign for negative values, then the
/// decimal digits with no leading zeros.
pub open spec fn enc_int(i: int) -> Seq<char> {
    if i < 0 {
        seq!['-'] + dec_digits(-i)
    } else {
        dec_digits(i)
    }
}

/// Wire form of one character inside a string: quote and backslash get a
/// backslash escape, control characters a `\u00XX` escape, and every other
/// character stands for itself.
pub open spec fn esc_char(c: char) -> Seq<char> {
    if c == '"' {
        seq!['\\', '"']
    } else if c == '\\' {
        seq!['\\', '\\']
    } else if (c as u32) < 32 {
        seq!['\\', 'u', '0', '0', hex_char(c as u32 as int / 16), hex_char(c as u32 as int % 16)]
    } else {
        seq![c]
    }
}

/// Wire form of the characters of a string, without the surrounding quotes.
pub open spec fn enc_str(s: Seq<char>) -> Seq<char>
    decreases s.len(),
{
    if s.len() == 0 {
        Seq::empty()
    } else {
        esc_char(s[0]) + enc_str(s.drop_first())
    }
}

/// Exact wire form of a JSON value: no whitespace, object fields in order,
/// integers in decimal, strings escaped by [`esc_char`].
pub open spec fn enc(v: JsonVal) -> Seq<char>
    decreases v, 0int,
{
    match v {
        JsonVal::Null => seq!['n', 'u', 'l', 'l'],
        JsonVal::Bool(b) => if b {
            seq!['t', 'r', 'u', 'e']
        } else {
            seq!['f', 'a', 'l', 's', 'e']
        },
        JsonVal::Int(i) => enc_int(i),
        JsonVal::Str(s) => seq!['"'] + enc_str(s) + seq!['"'],
        JsonVal::Arr(items) => seq!['['] + enc_items(items) + seq![']'],
        JsonVal::Obj(pairs) => seq!['{'] + enc_members(pairs) + seq!['}'],
    }
}

/// Array elements encoded and joined with commas.
pub open spec fn enc_items(s: Seq<JsonVal>) -> Seq<char>
    decreases s, 2int,
{
    if s.len() == 0 {
        Seq::empty()
    } else if s.len() == 1 {
        enc(s[0])
    } else {
        enc(s[0]) + seq![','] + enc_items(s.drop_first())
    }
}

/// One object member: quoted escaped key, a colon, then the value.
pub open spec fn enc_member(k: Seq<char>, v: JsonVal) -> Seq<char>
    decreases v, 1int,
{
    seq!['"'] + enc_str(k) + seq!['"', ':'] + enc(v)
}

/// Object members encoded and joined with commas.
pub open spec fn enc_members(s: Seq<(Seq<char>, JsonVal)>) -> Seq<char>
    decreases s, 2int,
{
    if s.len() == 0 {
        Seq::empty()
    } else if s.len() == 1 {
        enc_member(s[0].0, s[0].1)
    } else {
        enc_member(s[0].0, s[0].1) + seq![','] + enc_members(s.drop_first())
    }
}

/// Appending one more element to a comma-joined encoding.
pub proof fn lemma_enc_items_push(s: Seq<JsonVal>, e: JsonVal)
    ensures
        enc_items(s.push(e)) == if s.len() == 0 {
            enc(e)
        } else {
            enc_items(s) + seq![','] + enc(e)
        },
    decreases s.len(),
{
    if s.len() == 0 {
        assert(s.push(e)[0] == e);
        assert(s.push(e).len() == 1);
    } else {
        lemma_enc_items_push(s.drop_first(), e);
        assert(s.push(e).drop_first() =~= s.drop_first().push(e));
        if s.len() == 1 {
            assert(enc_items(s) == enc(s[0]));
        } else {
            assert(enc_items(s) == enc(s[0]) + seq![','] + enc_items(s.drop_first()));
        }
        assert(enc_items(s.push(e)) == enc(s[0]) + seq![','] + enc_items(s.drop_first().push(e)));
        if s.len() == 1 {
            assert(enc_items(s.drop_first().push(e)) == enc(e));
        } else {
            assert(enc_items(s.drop_first().push(e)) == enc_items(s.drop_first()) + seq![','] + enc(e));
        }
        assert(enc_items(s.push(e)) =~= enc_items(s) + seq![','] + enc(e));
    }
}

/// Appending one more member to a comma-joined object encoding.
pub proof fn lemma_enc_members_push(s: Seq<(Seq<char>, JsonVal)>, k: Seq<char>, v: JsonVal)
    ensures
        enc_members(s.push((k, v))) == if s.len() == 0 {
            enc_member(k, v)
        } else {
            enc_members(s) + seq![','] + enc_member(k, v)
        },
    decreases s.len(),
{
    if s.len() == 0 {
        assert(s.push((k, v))[0] == (k, v));
        assert(s.push((k, v)).len() == 1);
    } else {
        lemma_enc_members_push(s.drop_first(), k, v);
        assert(s.push((k, v)).drop_first() =~= s.drop_first().push((k, v)));
        if s.len() == 1 {
            assert(enc_members(s.drop_first().push((k, v))) == enc_member(k, v));
        } else {
            assert(enc_members(s.drop_first().push((k, v))) == enc_members(s.drop_first())
                + seq![','] + enc_member(k, v));
        }
        assert(enc_members(s.push((k, v))) =~= enc_members(s) + seq![','] + enc_member(k, v));
    }
}

/// Appending one more character to an escaped string encoding.
pub proof fn lemma_enc_str_push(s: Seq<char>, c: char)
    ensures
        enc_str(s.push(c)) == enc_str(s) + esc_char(c),
    decreases s.len(),
{
    if s.len() == 0 {
        assert(s.push(c)[0] == c);
        assert(s.push(c).drop_first() =~= Seq::<char>::empty());
        assert(enc_str(Seq::<char>::empty()) == Seq::<char>::empty());
        assert(enc_str(s.push(c)) =~= esc_char(c));
        assert(enc_str(s) + esc_char(c) =~= esc_char(c));
    } else {
        lemma_enc_str_push(s.drop_first(), c);
        assert(s.push(c).drop_first() =~= s.drop_first().push(c));
        assert(enc_str(s.push(c)) =~= enc_str(s) + esc_char(c));
    }
}

/// Relies on `String: FromIterator<char>`: collecting characters yields the
/// string holding exactly those characters in order.
#[verifier::external_body]
pub(crate) fn chars_into_string(v: &Vec<char>) -> (r: String)
    ensures
        r@ == v@,
{
    v.iter().collect()
}

/// Appends the decimal digits of `n`.
fn write_digits(n: u64, out: &mut Vec<char>)
    ensures
        final(out)@ == old(out)@ + dec_digits(n as int),
    decreases n,
{
    if n < 10 {
        let c: char = (48 + n as u8) as char;
        assert(c == digit_char(n as int));
        out.push(c);
        assert(out@ =~= old(out)@ + dec_digits(n as int));
    } else {
        write_digits(n / 10, out);
        let d: u8 = (n % 10) as u8;
        let c: char = (48 + d) as char;
        assert(c == digit_char(n as int % 10));
        out.push(c);
        assert(out@ =~= old(out)@ + dec_digits(n as int));
    }
}

/// Appends the wire form of a 64-bit integer.
pub(crate) fn write_int_chars(i: i64, out: &mut Vec<char>)
    ensures
        final(out)@ == old(out)@ + enc_int(i as int),
{
    if i < 0 {
        out.push('-');
        let m: u64 = if i == i64::MIN {
            9223372036854775808u64
        } else {
            (-i) as u64
        };
        assert(m as int == -(i as int));
        write_digits(m, out);
        assert(out@ =~= old(out)@ + enc_int(i as int));
    } else {
        write_digits(i as u64, out);
    }
}

/// Appends the lower-case hexadecimal digit `d`.
fn push_hex(d: u8, out: &mut Vec<char>)
    requires
        d < 16,
    ensures
        final(out)@ == old(out)@.push(hex_char(d as int)),
{
    if d < 10 {
        out.push((48 + d) as char);
    } else {
        out.push((87 + d) as char);
    }
}

/// Appends the escaped form of one string character.
fn push_esc(c: char, out: &mut Vec<char>)
    ensures
        final(out)@ == old(out)@ + esc_char(c),
{
    if c == '"' {
        out.push('\\');
        out.push('"');
        assert(out@ =~= old(out)@ + esc_char(c));
    } else if c == '\\' {
        out.push('\\');
        out.push('\\');
        assert(out@ =~= old(out)@ + esc_char(c));
    } else {
        let u = c as u32;
        if u < 32 {
            out.push('\\');
            out.push('u');
            out.push('0');
            out.push('0');
            push_hex((u / 16) as u8, out);
            push_hex((u % 16) as u8, out);
            assert(out@ =~= old(out)@ + esc_char(c));
        } else {
            out.push(c);
            assert(out@ =~= old(out)@ + esc_char(c));
        }
    }
}

/// Appends the escaped characters of `s`, without surrounding quotes.
pub(crate) fn write_str_body(s: &str, out: &mut Vec<char>)
    ensures
        final(out)@ == old(out)@ + enc_str(s@),
{
    let n = s.unicode_len();
    let mut i: usize = 0;
    while i < n
        invariant
            i <= n,
            n == s@.len(),
            out@ == old(out)@ + enc_str(s@.take(i as int)),
        decreases n - i,
    {
        let c = s.get_char(i);
        proof {
            lemma_enc_str_push(s@.take(i as int), c);
            assert(s@.take(i + 1 as int) =~= s@.take(i as int).push(c));
        }
        push_esc(c, out);
        i = i + 1;
    }
    proof {
        assert(s@.take(n as int) =~= s@);
    }
}

/// Appends the exact wire form of `v`.
#[verifier::loop_isolation(false)]
#[verifier::rlimit(60)]
pub(crate) fn write_json(v: &Json, out: &mut Vec<char>)
    ensures
        final(out)@ == old(out)@ + enc(jview(*v)),
    decreases v,
{
    match v {
        Json::Null => {
            out.push('n');
            out.push('u');
            out.push('l');
            out.push('l');
            assert(out@ =~= old(out)@ + enc(jview(*v)));
        },
        Json::Bool(b) => {
            if *b {
                out.push('t');
                out.push('r');
                out.push('u');
                out.push('e');
            } else {
                out.push('f');
                out.push('a');
                out.push('l');
                out.push('s');
                out.push('e');
            }
            assert(out@ =~= old(out)@ + enc(jview(*v)));
        },
        Json::Int(i) => {
            write_int_chars(*i, out);
        },
        Json::Str(s) => {
            out.push('"');
            write_str_body(s.as_str(), out);
            out.push('"');
            assert(out@ =~= old(out)@ + enc(jview(*v)));
        },
        Json::Arr(a) => {
            out.push('[');
            let ghost base = out@;
            let n = a.len();
            let mut i: usize = 0;
            while i < n
                invariant
                    i <= n,
                    n == a@.len(),
                    out@ == base + enc_items(jviews(a@).take(i as int)),
                decreases n - i,
            {
                proof {
                    lemma_jviews(a@);
                }
                if i > 0 {
                    out.push(',');
                }
                proof {
                    assert(*v == Json::Arr(*a));
                    assert(decreases_to!(*v => *a));
                    assert(decreases_to!(*a => a@));
                    assert(decreases_to!(a@ => a@[i as int]));
                    assert(decreases_to!(*v => a@[i as int]));
                }
                write_json(&a[i], out);
                proof {
                    lemma_enc_items_push(jviews(a@).take(i as int), jview(a@[i as int]));
                    assert(jviews(a@).take(i + 1 as int) =~= jviews(a@).take(i as int).push(
                        jview(a@[i as int])));
                    assert(out@ =~= base + enc_items(jviews(a@).take(i + 1 as int)));
                }
                i = i + 1;
            }
            out.push(']');
            proof {
                lemma_jviews(a@);
                assert(jviews(a@).take(n as int) =~= jviews(a@));
                assert(out@ =~= old(out)@ + enc(jview(*v)));
            }
        },
        Json::Obj(o) => {
            out.push('{');
            let ghost base = out@;
            let n = o.len();
            let mut i: usize = 0;
            while i < n
                invariant
                    i <= n,
                    n == o@.len(),
                    out@ == base + enc_members(jview_pairs(o@).take(i as int)),
                decreases n - i,
            {
                proof {
                    lemma_jview_pairs(o@);
                }
                if i > 0 {
                    out.push(',');
                }
                let ghost before = out@;
                out.push('"');
                write_str_body(o[i].0.as_str(), out);
                out.push('"');
                out.push(':');
                proof {
                    assert(*v == Json::Obj(*o));
                    assert(decreases_to!(*v => *o));
                    assert(decreases_to!(*o => o@));
                    assert(decreases_to!(o@ => o@[i as int]));
                    assert(decreases_to!(o@[i as int] => o@[i as int].1));
                    assert(decreases_to!(*v => o@[i as int].1));
                }
                write_json(&o[i].1, out);
                proof {
                    assert(out@ =~= before + enc_member(o@[i as int].0@, jview(o@[i as int].1)));
                    lemma_enc_members_push(
                        jview_pairs(o@).take(i as int),
                        o@[i as int].0@,
                        jview(o@[i as int].1),
                    );
                    assert(jview_pairs(o@).take(i + 1 as int) =~= jview_pairs(o@).take(
                        i as int).push((o@[i as int].0@, jview(o@[i as int].1))));
                    assert(out@ =~= base + enc_members(jview_pairs(o@).take(i + 1 as int)));
                }
                i = i + 1;
            }
            out.push('}');
            proof {
                lemma_jview_pairs(o@);
                assert(jview_pairs(o@).take(n as int) =~= jview_pairs(o@));
                assert(out@ =~= old(out)@ + enc(jview(*v)));
            }
        },
    }
}

/// JSON insignificant whitespace.
pub open spec fn is_ws(c: char) -> bool {
    c == ' ' || c == '\t' || c == '\n' || c == '\r'
}

/// The first index at or after `i` that does not hold whitespace.
pub open spec fn skip_ws(s: Seq<char>, i: int) -> int
    decreases s.len() - i,
{
    if 0 <= i && i < s.len() && is_ws(s[i]) {
        skip_ws(s, i + 1)
    } else {
        i
    }
}

/// A decimal digit character.
pub open spec fn is_digit(c: char) -> bool {
    '0' <= c && c <= '9'
}

/// Numeric value of a decimal digit character.
pub open spec fn digit_val(c: char) -> int {
    c as u32 as int - 48
}

/// Numeric value of a lower- or upper-case hexadecimal digit character, or -1.
pub open spec fn hex_val(c: char) -> int {
    if is_digit(c) {
        digit_val(c)
    } else if 'a' <= c && c <= 'f' {
        c as u32 as int - 87
    } else if 'A' <= c && c <= 'F' {
        c as u32 as int - 55
    } else {
        -1
    }
}

/// The first index at or after `i` that does not hold a decimal digit.
pub open spec fn digits_end(s: Seq<char>, i: int) -> int
    decreases s.len() - i,
{
    if 0 <= i && i < s.len() && is_digit(s[i]) {
        digits_end(s, i + 1)
    } else {
        i
    }
}

/// Value of the decimal digit run `s[i .. e]`, most significant first.
pub open spec fn digits_val(s: Seq<char>, i: int, e: int) -> int
    decreases e - i,
{
    if i < e {
        digits_val(s, i, e - 1) * 10 + digit_val(s[e - 1])
    } else {
        0
    }
}

/// Parses an integer at `i`: an optional minus sign and a digit run. Numbers
/// with a fraction or an exponent, and numbers outside the 64-bit signed
/// range, are not represented and fail.
pub open spec fn parse_int(s: Seq<char>, i: int) -> Option<(JsonVal, int)> {
    let neg = i < s.len() && s[i] == '-';
    let d0 = if neg {
        i + 1
    } else {
        i
    };
    let e = digits_end(s, d0);
    if e == d0 {
        None
    } else if e < s.len() && (s[e] == '.' || s[e] == 'e' || s[e] == 'E') {
        None
    } else {
        let m = digits_val(s, d0, e);
        if neg {
            if m <= 0x8000_0000_0000_0000 {
                Some((JsonVal::Int(-m), e))
            } else {
                None
            }
        } else {
            if m <= 0x7fff_ffff_ffff_ffff {
                Some((JsonVal::Int(m), e))
            } else {
                None
            }
        }
    }
}

/// The character named by a single-character escape, if any.
pub open spec fn unesc(c: char) -> Option<char> {
    if c == '"' {
        Some('"')
    } else if c == '\\' {
        Some('\\')
    } else if c == '/' {
        Some('/')
    } else if c == 'n' {
        Some('\n')
    } else if c == 't' {
        Some('\t')
    } else if c == 'r' {
        Some('\r')
    } else if c == 'b' {
        Some(8u8 as char)
    } else if c == 'f' {
        Some(12u8 as char)
    } else {
        None
    }
}

/// Parses the characters of a string from `i` (just past the opening quote)
/// up to and including the closing quote. Unicode escapes are accepted for
/// code points up to 255 (`\u00XX`); higher ones are not represented.
pub open spec fn parse_str_body(s: Seq<char>, i: int) -> Option<(Seq<char>, int)>
    decreases s.len() - i,
{
    if i < 0 || i >= s.len() {
        None
    } else if s[i] == '"' {
        Some((Seq::empty(), i + 1))
    } else if s[i] == '\\' {
        if i + 1 < s.len() {
            let c2 = s[i + 1];
            if c2 == 'u' {
                if i + 5 < s.len() && s[i + 2] == '0' && s[i + 3] == '0' && hex_val(s[i + 4]) >= 0
                    && hex_val(s[i + 5]) >= 0 {
                    let ch = ((hex_val(s[i + 4]) * 16 + hex_val(s[i + 5])) as u8) as char;
                    match parse_str_body(s, i + 6) {
                        Some((t, j)) => Some((seq![ch] + t, j)),
                        None => None,
                    }
                } else {
                    None
                }
            } else {
                match unesc(c2) {
                    Some(ch) => match parse_str_body(s, i + 2) {
                        Some((t, j)) => Some((seq![ch] + t, j)),
                        None => None,
                    },
                    None => None,
                }
            }
        } else {
            None
        }
    } else {
        match parse_str_body(s, i + 1) {
            Some((t, j)) => Some((seq![s[i]] + t, j)),
            None => None,
        }
    }
}

/// Parses one JSON value starting exactly at `i` (no leading whitespace).
pub open spec fn parse_val(s: Seq<char>, i: int) -> Option<(JsonVal, int)>
    decreases s.len() - i, 0int,
{
    if i < 0 || i >= s.len() {
        None
    } else {
        let c = s[i];
        if c == 'n' {
            if i + 4 <= s.len() && s[i + 1] == 'u' && s[i + 2] == 'l' && s[i + 3] == 'l' {
                Some((JsonVal::Null, i + 4))
            } else {
                None
            }
        } else if c == 't' {
            if i + 4 <= s.len() && s[i + 1] == 'r' && s[i + 2] == 'u' && s[i + 3] == 'e' {
                Some((JsonVal::Bool(true), i + 4))
            } else {
                None
            }
        } else if c == 'f' {
            if i + 5 <= s.len() && s[i + 1] == 'a' && s[i + 2] == 'l' && s[i + 3] == 's' && s[i + 4]
                == 'e' {
                Some((JsonVal::Bool(false), i + 5))
            } else {
                None
            }
        } else if c == '"' {
            match parse_str_body(s, i + 1) {
                Some((t, j)) => Some((JsonVal::Str(t), j)),
                None => None,
            }
        } else if c == '-' || is_digit(c) {
            parse_int(s, i)
        } else if c == '[' {
            let j = skip_ws(s, i + 1);
            if j < s.len() && s[j] == ']' {
                Some((JsonVal::Arr(Seq::empty()), j + 1))
            } else if i < j && j <= s.len() {
                match parse_items(s, j) {
                    Some((vs, k)) => Some((JsonVal::Arr(vs), k)),
                    None => None,
                }
            } else {
                None
            }
        } else if c == '{' {
            let j = skip_ws(s, i + 1);
            if j < s.len() && s[j] == '}' {
                Some((JsonVal::Obj(Seq::empty()), j + 1))
            } else if i < j && j <= s.len() {
                match parse_membs(s, j) {
                    Some((ps, k)) => Some((JsonVal::Obj(ps), k)),
                    None => None,
                }
            } else {
                None
            }
        } else {
            None
        }
    }
}

/// Parses one or more comma-separated array elements starting at a value,
/// up to and including the closing bracket.
pub open spec fn parse_items(s: Seq<char>, i: int) -> Option<(Seq<JsonVal>, int)>
    decreases s.len() - i, 1int,
{
    match parse_val(s, i) {
        None => None,
        Some((v, j)) => {
            let k = skip_ws(s, j);
            if k < s.len() && s[k] == ',' {
                let m = skip_ws(s, k + 1);
                if i < m && m <= s.len() {
                    match parse_items(s, m) {
                        Some((vs, e)) => Some((seq![v] + vs, e)),
                        None => None,
                    }
                } else {
                    None
                }
            } else if k < s.len() && s[k] == ']' {
                Some((seq![v], k + 1))
            } else {
                None
            }
        },
    }
}

/// Parses one or more comma-separated object members starting at a key,
/// up to and including the closing brace.
pub open spec fn parse_membs(s: Seq<char>, i: int) -> Option<(Seq<(Seq<char>, JsonVal)>, int)>
    decreases s.len() - i, 1int,
{
    if 0 <= i && i < s.len() && s[i] == '"' {
        match parse_str_body(s, i + 1) {
            None => None,
            Some((key, j)) => {
                let k = skip_ws(s, j);
                if k < s.len() && s[k] == ':' {
                    let m = skip_ws(s, k + 1);
                    if i < m && m <= s.len() {
                        match parse_val(s, m) {
                            None => None,
                            Some((v, e)) => {
                                let k2 = skip_ws(s, e);
                                if k2 < s.len() && s[k2] == ',' {
                                    let m2 = skip_ws(s, k2 + 1);
                                    if i < m2 && m2 <= s.len() {
                                        match parse_membs(s, m2) {
                                            Some((ps, e2)) => Some((seq![(key, v)] + ps, e2)),
                                            None => None,
                                        }
                                    } else {
                                        None
                                    }
                                } else if k2 < s.len() && s[k2] == '}' {
                                    Some((seq![(key, v)], k2 + 1))
                                } else {
                                    None
                                }
                            },
                        }
                    } else {
                        None
                    }
                } else {
                    None
                }
            },
        }
    } else {
        None
    }
}

/// Parses a complete JSON text: one value, with whitespace allowed around it
/// and nothing else before or after.
pub open spec fn parse_text(s: Seq<char>) -> Option<JsonVal> {
    let i = skip_ws(s, 0);
    match parse_val(s, i) {
        Some((v, j)) => if skip_ws(s, j) == s.len() {
            Some(v)
        } else {
            None
        },
        None => None,
    }
}

/// The characters of a string slice, in order.
fn chars_of(s: &str) -> (r: Vec<char>)
    ensures
        r@ == s@,
{
    let n = s.unicode_len();
    let mut out: Vec<char> = Vec::new();
    let mut i: usize = 0;
    while i < n
        invariant
            i <= n,
            n == s@.len(),
            out@ == s@.take(i as int),
        decreases n - i,
    {
        out.push(s.get_char(i));
        proof {
            assert(s@.take(i + 1 as int) =~= s@.take(i as int).push(s@[i as int]));
        }
        i = i + 1;
    }
    proof {
        assert(s@.take(n as int) =~= s@);
    }
    out
}

/// First non-whitespace position at or after `i`.
fn skip_ws_exec(s: &Vec<char>, i: usize) -> (r: usize)
    requires
        i <= s@.len(),
    ensures
        r as int == skip_ws(s@, i as int),
        i <= r <= s@.len(),
{
    let len = s.len();
    let mut cur = i;
    while cur < len && (s[cur] == ' ' || s[cur] == '\t' || s[cur] == '\n' || s[cur] == '\r')
        invariant
            i <= cur <= len,
            len == s@.len(),
            skip_ws(s@, i as int) == skip_ws(s@, cur as int),
        decreases len - cur,
    {
        cur = cur + 1;
    }
    proof {
        assert(skip_ws(s@, cur as int) == cur as int);
    }
    cur
}

/// Whether `c` is a decimal digit.
fn is_digit_exec(c: char) -> (r: bool)
    ensures
        r == is_digit(c),
{
    let u = c as u32;
    48 <= u && u <= 57
}

/// Numeric value of a hexadecimal digit character, or -1.
fn hex_val_exec(c: char) -> (r: i32)
    ensures
        r as int == hex_val(c),
        -1 <= r < 16,
{
    let u = c as u32;
    if 48 <= u && u <= 57 {
        (u - 48) as i32
    } else if 97 <= u && u <= 102 {
        (u - 87) as i32
    } else if 65 <= u && u <= 70 {
        (u - 55) as i32
    } else {
        -1
    }
}

/// The character named by a single-character escape.
fn unesc_exec(c: char) -> (r: Option<char>)
    ensures
        r == unesc(c),
{
    if c == '"' {
        Some('"')
    } else if c == '\\' {
        Some('\\')
    } else if c == '/' {
        Some('/')
    } else if c == 'n' {
        Some('\n')
    } else if c == 't' {
        Some('\t')
    } else if c == 'r' {
        Some('\r')
    } else if c == 'b' {
        Some(8u8 as char)
    } else if c == 'f' {
        Some(12u8 as char)
    } else {
        None
    }
}

/// Positions from `i` up to `digits_end` hold digits, and the run's value
/// is non-negative and grows with its length.
proof fn lemma_digits_end(s: Seq<char>, i: int)
    requires
        0 <= i <= s.len(),
    ensures
        i <= digits_end(s, i) <= s.len(),
        forall|p: int| i <= p < digits_end(s, i) ==> is_digit(s[p]),
    decreases s.len() - i,
{
    if i < s.len() && is_digit(s[i]) {
        lemma_digits_end(s, i + 1);
    }
}

/// A digit run's value is non-negative.
proof fn lemma_digits_val_nonneg(s: Seq<char>, i: int, e: int)
    requires
        forall|p: int| i <= p < e ==> is_digit(s[p]),
    ensures
        digits_val(s, i, e) >= 0,
    decreases e - i,
{
    if i < e {
        lemma_digits_val_nonneg(s, i, e - 1);
    }
}

/// Extending a digit run cannot shrink its value.
proof fn lemma_digits_val_mono(s: Seq<char>, i: int, e1: int, e2: int)
    requires
        i <= e1 <= e2,
        forall|p: int| i <= p < e2 ==> is_digit(s[p]),
    ensures
        digits_val(s, i, e2) >= digits_val(s, i, e1),
    decreases e2 - e1,
{
    if e1 < e2 {
        lemma_digits_val_mono(s, i, e1, e2 - 1);
        lemma_digits_val_nonneg(s, i, e2 - 1);
    }
}

/// Parses an integer at `i` as the specification does.
#[verifier::loop_isolation(false)]
fn parse_int_exec(s: &Vec<char>, i: usize) -> (r: Option<(i64, usize)>)
    requires
        i < s@.len(),
    ensures
        (match r {
            Some((n, k)) => parse_int(s@, i as int) == Some((JsonVal::Int(n as int), k as int))
                && i < k <= s@.len(),
            None => parse_int(s@, i as int) is None,
        }),
{
    let len = s.len();
    let neg = s[i] == '-';
    let d0 = if neg {
        i + 1
    } else {
        i
    };
    let mut e = d0;
    let mut m: u64 = 0;
    let mut over = false;
    proof {
        lemma_digits_end(s@, d0 as int);
    }
    while e < len && is_digit_exec(s[e])
        invariant
            d0 <= e <= len,
            digits_end(s@, d0 as int) == digits_end(s@, e as int),
            !over ==> m as int == digits_val(s@, d0 as int, e as int),
            over ==> digits_val(s@, d0 as int, e as int) > u64::MAX as int,
        decreases len - e,
    {
        let d: u64 = (s[e] as u32 - 48) as u64;
        proof {
            assert(is_digit(s@[e as int]));
            assert(digits_val(s@, d0 as int, e + 1 as int) == digits_val(s@, d0 as int, e as int)
                * 10 + digit_val(s@[e as int]));
        }
        if over {
            proof {
                assert(digits_val(s@, d0 as int, e as int) * 10 >= digits_val(
                    s@, d0 as int, e as int));
            }
        } else {
            let step = m.checked_mul(10);
            match step {
                Some(p) => {
                    match p.checked_add(d) {
                        Some(q) => {
                            m = q;
                        },
                        None => {
                            over = true;
                        },
                    }
                },
                None => {
                    over = true;
                    proof {
                        assert(m as int * 10 + d as int > u64::MAX as int);
                    }
                },
            }
        }
        e = e + 1;
    }
    proof {
        assert(digits_end(s@, e as int) == e as int);
        assert(digits_end(s@, d0 as int) == e as int);
    }
    if e == d0 {
        return None;
    }
    if e < len && (s[e] == '.' || s[e] == 'e' || s[e] == 'E') {
        return None;
    }
    if over {
        return None;
    }
    if neg {
        if m <= 0x8000_0000_0000_0000u64 {
            let n: i64 = if m == 0x8000_0000_0000_0000u64 {
                i64::MIN
            } else {
                -(m as i64)
            };
            Some((n, e))
        } else {
            None
        }
    } else {
        if m <= 0x7fff_ffff_ffff_ffffu64 {
            Some((m as i64, e))
        } else {
            None
        }
    }
}

/// Parses string characters from `i` as the specification does.
#[verifier::loop_isolation(false)]
fn parse_str_body_exec(s: &Vec<char>, i: usize) -> (r: Option<(Vec<char>, usize)>)
    requires
        i <= s@.len(),
    ensures
        (match r {
            Some((t, j)) => parse_str_body(s@, i as int) == Some((t@, j as int)) && i < j
                <= s@.len(),
            None => parse_str_body(s@, i as int) is None,
        }),
{
    let len = s.len();
    let mut cur = i;
    let mut acc: Vec<char> = Vec::new();
    loop
        invariant
            i <= cur <= len,
            len == s@.len(),
            parse_str_body(s@, i as int) == (match parse_str_body(s@, cur as int) {
                Some((t, j)) => Some((acc@ + t, j)),
                None => None::<(Seq<char>, int)>,
            }),
        decreases len - cur,
    {
        if cur >= len {
            return None;
        }
        let c = s[cur];
        if c == '"' {
            proof {
                assert(acc@ + Seq::<char>::empty() =~= acc@);
            }
            return Some((acc, cur + 1));
        } else if c == '\\' {
            if cur + 1 >= len {
                return None;
            }
            let c2 = s[cur + 1];
            if c2 == 'u' {
                if len - cur > 5 {
                    let z2 = s[cur + 2];
                    let z3 = s[cur + 3];
                    let h1 = hex_val_exec(s[cur + 4]);
                    let h2 = hex_val_exec(s[cur + 5]);
                    if z2 == '0' && z3 == '0' && h1 >= 0 && h2 >= 0 {
                        let ch: char = ((h1 * 16 + h2) as u8) as char;
                        proof {
                            let ghost prev = acc@;
                            assert(forall|t: Seq<char>|
                                (prev.push(ch) + t) =~= (prev + (seq![ch] + t)));
                        }
                        acc.push(ch);
                        cur = cur + 6;
                    } else {
                        return None;
                    }
                } else {
                    return None;
                }
            } else {
                match unesc_exec(c2) {
                    Some(ch) => {
                        proof {
                            let ghost prev = acc@;
                            assert(forall|t: Seq<char>|
                                (prev.push(ch) + t) =~= (prev + (seq![ch] + t)));
                        }
                        acc.push(ch);
                        cur = cur + 2;
                    },
                    None => {
                        return None;
                    },
                }
            }
        } else {
            proof {
                let ghost prev = acc@;
                assert(forall|t: Seq<char>| (prev.push(c) + t) =~= (prev + (seq![c] + t)));
            }
            acc.push(c);
            cur = cur + 1;
        }
    }
}

/// Parses one JSON value at `i` as the specification does.
#[verifier::loop_isolation(false)]
fn parse_val_exec(s: &Vec<char>, i: usize) -> (r: Option<(Json, usize)>)
    requires
        i <= s@.len(),
    ensures
        (match r {
            Some((v, k)) => parse_val(s@, i as int) == Some((jview(v), k as int)) && i < k
                <= s@.len(),
            None => parse_val(s@, i as int) is None,
        }),
    decreases s@.len() - i, 0int,
{
    let len = s.len();
    if i >= len {
        return None;
    }
    let c = s[i];
    if c == 'n' {
        if len - i >= 4 && s[i + 1] == 'u' && s[i + 2] == 'l' && s[i + 3] == 'l' {
            Some((Json::Null, i + 4))
        } else {
            None
        }
    } else if c == 't' {
        if len - i >= 4 && s[i + 1] == 'r' && s[i + 2] == 'u' && s[i + 3] == 'e' {
            Some((Json::Bool(true), i + 4))
        } else {
            None
        }
    } else if c == 'f' {
        if len - i >= 5 && s[i + 1] == 'a' && s[i + 2] == 'l' && s[i + 3] == 's' && s[i + 4]
            == 'e' {
            Some((Json::Bool(false), i + 5))
        } else {
            None
        }
    } else if c == '"' {
        match parse_str_body_exec(s, i + 1) {
            Some((t, j)) => {
                let st = chars_into_string(&t);
                Some((Json::Str(st), j))
            },
            None => None,
        }
    } else if c == '-' || is_digit_exec(c) {
        match parse_int_exec(s, i) {
            Some((n, k)) => Some((Json::Int(n), k)),
            None => None,
        }
    } else if c == '[' {
        let j = skip_ws_exec(s, i + 1);
        if j < len && s[j] == ']' {
            let empty: Vec<Json> = Vec::new();
            proof {
                assert(jviews(empty@) =~= Seq::<JsonVal>::empty());
            }
            Some((Json::Arr(empty), j + 1))
        } else {
            match parse_items_exec(s, j) {
                Some((vs, k)) => Some((Json::Arr(vs), k)),
                None => None,
            }
        }
    } else if c == '{' {
        let j = skip_ws_exec(s, i + 1);
        if j < len && s[j] == '}' {
            let empty: Vec<(String, Json)> = Vec::new();
            proof {
                assert(jview_pairs(empty@) =~= Seq::<(Seq<char>, JsonVal)>::empty());
            }
            Some((Json::Obj(empty), j + 1))
        } else {
            match parse_membs_exec(s, j) {
                Some((ps, k)) => Some((Json::Obj(ps), k)),
                None => None,
            }
        }
    } else {
        None
    }
}

/// Parses array elements from `i` as the specification does.
#[verifier::loop_isolation(false)]
fn parse_items_exec(s: &Vec<char>, i: usize) -> (r: Option<(Vec<Json>, usize)>)
    requires
        i <= s@.len(),
    ensures
        (match r {
            Some((vs, k)) => parse_items(s@, i as int) == Some((jviews(vs@), k as int)) && i < k
                <= s@.len(),
            None => parse_items(s@, i as int) is None,
        }),
    decreases s@.len() - i, 1int,
{
    let len = s.len();
    let mut cur = i;
    let mut acc: Vec<Json> = Vec::new();
    loop
        invariant
            i <= cur <= len,
            len == s@.len(),
            (match parse_items(s@, cur as int) {
                Some((vs, e)) => parse_items(s@, i as int) == Some((jviews(acc@) + vs, e)),
                None => parse_items(s@, i as int) is None,
            }),
        decreases len - cur,
    {
        let step = parse_val_exec(s, cur);
        match step {
            None => {
                return None;
            },
            Some((v, j)) => {
                let k = skip_ws_exec(s, j);
                proof {
                    lemma_jviews(acc@);
                    let ghost prev = acc@;
                    assert(forall|vs: Seq<JsonVal>|
                        (jviews(prev.push(v)) + vs) =~= (jviews(prev) + (seq![jview(v)] + vs)))
                        by {
                        lemma_jviews(prev.push(v));
                        lemma_jviews(prev);
                        assert(jviews(prev.push(v)) =~= jviews(prev).push(jview(v)));
                        assert(forall|vs: Seq<JsonVal>|
                            (jviews(prev).push(jview(v)) + vs) =~= (jviews(prev) + (seq![jview(
                                v)] + vs)));
                    }
                    assert(jviews(acc@.push(v)) =~= jviews(acc@).push(jview(v))) by {
                        lemma_jviews(acc@.push(v));
                        lemma_jviews(acc@);
                    }
                }
                acc.push(v);
                if k < len && s[k] == ',' {
                    let m = skip_ws_exec(s, k + 1);
                    if cur < m {
                        cur = m;
                    } else {
                        return None;
                    }
                } else if k < len && s[k] == ']' {
                    return Some((acc, k + 1));
                } else {
                    return None;
                }
            },
        }
    }
}

/// Parses object members from `i` as the specification does.
#[verifier::loop_isolation(false)]
fn parse_membs_exec(s: &Vec<char>, i: usize) -> (r: Option<(Vec<(String, Json)>, usize)>)
    requires
        i <= s@.len(),
    ensures
        (match r {
            Some((ps, k)) => parse_membs(s@, i as int) == Some((jview_pairs(ps@), k as int)) && i
                < k <= s@.len(),
            None => parse_membs(s@, i as int) is None,
        }),
    decreases s@.len() - i, 1int,
{
    let len = s.len();
    let mut cur = i;
    let mut acc: Vec<(String, Json)> = Vec::new();
    loop
        invariant
            i <= cur <= len,
            len == s@.len(),
            (match parse_membs(s@, cur as int) {
                Some((ps, e)) => parse_membs(s@, i as int) == Some((jview_pairs(acc@) + ps, e)),
                None => parse_membs(s@, i as int) is None,
            }),
        decreases len - cur,
    {
        if !(cur < len) {
            return None;
        }
        if !(s[cur] == '"') {
            return None;
        }
        let kb = parse_str_body_exec(s, cur + 1);
        match kb {
            None => {
                return None;
            },
            Some((kt, j)) => {
                let key = chars_into_string(&kt);
                let k = skip_ws_exec(s, j);
                if !(k < len && s[k] == ':') {
                    return None;
                }
                let m = skip_ws_exec(s, k + 1);
                if !(cur < m) {
                    return None;
                }
                let stepv = parse_val_exec(s, m);
                match stepv {
                    None => {
                        return None;
                    },
                    Some((v, e)) => {
                        let k2 = skip_ws_exec(s, e);
                        proof {
                            let ghost prev = acc@;
                            assert(jview_pairs(prev.push((key, v))) =~= jview_pairs(prev).push(
                                (key@, jview(v)))) by {
                                lemma_jview_pairs(prev.push((key, v)));
                                lemma_jview_pairs(prev);
                            }
                            assert(forall|ps: Seq<(Seq<char>, JsonVal)>|
                                (jview_pairs(prev).push((key@, jview(v))) + ps) =~= (jview_pairs(
                                    prev) + (seq![(key@, jview(v))] + ps)));
                        }
                        acc.push((key, v));
                        if k2 < len && s[k2] == ',' {
                            let m2 = skip_ws_exec(s, k2 + 1);
                            if cur < m2 {
                                cur = m2;
                            } else {
                                return None;
                            }
                        } else if k2 < len && s[k2] == '}' {
                            return Some((acc, k2 + 1));
                        } else {
                            return None;
                        }
                    },
                }
            },
        }
    }
}

impl Json {
    /// Parses a complete JSON text into a value, or nothing when the text is
    /// not well formed.
    pub fn parse(text: &str) -> (r: Option<Json>)
        ensures
            (match r {
                Some(v) => parse_text(text@) == Some(jview(v)),
                None => parse_text(text@) is None,
            }),
    {
        let cs = chars_of(text);
        let i = skip_ws_exec(&cs, 0);
        match parse_val_exec(&cs, i) {
            Some((v, j)) => {
                let e = skip_ws_exec(&cs, j);
                if e == cs.len() {
                    Some(v)
                } else {
                    None
                }
            },
            None => None,
        }
    }
}

impl Json {
    /// The exact wire text of this value.
    pub fn render(&self) -> (r: String)
        ensures
            r@ == enc(self@),
    {
        let mut out: Vec<char> = Vec::new();
        write_json(self, &mut out);
        chars_into_string(&out)
    }
}

/// The exact wire text of the object whose fields are `items`, in order.
#[verifier::loop_isolation(false)]
#[verifier::rlimit(30)]
pub fn render_object(items: &Vec<(String, Json)>) -> (r: String)
    ensures
        r@ == enc(JsonVal::Obj(jview_pairs(items@))),
{
    let mut out: Vec<char> = Vec::new();
    out.push('{');
    let ghost base = out@;
    let n = items.len();
    let mut i: usize = 0;
    while i < n
        invariant
            i <= n,
            n == items@.len(),
            out@ == base + enc_members(jview_pairs(items@).take(i as int)),
        decreases n - i,
    {
        proof {
            lemma_jview_pairs(items@);
        }
        if i > 0 {
            out.push(',');
        }
        let ghost before = out@;
        out.push('"');
        write_str_body(items[i].0.as_str(), &mut out);
        out.push('"');
        out.push(':');
        write_json(&items[i].1, &mut out);
        proof {
            assert(out@ =~= before + enc_member(items@[i as int].0@, jview(items@[i as int].1)));
            lemma_enc_members_push(
                jview_pairs(items@).take(i as int),
                items@[i as int].0@,
                jview(items@[i as int].1),
            );
            assert(jview_pairs(items@).take(i + 1 as int) =~= jview_pairs(items@).take(
                i as int).push((items@[i as int].0@, jview(items@[i as int].1))));
            assert(out@ =~= base + enc_members(jview_pairs(items@).take(i + 1 as int)));
        }
        i = i + 1;
    }
    out.push('}');
    proof {
        lemma_jview_pairs(items@);
        assert(jview_pairs(items@).take(n as int) =~= jview_pairs(items@));
        assert(out@ =~= seq!['{'] + enc_members(jview_pairs(items@)) + seq!['}']);
    }
    chars_into_string(&out)
}

} // verus!

//! The encoder and the parser agree: parsing the exact wire text of a value
//! gives that value back.
//!
//! This is what makes an echoing exchange faithful: a builder's body,
//! rendered and read back, reproduces exactly the fields that were set, and
//! a field that was absent stays absent. The one proviso is
//! representability: every integer in the value must fit the 64-bit signed
//! range the parser accepts, which [`wf_json`] states and every value built
//! from executable JSON satisfies.

use vstd::prelude::*;

use crate::json::{
    dec_digits, digit_char, digit_val, digits_end, digits_val, enc, enc_int, enc_items,
    enc_member, enc_members, enc_str, esc_char, hex_char, hex_val, is_digit, is_ws, jview,
    jview_pairs, jviews, parse_int, parse_membs, parse_str_body, parse_text, parse_val,
    parse_items, skip_ws, unesc, Json, JsonVal,
};

verus! {

broadcast use vstd::std_specs::vec::group_vec_axioms;

/// Representable values: every integer anywhere inside fits the 64-bit
/// signed range.
pub open spec fn wf_json(v: JsonVal) -> bool
    decreases v, 0int,
{
    match v {
        JsonVal::Int(n) => i64::MIN <= n <= i64::MAX,
        JsonVal::Arr(items) => wf_items(items),
        JsonVal::Obj(pairs) => wf_pairs(pairs),
        _ => true,
    }
}

/// Every element is representable.
pub open spec fn wf_items(s: Seq<JsonVal>) -> bool
    decreases s, 1int,
{
    if s.len() == 0 {
        true
    } else {
        wf_json(s[0]) && wf_items(s.drop_first())
    }
}

/// Every member's value is representable.
pub open spec fn wf_pairs(s: Seq<(Seq<char>, JsonVal)>) -> bool
    decreases s, 1int,
{
    if s.len() == 0 {
        true
    } else {
        wf_json(s[0].1) && wf_pairs(s.drop_first())
    }
}

/// The model of any executable JSON value is representable.
pub proof fn lemma_jview_wf(j: Json)
    ensures
        wf_json(jview(j)),
    decreases j, 0int,
{
    match j {
        Json::Arr(a) => {
            assert(decreases_to!(j => a@)) by {
                assert(j == Json::Arr(a));
                assert(decreases_to!(j => a));
            }
            lemma_jviews_wf(a@);
        },
        Json::Obj(o) => {
            assert(decreases_to!(j => o@)) by {
                assert(j == Json::Obj(o));
                assert(decreases_to!(j => o));
            }
            lemma_jview_pairs_wf(o@);
        },
        _ => {},
    }
}

/// The models of executable JSON values are representable.
pub proof fn lemma_jviews_wf(s: Seq<Json>)
    ensures
        wf_items(jviews(s)),
    decreases s, 1int,
{
    if s.len() > 0 {
        lemma_jview_wf(s[0]);
        lemma_jviews_wf(s.drop_first());
        assert(jviews(s)[0] == jview(s[0]));
        assert(jviews(s).drop_first() =~= jviews(s.drop_first()));
    }
}

/// The models of executable key-value pairs are representable.
pub proof fn lemma_jview_pairs_wf(s: Seq<(String, Json)>)
    ensures
        wf_pairs(jview_pairs(s)),
    decreases s, 1int,
{
    if s.len() > 0 {
        assert(decreases_to!(s => s[0].1)) by {
            assert(decreases_to!(s => s[0]));
        }
        lemma_jview_wf(s[0].1);
        lemma_jview_pairs_wf(s.drop_first());
        assert(jview_pairs(s)[0] == (s[0].0@, jview(s[0].1)));
        assert(jview_pairs(s).drop_first() =~= jview_pairs(s.drop_first()));
    }
}

/// Positions past the end of a value in a well-formed composite text: the
/// text ends, or a separator or a closing bracket follows.
pub open spec fn value_end(s: Seq<char>, j: int) -> bool {
    j == s.len() || s[j] == ',' || s[j] == ']' || s[j] == '}'
}

/// The characters of a decimal run are digits, and there is at least one.
proof fn lemma_dec_digits_all(n: int)
    requires
        n >= 0,
    ensures
        dec_digits(n).len() >= 1,
        forall|k: int| 0 <= k < dec_digits(n).len() ==> is_digit(#[trigger] dec_digits(n)[k]),
    decreases n,
{
    if n < 10 {
        assert(is_digit(digit_char(n)));
    } else {
        lemma_dec_digits_all(n / 10);
        assert(is_digit(digit_char(n % 10)));
        assert forall|k: int| 0 <= k < dec_digits(n).len() implies is_digit(
            #[trigger] dec_digits(n)[k],
        ) by {
            if k < dec_digits(n / 10).len() {
                assert(dec_digits(n)[k] == dec_digits(n / 10)[k]);
            } else {
                assert(dec_digits(n)[k] == digit_char(n % 10));
            }
        }
    }
}

/// Where a digit run stops: all digits up to `e`, then a non-digit or the
/// end, make `e` the run's end from anywhere inside.
proof fn lemma_digits_end_exact(s: Seq<char>, j: int, e: int)
    requires
        0 <= j <= e <= s.len(),
        forall|k: int| j <= k < e ==> is_digit(#[trigger] s[k]),
        e == s.len() || !is_digit(s[e]),
    ensures
        digits_end(s, j) == e,
    decreases e - j,
{
    if j < e {
        lemma_digits_end_exact(s, j + 1, e);
    }
}

/// Reading back the decimal run of `m` gives `m`.
proof fn lemma_digits_val_of_dec(s: Seq<char>, j: int, m: int)
    requires
        m >= 0,
        0 <= j,
        j + dec_digits(m).len() <= s.len(),
        forall|k: int| 0 <= k < dec_digits(m).len() ==> s[j + k] == #[trigger] dec_digits(m)[k],
    ensures
        digits_val(s, j, j + dec_digits(m).len()) == m,
    decreases m,
{
    let dd = dec_digits(m);
    if m < 10 {
        assert(dd[0] == digit_char(m));
        assert(s[j + 0] == dd[0]);
        assert(s[j] == digit_char(m));
        assert(digit_val(digit_char(m)) == m);
        assert(digits_val(s, j, j + 1) == digits_val(s, j, j) * 10 + digit_val(s[j]));
    } else {
        let dd0 = dec_digits(m / 10);
        assert(dd == dd0 + seq![digit_char(m % 10)]);
        assert forall|k: int| 0 <= k < dd0.len() implies s[j + k] == #[trigger] dd0[k] by {
            assert(dd[k] == dd0[k]);
        }
        lemma_digits_val_of_dec(s, j, m / 10);
        let e = j + dd.len();
        assert(s[e - 1] == dd[dd.len() - 1]);
        assert(dd[dd.len() - 1] == digit_char(m % 10));
        assert(digit_val(digit_char(m % 10)) == m % 10);
        assert(digits_val(s, j, e) == digits_val(s, j, e - 1) * 10 + digit_val(s[e - 1]));
    }
}

/// An encoded value is never empty, and its first character is neither
/// whitespace nor a separator nor a closing bracket.
proof fn lemma_enc_first(v: JsonVal)
    ensures
        enc(v).len() >= 1,
        !is_ws(enc(v)[0]),
        enc(v)[0] != ']',
        enc(v)[0] != '}',
        enc(v)[0] != ',',
        enc(v)[0] != ':',
{
    match v {
        JsonVal::Int(i) => {
            if i < 0 {
                lemma_dec_digits_all(-i);
            } else {
                lemma_dec_digits_all(i);
                assert(enc(v)[0] == dec_digits(i)[0]);
                assert(is_digit(dec_digits(i)[0]));
            }
        },
        _ => {},
    }
}

/// Parsing the escaped characters of `t` followed by a closing quote gives
/// `t` back and stops just past the quote.
proof fn lemma_parse_str_enc(s: Seq<char>, j: int, t: Seq<char>)
    requires
        0 <= j,
        j + enc_str(t).len() + 1 <= s.len(),
        forall|k: int| 0 <= k < enc_str(t).len() ==> s[j + k] == #[trigger] enc_str(t)[k],
        s[j + enc_str(t).len()] == '"',
    ensures
        parse_str_body(s, j) == Some((t, j + enc_str(t).len() + 1)),
    decreases t.len(),
{
    let et = enc_str(t);
    if t.len() == 0 {
        assert(et.len() == 0);
    } else {
        let c = t[0];
        let e0 = esc_char(c);
        let rest = enc_str(t.drop_first());
        assert(et == e0 + rest);
        assert(et.len() == e0.len() + rest.len());
        assert forall|k: int| 0 <= k < rest.len() implies s[(j + e0.len()) + k]
            == #[trigger] rest[k] by {
            assert(et[e0.len() + k] == rest[k]);
            assert(s[j + (e0.len() + k)] == et[e0.len() + k]);
        }
        let jr = j + e0.len();
        assert(s[jr + rest.len()] == '"');
        lemma_parse_str_enc(s, jr, t.drop_first());
        if c == '"' {
            assert(s[j + 0] == et[0] && et[0] == '\\');
            assert(s[j + 1] == et[1] && et[1] == '"');
            assert(unesc('"') == Some('"'));
            assert(seq![c] + t.drop_first() =~= t);
        } else if c == '\\' {
            assert(s[j + 0] == et[0] && et[0] == '\\');
            assert(s[j + 1] == et[1] && et[1] == '\\');
            assert(unesc('\\') == Some('\\'));
            assert(seq![c] + t.drop_first() =~= t);
        } else if (c as u32) < 32 {
            let hi = c as u32 as int / 16;
            let lo = c as u32 as int % 16;
            assert(s[j + 0] == et[0] && et[0] == '\\');
            assert(s[j + 1] == et[1] && et[1] == 'u');
            assert(s[j + 2] == et[2] && et[2] == '0');
            assert(s[j + 3] == et[3] && et[3] == '0');
            assert(s[j + 4] == et[4] && et[4] == hex_char(hi));
            assert(s[j + 5] == et[5] && et[5] == hex_char(lo));
            assert(hex_val(hex_char(hi)) == hi);
            assert(hex_val(hex_char(lo)) == lo) by {
                if lo < 10 {
                    assert(is_digit(hex_char(lo)));
                } else {
                    assert('a' <= hex_char(lo) && hex_char(lo) <= 'f');
                }
            }
            let ch = ((hi * 16 + lo) as u8) as char;
            let u: u32 = c as u32;
            assert(ch as u32 == u);
            vstd::utf8::char_u32_cast(ch, u);
            vstd::utf8::char_u32_cast(c, u);
            assert(ch == c);
            assert(seq![c] + t.drop_first() =~= t);
        } else {
            assert(s[j + 0] == et[0] && et[0] == c);
            assert(seq![c] + t.drop_first() =~= t);
        }
    }
}

/// Parsing the decimal text of `n` gives `n` back and stops at its end.
proof fn lemma_parse_int_enc(s: Seq<char>, i: int, n: int)
    requires
        i64::MIN <= n <= i64::MAX,
        0 <= i,
        i + enc_int(n).len() <= s.len(),
        forall|k: int| 0 <= k < enc_int(n).len() ==> s[i + k] == #[trigger] enc_int(n)[k],
        value_end(s, i + enc_int(n).len()),
    ensures
        parse_int(s, i) == Some((JsonVal::Int(n), i + enc_int(n).len())),
        s[i] == '-' || is_digit(s[i]),
{
    let en = enc_int(n);
    let e = i + en.len();
    if n < 0 {
        let m = -n;
        let dd = dec_digits(m);
        assert(en == seq!['-'] + dd);
        assert(s[i + 0] == en[0] && en[0] == '-');
        lemma_dec_digits_all(m);
        assert forall|k: int| 0 <= k < dd.len() implies s[(i + 1) + k] == #[trigger] dd[k] by {
            assert(en[1 + k] == dd[k]);
            assert(s[i + (1 + k)] == en[1 + k]);
        }
        assert forall|k: int| i + 1 <= k < e implies is_digit(#[trigger] s[k]) by {
            assert(s[(i + 1) + (k - i - 1)] == dd[k - i - 1]);
        }
        lemma_digits_end_exact(s, i + 1, e);
        lemma_digits_val_of_dec(s, i + 1, m);
    } else {
        let dd = dec_digits(n);
        assert(en == dd);
        lemma_dec_digits_all(n);
        assert(s[i + 0] == en[0]);
        assert(is_digit(s[i]));
        assert forall|k: int| i <= k < e implies is_digit(#[trigger] s[k]) by {
            assert(s[i + (k - i)] == dd[k - i]);
        }
        lemma_digits_end_exact(s, i, e);
        lemma_digits_val_of_dec(s, i, n);
    }
}

/// Parsing the exact wire text of a representable value, wherever it is
/// embedded with a delimiter or the end of the text after it, gives that
/// value back and stops exactly at its end.
proof fn lemma_parse_val_enc(s: Seq<char>, i: int, v: JsonVal)
    requires
        wf_json(v),
        0 <= i,
        i + enc(v).len() <= s.len(),
        forall|k: int| 0 <= k < enc(v).len() ==> s[i + k] == #[trigger] enc(v)[k],
        value_end(s, i + enc(v).len()),
    ensures
        parse_val(s, i) == Some((v, i + enc(v).len())),
    decreases v, 0int,
{
    let ev = enc(v);
    lemma_enc_first(v);
    assert(s[i + 0] == ev[0]);
    match v {
        JsonVal::Null => {
            assert(s[i + 1] == ev[1]);
            assert(s[i + 2] == ev[2]);
            assert(s[i + 3] == ev[3]);
        },
        JsonVal::Bool(b) => {
            assert(s[i + 1] == ev[1]);
            assert(s[i + 2] == ev[2]);
            assert(s[i + 3] == ev[3]);
            if !b {
                assert(s[i + 4] == ev[4]);
            }
        },
        JsonVal::Int(n) => {
            lemma_parse_int_enc(s, i, n);
        },
        JsonVal::Str(t) => {
            let et = enc_str(t);
            assert(ev == seq!['"'] + et + seq!['"']);
            assert forall|k: int| 0 <= k < et.len() implies s[(i + 1) + k] == #[trigger] et[k] by {
                assert(ev[1 + k] == et[k]);
                assert(s[i + (1 + k)] == ev[1 + k]);
            }
            assert(s[(i + 1) + et.len()] == '"') by {
                assert(ev[ev.len() - 1] == '"');
                assert(s[i + (ev.len() - 1)] == ev[ev.len() - 1]);
            }
            lemma_parse_str_enc(s, i + 1, t);
        },
        JsonVal::Arr(items) => {
            let ei = enc_items(items);
            assert(ev == seq!['['] + ei + seq![']']);
            if items.len() == 0 {
                assert(ei.len() == 0);
                assert(s[i + 1] == ev[1] && ev[1] == ']');
                assert(skip_ws(s, i + 1) == i + 1);
                assert(Some((v, i + 2 as int)) == Some((JsonVal::Arr(Seq::<JsonVal>::empty()), i
                    + 2 as int))) by {
                    assert(items =~= Seq::<JsonVal>::empty());
                }
            } else {
                assert forall|k: int| 0 <= k < ei.len() implies s[(i + 1) + k] == #[trigger] ei[
                    k] by {
                    assert(ev[1 + k] == ei[k]);
                    assert(s[i + (1 + k)] == ev[1 + k]);
                }
                assert(s[(i + 1) + ei.len()] == ']') by {
                    assert(ev[ev.len() - 1] == ']');
                    assert(s[i + (ev.len() - 1)] == ev[ev.len() - 1]);
                }
                assert(decreases_to!(v => items));
                lemma_enc_first(items[0]);
                assert(ei[0] == enc(items[0])[0]);
                assert(s[(i + 1) + 0] == ei[0]);
                assert(!is_ws(s[i + 1]) && s[i + 1] != ']');
                assert(skip_ws(s, i + 1) == i + 1);
                lemma_parse_items_enc(s, i + 1, items);
            }
        },
        JsonVal::Obj(pairs) => {
            let em = enc_members(pairs);
            assert(ev == seq!['{'] + em + seq!['}']);
            if pairs.len() == 0 {
                assert(em.len() == 0);
                assert(s[i + 1] == ev[1] && ev[1] == '}');
                assert(skip_ws(s, i + 1) == i + 1);
                assert(Some((v, i + 2 as int)) == Some((JsonVal::Obj(
                    Seq::<(Seq<char>, JsonVal)>::empty()), i + 2 as int))) by {
                    assert(pairs =~= Seq::<(Seq<char>, JsonVal)>::empty());
                }
            } else {
                assert forall|k: int| 0 <= k < em.len() implies s[(i + 1) + k] == #[trigger] em[
                    k] by {
                    assert(ev[1 + k] == em[k]);
                    assert(s[i + (1 + k)] == ev[1 + k]);
                }
                assert(s[(i + 1) + em.len()] == '}') by {
                    assert(ev[ev.len() - 1] == '}');
                    assert(s[i + (ev.len() - 1)] == ev[ev.len() - 1]);
                }
                assert(decreases_to!(v => pairs));
                assert(em[0] == enc_member(pairs[0].0, pairs[0].1)[0]);
                assert(em[0] == '"');
                assert(s[(i + 1) + 0] == em[0]);
                assert(skip_ws(s, i + 1) == i + 1);
                lemma_parse_membs_enc(s, i + 1, pairs);
            }
        },
    }
}

/// Parsing encoded comma-joined elements followed by a closing bracket
/// gives them back in order and stops just past the bracket.
proof fn lemma_parse_items_enc(s: Seq<char>, j: int, items: Seq<JsonVal>)
    requires
        wf_items(items),
        items.len() > 0,
        0 <= j,
        j + enc_items(items).len() + 1 <= s.len(),
        forall|k: int| 0 <= k < enc_items(items).len() ==> s[j + k] == #[trigger] enc_items(
            items)[k],
        s[j + enc_items(items).len()] == ']',
    ensures
        parse_items(s, j) == Some((items, j + enc_items(items).len() + 1)),
    decreases items, 1int,
{
    let ei = enc_items(items);
    let v0 = items[0];
    let e0 = enc(v0);
    assert(wf_json(v0) && wf_items(items.drop_first()));
    if items.len() == 1 {
        assert(ei == e0);
        assert(value_end(s, j + e0.len()));
        lemma_parse_val_enc(s, j, v0);
        assert(skip_ws(s, j + e0.len()) == j + e0.len());
        assert(seq![v0] =~= items);
    } else {
        let rest = items.drop_first();
        let er = enc_items(rest);
        assert(ei == e0 + seq![','] + er);
        assert(s[j + e0.len()] == ',') by {
            assert(ei[e0.len() as int] == ',');
        }
        assert forall|k: int| 0 <= k < e0.len() implies s[j + k] == #[trigger] e0[k] by {
            assert(ei[k] == e0[k]);
        }
        assert(value_end(s, j + e0.len()));
        lemma_parse_val_enc(s, j, v0);
        assert(skip_ws(s, j + e0.len()) == j + e0.len());
        let m = j + e0.len() + 1;
        assert forall|k: int| 0 <= k < er.len() implies s[m + k] == #[trigger] er[k] by {
            assert(ei[(e0.len() + 1) + k] == er[k]);
            assert(s[j + (e0.len() + 1 + k)] == ei[(e0.len() + 1) + k]);
        }
        assert(decreases_to!(items => rest));
        lemma_enc_first(rest[0]);
        assert(er[0] == enc(rest[0])[0]);
        assert(s[m + 0] == er[0]);
        assert(!is_ws(s[m]));
        assert(skip_ws(s, m) == m);
        assert(s[m + er.len()] == ']');
        lemma_parse_items_enc(s, m, rest);
        assert(seq![v0] + rest =~= items);
    }
}

/// Parsing encoded comma-joined members followed by a closing brace gives
/// them back in order and stops just past the brace.
proof fn lemma_parse_membs_enc(s: Seq<char>, j: int, pairs: Seq<(Seq<char>, JsonVal)>)
    requires
        wf_pairs(pairs),
        pairs.len() > 0,
        0 <= j,
        j + enc_members(pairs).len() + 1 <= s.len(),
        forall|k: int| 0 <= k < enc_members(pairs).len() ==> s[j + k] == #[trigger] enc_members(
            pairs)[k],
        s[j + enc_members(pairs).len()] == '}',
    ensures
        parse_membs(s, j) == Some((pairs, j + enc_members(pairs).len() + 1)),
    decreases pairs, 1int,
{
    let em = enc_members(pairs);
    let k0 = pairs[0].0;
    let v0 = pairs[0].1;
    let m0 = enc_member(k0, v0);
    let ek = enc_str(k0);
    let e0 = enc(v0);
    assert(m0 == seq!['"'] + ek + seq!['"', ':'] + e0);
    assert(m0.len() == ek.len() + 3 + e0.len());
    assert(wf_json(v0) && wf_pairs(pairs.drop_first()));
    assert(decreases_to!(pairs => v0)) by {
        assert(decreases_to!(pairs => pairs[0]));
    }
    let after = if pairs.len() == 1 { '}' } else { ',' };
    assert(s[j + m0.len()] == after) by {
        if pairs.len() == 1 {
            assert(em == m0);
        } else {
            assert(em == m0 + seq![','] + enc_members(pairs.drop_first()));
            assert(em[m0.len() as int] == ',');
        }
    }
    assert forall|k: int| 0 <= k < m0.len() implies s[j + k] == #[trigger] m0[k] by {
        assert(em[k] == m0[k]);
    }
    assert(s[j + 0] == m0[0] && m0[0] == '"');
    assert forall|k: int| 0 <= k < ek.len() implies s[(j + 1) + k] == #[trigger] ek[k] by {
        assert(m0[1 + k] == ek[k]);
        assert(s[j + (1 + k)] == m0[1 + k]);
    }
    assert(s[(j + 1) + ek.len()] == '"') by {
        assert(m0[(1 + ek.len()) as int] == '"');
        assert(s[j + (1 + ek.len())] == m0[(1 + ek.len()) as int]);
    }
    lemma_parse_str_enc(s, j + 1, k0);
    let jc = j + 2 + ek.len();
    assert(s[jc] == ':') by {
        assert(m0[(2 + ek.len()) as int] == ':');
        assert(s[j + (2 + ek.len())] == m0[(2 + ek.len()) as int]);
    }
    assert(skip_ws(s, jc) == jc);
    let m = jc + 1;
    assert forall|k: int| 0 <= k < e0.len() implies s[m + k] == #[trigger] e0[k] by {
        assert(m0[(3 + ek.len()) + k] == e0[k]);
        assert(s[j + (3 + ek.len() + k)] == m0[(3 + ek.len()) + k]);
    }
    lemma_enc_first(v0);
    assert(s[m + 0] == e0[0]);
    assert(!is_ws(s[m]));
    assert(skip_ws(s, m) == m);
    assert(m + e0.len() == j + m0.len());
    assert(value_end(s, m + e0.len()));
    lemma_parse_val_enc(s, m, v0);
    let je = m + e0.len();
    assert(skip_ws(s, je) == je);
    if pairs.len() == 1 {
        assert(s[je] == '}');
        assert(seq![(k0, v0)] =~= pairs);
    } else {
        let rest = pairs.drop_first();
        let er = enc_members(rest);
        assert(em == m0 + seq![','] + er);
        assert(s[je] == ',');
        let m2 = je + 1;
        assert forall|k: int| 0 <= k < er.len() implies s[m2 + k] == #[trigger] er[k] by {
            assert(em[(m0.len() + 1) + k] == er[k]);
            assert(s[j + (m0.len() + 1 + k)] == em[(m0.len() + 1) + k]);
        }
        assert(decreases_to!(pairs => rest));
        assert(er[0] == enc_member(rest[0].0, rest[0].1)[0]);
        assert(er[0] == '"');
        assert(s[m2 + 0] == er[0]);
        assert(skip_ws(s, m2) == m2);
        assert(s[m2 + er.len()] == '}');
        lemma_parse_membs_enc(s, m2, rest);
        assert(seq![(k0, v0)] + rest =~= pairs);
    }
}

/// Round trip: parsing the exact wire text of any representable value gives
/// that value back, so a field that was set comes back with its value and a
/// field that was absent stays absent.
pub proof fn lemma_parse_enc(v: JsonVal)
    requires
        wf_json(v),
    ensures
        parse_text(enc(v)) == Some(v),
{
    let s = enc(v);
    lemma_enc_first(v);
    assert(skip_ws(s, 0) == 0);
    assert forall|k: int| 0 <= k < s.len() implies s[0 + k] == #[trigger] s[k] by {}
    lemma_parse_val_enc(s, 0, v);
    assert(skip_ws(s, s.len() as int) == s.len());
}

/// Round trip at the executable level: the model of a rendered JSON value
/// parses back to itself.
pub proof fn lemma_render_parse(j: Json)
    ensures
        parse_text(enc(jview(j))) == Some(jview(j)),
{
    lemma_jview_wf(j);
    lemma_parse_enc(jview(j));
}

} // verus!

//! Base64 encoding, used for the basic-authentication header.

use vstd::prelude::*;

verus! {

/// The base64 alphabet character for a 6-bit value.
pub open spec fn b64_char(d: int) -> char {
    if d < 26 {
        ((65 + d) as u8) as char
    } else if d < 52 {
        ((71 + d) as u8) as char
    } else if d < 62 {
        ((d - 4) as u8) as char
    } else if d == 62 {
        '+'
    } else {
        '/'
    }
}

/// Standard base64 with padding: three bytes become four characters, a final
/// group of one or two bytes is padded with `=`.
pub open spec fn b64(bs: Seq<u8>) -> Seq<char>
    decreases bs.len(),
{
    if bs.len() == 0 {
        Seq::empty()
    } else if bs.len() == 1 {
        let b0 = bs[0] as int;
        seq![b64_char(b0 / 4), b64_char((b0 % 4) * 16), '=', '=']
    } else if bs.len() == 2 {
        let b0 = bs[0] as int;
        let b1 = bs[1] as int;
        seq![b64_char(b0 / 4), b64_char((b0 % 4) * 16 + b1 / 16), b64_char((b1 % 16) * 4), '=']
    } else {
        let b0 = bs[0] as int;
        let b1 = bs[1] as int;
        let b2 = bs[2] as int;
        seq![
            b64_char(b0 / 4),
            b64_char((b0 % 4) * 16 + b1 / 16),
            b64_char((b1 % 16) * 4 + b2 / 64),
            b64_char(b2 % 64),
        ] + b64(bs.skip(3))
    }
}

/// The base64 alphabet character for a 6-bit value.
fn b64_char_exec(d: u8) -> (r: char)
    requires
        d < 64,
    ensures
        r == b64_char(d as int),
{
    if d < 26 {
        (65 + d) as char
    } else if d < 52 {
        (71 + d) as char
    } else if d < 62 {
        (d - 4) as char
    } else if d == 62 {
        '+'
    } else {
        '/'
    }
}

/// The base64 text of a byte sequence.
#[verifier::loop_isolation(false)]
pub fn b64_string(bs: &Vec<u8>) -> (r: String)
    ensures
        r@ == b64(bs@),
{
    let len = bs.len();
    let mut out: Vec<char> = Vec::new();
    let mut i: usize = 0;
    proof {
        assert(bs@.skip(0) =~= bs@);
    }
    while len - i >= 3
        invariant
            i <= len,
            i % 3 == 0,
            len == bs@.len(),
            b64(bs@) == out@ + b64(bs@.skip(i as int)),
        decreases len - i,
    {
        let b0 = bs[i];
        let b1 = bs[i + 1];
        let b2 = bs[i + 2];
        let ghost before = out@;
        out.push(b64_char_exec(b0 / 4));
        out.push(b64_char_exec((b0 % 4) * 16 + b1 / 16));
        out.push(b64_char_exec((b1 % 16) * 4 + b2 / 64));
        out.push(b64_char_exec(b2 % 64));
        proof {
            let rest = bs@.skip(i as int);
            assert(rest[0] == b0 && rest[1] == b1 && rest[2] == b2);
            assert(rest.skip(3) =~= bs@.skip(i + 3 as int));
            assert(out@ =~= before + seq![
                b64_char(b0 as int / 4),
                b64_char((b0 as int % 4) * 16 + b1 as int / 16),
                b64_char((b1 as int % 16) * 4 + b2 as int / 64),
                b64_char(b2 as int % 64),
            ]);
            assert(b64(bs@) == out@ + b64(bs@.skip(i + 3 as int)));
        }
        i = i + 3;
    }
    if len - i == 1 {
        let b0 = bs[i];
        out.push(b64_char_exec(b0 / 4));
        out.push(b64_char_exec((b0 % 4) * 16));
        out.push('=');
        out.push('=');
        proof {
            let rest = bs@.skip(i as int);
            assert(rest.len() == 1 && rest[0] == b0);
            assert(b64(bs@) =~= out@);
        }
    } else if len - i == 2 {
        let b0 = bs[i];
        let b1 = bs[i + 1];
        out.push(b64_char_exec(b0 / 4));
        out.push(b64_char_exec((b0 % 4) * 16 + b1 / 16));
        out.push(b64_char_exec((b1 % 16) * 4));
        out.push('=');
        proof {
            let rest = bs@.skip(i as int);
            assert(rest.len() == 2 && rest[0] == b0 && rest[1] == b1);
            assert(b64(bs@) =~= out@);
        }
    } else {
        proof {
            assert(bs@.skip(i as int).len() == 0);
            assert(b64(bs@) =~= out@);
        }
    }
    crate::json::chars_into_string(&out)
}

} // verus!

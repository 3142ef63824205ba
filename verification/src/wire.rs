//! The wire form of a request: one JSON value, UTF-8 encoded, exactly what
//! the transport writes to the engine process's input. A unit request is a
//! bare JSON string; any other request is an object of one key — the
//! variant — holding an object of its fields, in declaration order.

use vstd::prelude::*;
use vstd::string::StrSliceExecFns;
use vstd::utf8::encode_utf8;

use crate::api::Request;

verus! {

/// The byte of one decimal digit.
pub open spec fn digit_byte(d: int) -> u8 {
    (0x30 + d) as u8
}

/// The byte of one lower-case hexadecimal digit.
pub open spec fn hex_byte(d: int) -> u8 {
    if d < 10 {
        (0x30 + d) as u8
    } else {
        (0x57 + d) as u8
    }
}

/// The decimal rendering of `n` as bytes, most significant digit first,
/// without leading zeroes.
pub open spec fn dec_bytes(n: nat) -> Seq<u8>
    decreases n,
{
    if n < 10 {
        seq![digit_byte(n as int)]
    } else {
        dec_bytes(n / 10).push(digit_byte((n % 10) as int))
    }
}

/// The JSON escape of one byte of UTF-8 text: a quote or backslash gets a
/// backslash, a control byte becomes a `\u00XX` sequence, and every other
/// byte — the bytes of a multibyte character included — passes through.
pub open spec fn esc_byte(b: u8) -> Seq<u8> {
    if b == 0x22 {
        seq![0x5cu8, 0x22u8]
    } else if b == 0x5c {
        seq![0x5cu8, 0x5cu8]
    } else if b < 0x20 {
        seq![0x5cu8, 0x75u8, 0x30u8, 0x30u8, hex_byte(b as int / 16), hex_byte(b as int % 16)]
    } else {
        seq![b]
    }
}

/// The JSON escape of a whole byte string.
pub open spec fn esc_bytes(s: Seq<u8>) -> Seq<u8>
    decreases s.len(),
{
    if s.len() == 0 {
        Seq::empty()
    } else {
        esc_bytes(s.drop_last()) + esc_byte(s.last())
    }
}

/// A JSON string: the escaped bytes between quotes.
pub open spec fn json_string(s: Seq<u8>) -> Seq<u8> {
    seq![0x22u8] + esc_bytes(s) + seq![0x22u8]
}

/// The elements of a JSON array of strings, comma separated.
pub open spec fn json_strings_inner(ns: Seq<String>) -> Seq<u8>
    decreases ns.len(),
{
    if ns.len() == 0 {
        Seq::empty()
    } else if ns.len() == 1 {
        json_string(encode_utf8(ns.last()@))
    } else {
        json_strings_inner(ns.drop_last()) + seq![0x2cu8] + json_string(encode_utf8(ns.last()@))
    }
}

/// A JSON array of strings.
pub open spec fn json_strings(ns: Seq<String>) -> Seq<u8> {
    seq![0x5bu8] + json_strings_inner(ns) + seq![0x5du8]
}

/// The wire form of each request.
pub open spec fn json_of_request(req: Request) -> Seq<u8> {
    match req {
        Request::PlayerCounts => encode_utf8("\"PlayerCounts\""@),
        Request::New { players } => encode_utf8("{\"New\":{\"players\":"@) + dec_bytes(
            players as nat,
        ) + encode_utf8("}}"@),
        Request::Status { game } => encode_utf8("{\"Status\":{\"game\":"@) + json_string(
            encode_utf8(game@),
        ) + encode_utf8("}}"@),
        Request::Play { player, command, names, game } => encode_utf8(
            "{\"Play\":{\"player\":"@,
        ) + dec_bytes(player as nat) + encode_utf8(",\"command\":"@) + json_string(
            encode_utf8(command@),
        ) + encode_utf8(",\"names\":"@) + json_strings(names@) + encode_utf8(",\"game\":"@)
            + json_string(encode_utf8(game@)) + encode_utf8("}}"@),
        Request::PubRender { game } => encode_utf8("{\"PubRender\":{\"game\":"@) + json_string(
            encode_utf8(game@),
        ) + encode_utf8("}}"@),
        Request::PlayerRender { player, game } => encode_utf8(
            "{\"PlayerRender\":{\"player\":"@,
        ) + dec_bytes(player as nat) + encode_utf8(",\"game\":"@) + json_string(encode_utf8(game@))
            + encode_utf8("}}"@),
    }
}

/// Appends the UTF-8 bytes of `s`.
fn push_text(out: &mut Vec<u8>, s: &str)
    ensures
        final(out)@ == old(out)@ + encode_utf8(s@),
{
    let bytes = s.as_bytes_vec();
    let mut i: usize = 0;
    while i < bytes.len()
        invariant
            i <= bytes@.len(),
            bytes@ == encode_utf8(s@),
            out@ == old(out)@ + bytes@.take(i as int),
        decreases bytes@.len() - i,
    {
        let b = bytes[i];
        out.push(b);
        proof {
            assert(out@ =~= old(out)@ + bytes@.take(i + 1));
        }
        i += 1;
    }
    proof {
        assert(out@ =~= old(out)@ + bytes@);
    }
}

/// Appends the decimal rendering of `n`.
fn push_decimal(out: &mut Vec<u8>, n: usize)
    ensures
        final(out)@ == old(out)@ + dec_bytes(n as nat),
{
    let mut digits: Vec<u8> = Vec::new();
    let mut m: usize = n;
    while m > 0 || digits.len() == 0
        invariant
            forall|j: int| 0 <= j < digits@.len() ==> digits@[j] < 10,
            digits@.len() == 0 ==> m == n,
            digits@.len() > 0 ==> dec_bytes(n as nat) == if m == 0 {
                rev_digit_bytes(digits@)
            } else {
                dec_bytes(m as nat) + rev_digit_bytes(digits@)
            },
        decreases m + (if digits.len() == 0 { 1int } else { 0int }),
    {
        let ghost prev = digits@;
        let ghost pm = m as nat;
        digits.push((m % 10) as u8);
        m = m / 10;
        proof {
            let ds = digits@;
            assert forall|i: int| 0 <= i < ds.len() implies #[trigger] rev_digit_bytes(
                ds,
            )[i] == (if i == 0 {
                digit_byte((pm % 10) as int)
            } else {
                rev_digit_bytes(prev)[i - 1]
            }) by {
                if i == 0 {
                    assert(ds[ds.len() - 1] == (pm % 10) as u8);
                } else {
                    assert(ds[ds.len() - 1 - i] == prev[prev.len() - 1 - (i - 1)]);
                }
            }
            assert(rev_digit_bytes(ds) =~= seq![digit_byte((pm % 10) as int)] + rev_digit_bytes(
                prev,
            ));
            if pm >= 10 {
                assert(dec_bytes(pm) =~= dec_bytes(pm / 10) + seq![digit_byte((pm % 10) as int)]);
            }
            assert(dec_bytes(n as nat) =~= if m == 0 {
                rev_digit_bytes(ds)
            } else {
                dec_bytes(m as nat) + rev_digit_bytes(ds)
            });
        }
    }
    let mut i = digits.len();
    while i > 0
        invariant
            i <= digits@.len(),
            forall|j: int| 0 <= j < digits@.len() ==> digits@[j] < 10,
            dec_bytes(n as nat) == rev_digit_bytes(digits@),
            out@ =~= old(out)@ + rev_digit_bytes(digits@).subrange(0, digits@.len() - i),
        decreases i,
    {
        i -= 1;
        let d = digits[i];
        out.push(0x30 + d);
        proof {
            let full = rev_digit_bytes(digits@);
            assert(full[digits@.len() - 1 - i] == digit_byte(digits@[i as int] as int));
            assert(out@ =~= old(out)@ + full.subrange(0, digits@.len() - i));
        }
    }
    proof {
        assert(out@ =~= old(out)@ + rev_digit_bytes(digits@));
    }
}

/// The digit bytes of `ds` read from the last to the first: `ds` holds the
/// low-order digit first, the rendering wants it last.
spec fn rev_digit_bytes(ds: Seq<u8>) -> Seq<u8> {
    Seq::new(ds.len(), |i: int| digit_byte(ds[ds.len() - 1 - i] as int))
}

/// Appends one escaped, quoted JSON string.
fn push_json_string(out: &mut Vec<u8>, s: &str)
    ensures
        final(out)@ == old(out)@ + json_string(encode_utf8(s@)),
{
    out.push(0x22);
    let bytes = s.as_bytes_vec();
    let mut i: usize = 0;
    while i < bytes.len()
        invariant
            i <= bytes@.len(),
            bytes@ == encode_utf8(s@),
            out@ == old(out)@ + seq![0x22u8] + esc_bytes(bytes@.take(i as int)),
        decreases bytes@.len() - i,
    {
        let ghost pre = bytes@.take(i as int);
        let b = bytes[i];
        if b == 0x22 {
            out.push(0x5c);
            out.push(0x22);
        } else if b == 0x5c {
            out.push(0x5c);
            out.push(0x5c);
        } else if b < 0x20 {
            out.push(0x5c);
            out.push(0x75);
            out.push(0x30);
            out.push(0x30);
            let hi = b / 16;
            let lo = b % 16;
            out.push(if hi < 10 { 0x30 + hi } else { 0x57 + hi });
            out.push(if lo < 10 { 0x30 + lo } else { 0x57 + lo });
        } else {
            out.push(b);
        }
        proof {
            assert(bytes@.take(i + 1).drop_last() =~= pre);
            assert(bytes@.take(i + 1).last() == bytes@[i as int]);
            assert(esc_bytes(bytes@.take(i + 1)) == esc_bytes(pre) + esc_byte(bytes@[i as int]));
            assert(out@ =~= old(out)@ + seq![0x22u8] + esc_bytes(bytes@.take(i + 1)));
        }
        i += 1;
    }
    out.push(0x22);
    proof {
        assert(bytes@.take(bytes@.len() as int) =~= bytes@);
        assert(out@ =~= old(out)@ + json_string(encode_utf8(s@)));
    }
}

/// Appends a JSON array of strings.
fn push_json_strings(out: &mut Vec<u8>, ns: &Vec<String>)
    ensures
        final(out)@ == old(out)@ + json_strings(ns@),
{
    out.push(0x5b);
    let mut i: usize = 0;
    while i < ns.len()
        invariant
            i <= ns@.len(),
            out@ == old(out)@ + seq![0x5bu8] + json_strings_inner(ns@.take(i as int)),
        decreases ns@.len() - i,
    {
        let ghost pre = ns@.take(i as int);
        if i > 0 {
            out.push(0x2c);
        }
        push_json_string(out, ns[i].as_str());
        proof {
            assert(ns@.take(i + 1).drop_last() =~= pre);
            assert(ns@.take(i + 1).last() == ns@[i as int]);
            if i == 0 {
                assert(json_strings_inner(ns@.take(1)) == json_string(
                    encode_utf8(ns@[0]@),
                ));
            } else {
                assert(json_strings_inner(ns@.take(i + 1)) == json_strings_inner(pre)
                    + seq![0x2cu8] + json_string(encode_utf8(ns@[i as int]@)));
            }
            assert(out@ =~= old(out)@ + seq![0x5bu8] + json_strings_inner(ns@.take(i + 1)));
        }
        i += 1;
    }
    out.push(0x5d);
    proof {
        assert(ns@.take(ns@.len() as int) =~= ns@);
        assert(out@ =~= old(out)@ + json_strings(ns@));
    }
}

/// The JSON encoding of one request: exactly the bytes of
/// `json_of_request`, which the transport writes, whole, to the engine
/// process.
pub fn encode_request(req: &Request) -> (r: Vec<u8>)
    ensures
        r@ == json_of_request(*req),
{
    let mut out: Vec<u8> = Vec::new();
    match req {
        Request::PlayerCounts => {
            push_text(&mut out, "\"PlayerCounts\"");
        },
        Request::New { players } => {
            push_text(&mut out, "{\"New\":{\"players\":");
            push_decimal(&mut out, *players);
            push_text(&mut out, "}}");
        },
        Request::Status { game } => {
            push_text(&mut out, "{\"Status\":{\"game\":");
            push_json_string(&mut out, game.as_str());
            push_text(&mut out, "}}");
        },
        Request::Play { player, command, names, game } => {
            push_text(&mut out, "{\"Play\":{\"player\":");
            push_decimal(&mut out, *player);
            push_text(&mut out, ",\"command\":");
            push_json_string(&mut out, command.as_str());
            push_text(&mut out, ",\"names\":");
            push_json_strings(&mut out, names);
            push_text(&mut out, ",\"game\":");
            push_json_string(&mut out, game.as_str());
            push_text(&mut out, "}}");
        },
        Request::PubRender { game } => {
            push_text(&mut out, "{\"PubRender\":{\"game\":");
            push_json_string(&mut out, game.as_str());
            push_text(&mut out, "}}");
        },
        Request::PlayerRender { player, game } => {
            push_text(&mut out, "{\"PlayerRender\":{\"player\":");
            push_decimal(&mut out, *player);
            push_text(&mut out, ",\"game\":");
            push_json_string(&mut out, game.as_str());
            push_text(&mut out, "}}");
        },
    }
    proof {
        assert(out@ =~= json_of_request(*req));
    }
    out
}

} // verus!

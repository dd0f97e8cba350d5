//! Verified rendering of the outbound JSON payloads.
//!
//! The canonical response shape is the nested envelope
//! `{"type":"bitcoin_lookup_response","status":...,"req":...,"result":...,"error":...}`,
//! with `result` holding `confirmed_balance`, `unconfirmed_balance` and the
//! sorted `transactions` list on success, and `error` holding a code on
//! failure. Every byte of it is produced by verified code: numbers in
//! canonical decimal, strings escaped exactly as the JSON grammar demands.

use vstd::prelude::*;

use crate::orchestrator::LookupResult;
use crate::order::views_of;

verus! {

/// Hexadecimal digit character (lowercase) for a value below 16.
pub open spec fn hex_digit(d: int) -> char {
    if d < 10 {
        ((48 + d) as u8) as char
    } else {
        ((87 + d) as u8) as char
    }
}

/// Decimal digit character for a value below 10.
pub open spec fn digit_char(d: int) -> char {
    ((48 + d) as u8) as char
}

/// Canonical decimal rendering of a nonnegative number.
pub open spec fn dec_of(n: int) -> Seq<char>
    decreases n,
{
    if n < 10 {
        seq![digit_char(n)]
    } else {
        dec_of(n / 10).push(digit_char(n % 10))
    }
}

/// What one character contributes to a JSON string literal: quotes and
/// backslashes get a backslash escape, control characters their short escape
/// or a `\u00..` escape, everything else passes through.
pub open spec fn escaped_char(c: char) -> Seq<char> {
    if c == '"' {
        seq!['\\', '"']
    } else if c == '\\' {
        seq!['\\', '\\']
    } else if c as int == 8 {
        seq!['\\', 'b']
    } else if c as int == 9 {
        seq!['\\', 't']
    } else if c as int == 10 {
        seq!['\\', 'n']
    } else if c as int == 12 {
        seq!['\\', 'f']
    } else if c as int == 13 {
        seq!['\\', 'r']
    } else if (c as int) < 32 {
        seq!['\\', 'u', '0', '0', hex_digit((c as int) / 16), hex_digit((c as int) % 16)]
    } else {
        seq![c]
    }
}

/// A string's characters, escaped for a JSON string literal.
pub open spec fn json_escaped(s: Seq<char>) -> Seq<char>
    decreases s.len(),
{
    if s.len() == 0 {
        Seq::empty()
    } else {
        escaped_char(s[0]) + json_escaped(s.skip(1))
    }
}

/// A JSON string literal: quotes around the escaped characters.
pub open spec fn quoted(s: Seq<char>) -> Seq<char> {
    seq!['"'] + json_escaped(s) + seq!['"']
}

/// The members of a JSON array of string literals, comma separated.
pub open spec fn string_array_items(items: Seq<Seq<char>>) -> Seq<char>
    decreases items.len(),
{
    if items.len() == 0 {
        Seq::empty()
    } else if items.len() == 1 {
        quoted(items[0])
    } else {
        string_array_items(items.drop_last()) + seq![','] + quoted(items.last())
    }
}

/// A JSON array of string literals.
pub open spec fn string_array(items: Seq<Seq<char>>) -> Seq<char> {
    seq!['['] + string_array_items(items) + seq![']']
}

/// Relies on String::push: appending one character to a string.
#[verifier::external_body]
fn push_char(s: &mut String, c: char)
    ensures
        final(s)@ == old(s)@.push(c),
{
    s.push(c);
}

/// Append the canonical decimal rendering of `n`.
pub(crate) fn append_dec(out: &mut String, n: u64)
    ensures
        final(out)@ == old(out)@ + dec_of(n as int),
    decreases n,
{
    if n < 10 {
        let d: u8 = 48 + (n as u8);
        push_char(out, d as char);
        proof {
            assert(old(out)@ + dec_of(n as int) =~= old(out)@.push(digit_char(n as int)));
        }
    } else {
        append_dec(out, n / 10);
        let d: u8 = 48 + ((n % 10) as u8);
        push_char(out, d as char);
        proof {
            assert(old(out)@ + dec_of(n as int) =~= (old(out)@ + dec_of((n as int) / 10)).push(
                digit_char((n as int) % 10),
            ));
        }
    }
}

/// Render a number as canonical decimal.
pub fn u64_to_dec(n: u64) -> (r: String)
    ensures
        r@ == dec_of(n as int),
{
    let mut out = String::new();
    append_dec(&mut out, n);
    proof {
        assert(Seq::<char>::empty() + dec_of(n as int) =~= dec_of(n as int));
    }
    out
}

/// Append one character's escape sequence.
fn append_escaped_char(out: &mut String, c: char)
    ensures
        final(out)@ == old(out)@ + escaped_char(c),
{
    let code = c as u32;
    if c == '"' {
        out.append("\\\"");
        proof {
            reveal_strlit("\\\"");
            assert(old(out)@ + escaped_char(c) =~= old(out)@ + "\\\""@);
        }
    } else if c == '\\' {
        out.append("\\\\");
        proof {
            reveal_strlit("\\\\");
            assert(old(out)@ + escaped_char(c) =~= old(out)@ + "\\\\"@);
        }
    } else if code == 8 {
        out.append("\\b");
        proof {
            reveal_strlit("\\b");
            assert(old(out)@ + escaped_char(c) =~= old(out)@ + "\\b"@);
        }
    } else if code == 9 {
        out.append("\\t");
        proof {
            reveal_strlit("\\t");
            assert(old(out)@ + escaped_char(c) =~= old(out)@ + "\\t"@);
        }
    } else if code == 10 {
        out.append("\\n");
        proof {
            reveal_strlit("\\n");
            assert(old(out)@ + escaped_char(c) =~= old(out)@ + "\\n"@);
        }
    } else if code == 12 {
        out.append("\\f");
        proof {
            reveal_strlit("\\f");
            assert(old(out)@ + escaped_char(c) =~= old(out)@ + "\\f"@);
        }
    } else if code == 13 {
        out.append("\\r");
        proof {
            reveal_strlit("\\r");
            assert(old(out)@ + escaped_char(c) =~= old(out)@ + "\\r"@);
        }
    } else if code < 32 {
        out.append("\\u00");
        let hi: u8 = (code / 16) as u8;
        let lo: u8 = (code % 16) as u8;
        let hi_ch: u8 = if hi < 10 {
            48 + hi
        } else {
            87 + hi
        };
        let lo_ch: u8 = if lo < 10 {
            48 + lo
        } else {
            87 + lo
        };
        push_char(out, hi_ch as char);
        push_char(out, lo_ch as char);
        proof {
            reveal_strlit("\\u00");
            assert(old(out)@ + escaped_char(c) =~= ((old(out)@ + "\\u00"@).push(
                hex_digit((c as int) / 16),
            )).push(hex_digit((c as int) % 16)));
        }
    } else {
        push_char(out, c);
        proof {
            assert(old(out)@ + escaped_char(c) =~= old(out)@.push(c));
        }
    }
}

/// Append a JSON string literal for `s`.
pub(crate) fn append_quoted(out: &mut String, s: &str)
    ensures
        final(out)@ == old(out)@ + quoted(s@),
{
    out.append("\"");
    let n = s.unicode_len();
    let mut i: usize = 0;
    proof {
        reveal_strlit("\"");
        assert(out@ + json_escaped(s@.subrange(0, 0)) =~= out@);
    }
    while i < n
        invariant
            i <= n,
            n == s@.len(),
            out@ == old(out)@ + "\""@ + json_escaped(s@.subrange(0, i as int)),
        decreases n - i,
    {
        let c = s.get_char(i);
        let ghost pre = s@.subrange(0, i as int);
        append_escaped_char(out, c);
        proof {
            lemma_json_escaped_snoc(s@.subrange(0, i + 1));
            assert(s@.subrange(0, i + 1).drop_last() =~= pre);
            assert(s@.subrange(0, i + 1).last() == s@[i as int]);
            assert(out@ =~= old(out)@ + "\""@ + json_escaped(s@.subrange(0, i + 1)));
        }
        i = i + 1;
    }
    out.append("\"");
    proof {
        assert(s@.subrange(0, s@.len() as int) =~= s@);
        assert(old(out)@ + quoted(s@) =~= (old(out)@ + "\""@ + json_escaped(s@)) + "\""@);
    }
}

/// Escaping a string escapes its last character last.
proof fn lemma_json_escaped_snoc(s: Seq<char>)
    requires
        s.len() > 0,
    ensures
        json_escaped(s) == json_escaped(s.drop_last()) + escaped_char(s.last()),
    decreases s.len(),
{
    if s.len() == 1 {
        assert(s.drop_last() =~= Seq::<char>::empty());
        assert(s.skip(1) =~= Seq::<char>::empty());
        assert(json_escaped(s.drop_last()) + escaped_char(s.last()) =~= escaped_char(s[0])
            + json_escaped(s.skip(1)));
    } else {
        lemma_json_escaped_snoc(s.skip(1));
        assert(s.skip(1).drop_last() =~= s.drop_last().skip(1));
        assert(s.skip(1).last() == s.last());
        assert(s.drop_last()[0] == s[0]);
        assert(json_escaped(s) =~= json_escaped(s.drop_last()) + escaped_char(s.last()));
    }
}

/// Append a JSON array holding a string literal per item.
pub(crate) fn append_string_array(out: &mut String, items: &Vec<String>)
    ensures
        final(out)@ == old(out)@ + string_array(views_of(items@)),
{
    out.append("[");
    proof {
        reveal_strlit("[");
        reveal_strlit("]");
        reveal_strlit(",");
        assert(views_of(items@.subrange(0, 0)) =~= Seq::<Seq<char>>::empty());
        assert(out@ + string_array_items(views_of(items@.subrange(0, 0))) =~= out@);
    }
    let mut i: usize = 0;
    while i < items.len()
        invariant
            i <= items@.len(),
            out@ == old(out)@ + "["@ + string_array_items(views_of(items@.subrange(0, i as int))),
        decreases items@.len() - i,
    {
        let ghost pre = views_of(items@.subrange(0, i as int));
        if i > 0 {
            out.append(",");
        }
        append_quoted(out, items[i].as_str());
        proof {
            let cur = views_of(items@.subrange(0, i + 1));
            assert(cur.drop_last() =~= pre);
            assert(cur.last() == items@[i as int]@);
            if i == 0 {
                assert(cur.len() == 1);
                assert(string_array_items(cur) == quoted(cur[0]));
                assert(out@ =~= old(out)@ + "["@ + string_array_items(cur));
            } else {
                reveal_strlit(",");
                assert(string_array_items(cur) == string_array_items(pre) + seq![','] + quoted(
                    items@[i as int]@,
                ));
                assert(","@ =~= seq![',']);
                assert(out@ =~= old(out)@ + "["@ + string_array_items(cur));
            }
        }
        i = i + 1;
    }
    out.append("]");
    proof {
        assert(items@.subrange(0, items@.len() as int) =~= items@);
        assert(old(out)@ + string_array(views_of(items@)) =~= (old(out)@ + "["@
            + string_array_items(views_of(items@))) + "]"@);
    }
}

/// The canonical success payload for a request tag and a lookup result.
pub open spec fn spec_render_ok(
    req: Seq<char>,
    confirmed: u64,
    unconfirmed: u64,
    txs: Seq<Seq<char>>,
) -> Seq<char> {
    "{\"type\":\"bitcoin_lookup_response\",\"status\":\"ok\",\"req\":"@ + quoted(req)
        + ",\"result\":{\"confirmed_balance\":"@ + dec_of(confirmed as int)
        + ",\"unconfirmed_balance\":"@ + dec_of(unconfirmed as int) + ",\"transactions\":"@
        + string_array(txs) + "},\"error\":null}"@
}

/// The canonical error payload for a request tag and an error code.
pub open spec fn spec_render_error(req: Seq<char>, code: Seq<char>) -> Seq<char> {
    "{\"type\":\"bitcoin_lookup_response\",\"status\":\"error\",\"req\":"@ + quoted(req)
        + ",\"result\":null,\"error\":"@ + quoted(code) + "}"@
}

/// Render the success response payload.
pub fn render_ok_response(req: &String, result: &LookupResult) -> (r: String)
    ensures
        r@ == spec_render_ok(
            req@,
            result.confirmed_balance,
            result.unconfirmed_balance,
            views_of(result.transactions@),
        ),
{
    let mut out = String::new();
    out.append("{\"type\":\"bitcoin_lookup_response\",\"status\":\"ok\",\"req\":");
    append_quoted(&mut out, req.as_str());
    out.append(",\"result\":{\"confirmed_balance\":");
    append_dec(&mut out, result.confirmed_balance);
    out.append(",\"unconfirmed_balance\":");
    append_dec(&mut out, result.unconfirmed_balance);
    out.append(",\"transactions\":");
    append_string_array(&mut out, &result.transactions);
    out.append("},\"error\":null}");
    proof {
        assert(out@ =~= spec_render_ok(
            req@,
            result.confirmed_balance,
            result.unconfirmed_balance,
            views_of(result.transactions@),
        ));
    }
    out
}

/// Render the error response payload.
pub fn render_error_response(req: &String, code: &String) -> (r: String)
    ensures
        r@ == spec_render_error(req@, code@),
{
    let mut out = String::new();
    out.append("{\"type\":\"bitcoin_lookup_response\",\"status\":\"error\",\"req\":");
    append_quoted(&mut out, req.as_str());
    out.append(",\"result\":null,\"error\":");
    append_quoted(&mut out, code.as_str());
    out.append("}");
    proof {
        assert(out@ =~= spec_render_error(req@, code@));
    }
    out
}

} // verus!

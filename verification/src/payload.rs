//! The JSON body of a trace request.
//!
//! The body has a fixed shape: `{"source_id":"<escaped>","max_hops":5,
//! "min_amount":0}`. Only the source identifier varies, and it is escaped as
//! JSON requires: `"` and `\` get a backslash, the named control characters
//! get their short escapes, every other control character below `0x20`
//! becomes `\u00` and two lowercase hex digits.

use vstd::prelude::*;
use vstd::string::*;

verus! {

/// The lowercase hex digit with value `n` (for `0 <= n < 16`).
pub open spec fn hex_digit(n: int) -> char
    recommends
        0 <= n < 16,
{
    if n == 0 {
        '0'
    } else if n == 1 {
        '1'
    } else if n == 2 {
        '2'
    } else if n == 3 {
        '3'
    } else if n == 4 {
        '4'
    } else if n == 5 {
        '5'
    } else if n == 6 {
        '6'
    } else if n == 7 {
        '7'
    } else if n == 8 {
        '8'
    } else if n == 9 {
        '9'
    } else if n == 10 {
        'a'
    } else if n == 11 {
        'b'
    } else if n == 12 {
        'c'
    } else if n == 13 {
        'd'
    } else if n == 14 {
        'e'
    } else {
        'f'
    }
}

/// How one character appears inside a JSON string literal.
pub open spec fn escape_char(c: char) -> Seq<char> {
    if c == '"' {
        seq!['\\', '"']
    } else if c == '\\' {
        seq!['\\', '\\']
    } else if c == '\u{08}' {
        seq!['\\', 'b']
    } else if c == '\t' {
        seq!['\\', 't']
    } else if c == '\n' {
        seq!['\\', 'n']
    } else if c == '\u{0C}' {
        seq!['\\', 'f']
    } else if c == '\r' {
        seq!['\\', 'r']
    } else if (c as u32) < 0x20 {
        seq!['\\', 'u', '0', '0', hex_digit((c as u32) as int / 16), hex_digit((c as u32) as int % 16)]
    } else {
        seq![c]
    }
}

/// How a whole string appears inside a JSON string literal: each character
/// escaped, in order.
pub open spec fn escape_json(s: Seq<char>) -> Seq<char>
    decreases s.len(),
{
    if s.len() == 0 {
        Seq::empty()
    } else {
        escape_json(s.drop_last()) + escape_char(s.last())
    }
}

/// What the body holds before the escaped source identifier.
pub open spec fn spec_body_prefix() -> Seq<char> {
    "{\"source_id\":\""@
}

/// What the body holds after the escaped source identifier: the closing
/// quote and the fixed `max_hops` and `min_amount` fields.
pub open spec fn spec_body_suffix() -> Seq<char> {
    "\",\"max_hops\":5,\"min_amount\":0}"@
}

/// The full JSON body sent for a given source identifier.
pub open spec fn spec_trace_body(sid: Seq<char>) -> Seq<char> {
    spec_body_prefix() + escape_json(sid) + spec_body_suffix()
}

/// Law: whatever the source identifier, the body begins with
/// `{"source_id":"`, ends with `","max_hops":5,"min_amount":0}`, and holds
/// exactly the escaped source identifier in between. In particular the body
/// always carries `max_hops = 5` and `min_amount = 0`.
pub proof fn lemma_body_fixed_fields(sid: Seq<char>)
    ensures
        spec_trace_body(sid).len() == spec_body_prefix().len() + escape_json(sid).len()
            + spec_body_suffix().len(),
        spec_trace_body(sid).take(spec_body_prefix().len() as int) == spec_body_prefix(),
        spec_trace_body(sid).skip(
            spec_trace_body(sid).len() - spec_body_suffix().len(),
        ) == spec_body_suffix(),
        spec_trace_body(sid).subrange(
            spec_body_prefix().len() as int,
            spec_trace_body(sid).len() - spec_body_suffix().len(),
        ) == escape_json(sid),
{
    let b = spec_trace_body(sid);
    assert(b.take(spec_body_prefix().len() as int) =~= spec_body_prefix());
    assert(b.skip(b.len() - spec_body_suffix().len()) =~= spec_body_suffix());
    assert(b.subrange(spec_body_prefix().len() as int, b.len() - spec_body_suffix().len())
        =~= escape_json(sid));
}

/// Relies on `String::push`: it appends the given character to the end of
/// the string.
#[verifier::external_body]
fn push_char(s: &mut String, c: char)
    ensures
        final(s)@ == old(s)@ + seq![c],
{
    s.push(c);
}

/// The lowercase hex digit with value `n`.
fn hex_digit_char(n: u32) -> (c: char)
    requires
        n < 16,
    ensures
        c == hex_digit(n as int),
{
    if n == 0 {
        '0'
    } else if n == 1 {
        '1'
    } else if n == 2 {
        '2'
    } else if n == 3 {
        '3'
    } else if n == 4 {
        '4'
    } else if n == 5 {
        '5'
    } else if n == 6 {
        '6'
    } else if n == 7 {
        '7'
    } else if n == 8 {
        '8'
    } else if n == 9 {
        '9'
    } else if n == 10 {
        'a'
    } else if n == 11 {
        'b'
    } else if n == 12 {
        'c'
    } else if n == 13 {
        'd'
    } else if n == 14 {
        'e'
    } else {
        'f'
    }
}

/// Appends the JSON escape of `c` to `out`.
fn push_escaped(out: &mut String, c: char)
    ensures
        final(out)@ == old(out)@ + escape_char(c),
{
    if c == '"' {
        push_char(out, '\\');
        push_char(out, '"');
    } else if c == '\\' {
        push_char(out, '\\');
        push_char(out, '\\');
    } else if c == '\u{08}' {
        push_char(out, '\\');
        push_char(out, 'b');
    } else if c == '\t' {
        push_char(out, '\\');
        push_char(out, 't');
    } else if c == '\n' {
        push_char(out, '\\');
        push_char(out, 'n');
    } else if c == '\u{0C}' {
        push_char(out, '\\');
        push_char(out, 'f');
    } else if c == '\r' {
        push_char(out, '\\');
        push_char(out, 'r');
    } else if (c as u32) < 0x20 {
        let v = c as u32;
        push_char(out, '\\');
        push_char(out, 'u');
        push_char(out, '0');
        push_char(out, '0');
        push_char(out, hex_digit_char(v / 16));
        push_char(out, hex_digit_char(v % 16));
    } else {
        push_char(out, c);
    }
    assert(out@ =~= old(out)@ + escape_char(c));
}

/// The JSON body of a trace request for `source_id`: the fixed-shape record
/// `{"source_id": ..., "max_hops": 5, "min_amount": 0}`, serialized without
/// spaces and with the source identifier escaped.
pub fn trace_body(source_id: &str) -> (r: String)
    ensures
        r@ == spec_trace_body(source_id@),
{
    let mut out = String::from_str("{\"source_id\":\"");
    let len = source_id.unicode_len();
    let mut i: usize = 0;
    while i < len
        invariant
            i <= len,
            len == source_id@.len(),
            out@ == spec_body_prefix() + escape_json(source_id@.take(i as int)),
        decreases len - i,
    {
        let c = source_id.get_char(i);
        push_escaped(&mut out, c);
        proof {
            let pre = source_id@.take(i as int);
            let post = source_id@.take(i + 1 as int);
            assert(post.drop_last() =~= pre);
            assert(post.last() == source_id@[i as int]);
            assert(out@ =~= spec_body_prefix() + escape_json(post));
        }
        i = i + 1;
    }
    proof {
        assert(source_id@.take(len as int) =~= source_id@);
    }
    let r = out.concat("\",\"max_hops\":5,\"min_amount\":0}");
    assert(r@ =~= spec_trace_body(source_id@));
    r
}

} // verus!

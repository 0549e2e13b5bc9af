use vstd::prelude::*;
use vstd::string::*;
use crate::handle::{GenerateResponse, GenerateResponseView, ModelInfo};

verus! {

/// The hexadecimal digit for `d`, lower case.
pub open spec fn hex_digit(d: int) -> char {
    if d == 0 {
        '0'
    } else if d == 1 {
        '1'
    } else if d == 2 {
        '2'
    } else if d == 3 {
        '3'
    } else if d == 4 {
        '4'
    } else if d == 5 {
        '5'
    } else if d == 6 {
        '6'
    } else if d == 7 {
        '7'
    } else if d == 8 {
        '8'
    } else if d == 9 {
        '9'
    } else if d == 10 {
        'a'
    } else if d == 11 {
        'b'
    } else if d == 12 {
        'c'
    } else if d == 13 {
        'd'
    } else if d == 14 {
        'e'
    } else {
        'f'
    }
}

/// How one character is written inside a JSON string: quote and backslash get
/// a backslash escape, the named control characters get their short escapes,
/// the remaining control characters a `\u00..` escape, and every other
/// character stands as itself.
pub open spec fn json_escape_char(c: char) -> Seq<char> {
    if c == '"' {
        seq!['\\', '"']
    } else if c == '\\' {
        seq!['\\', '\\']
    } else if c == '\u{8}' {
        seq!['\\', 'b']
    } else if c == '\t' {
        seq!['\\', 't']
    } else if c == '\n' {
        seq!['\\', 'n']
    } else if c == '\u{c}' {
        seq!['\\', 'f']
    } else if c == '\r' {
        seq!['\\', 'r']
    } else if (c as u32) < 0x20 {
        seq!['\\', 'u', '0', '0', hex_digit(c as u32 as int / 16), hex_digit(c as u32 as int % 16)]
    } else {
        seq![c]
    }
}

/// The body of a JSON string holding the characters of `s`, escaped.
pub open spec fn json_escape(s: Seq<char>) -> Seq<char>
    decreases s.len(),
{
    if s.len() == 0 {
        Seq::empty()
    } else {
        json_escape(s.drop_last()) + json_escape_char(s.last())
    }
}

/// The decimal digit character for `d`.
pub open spec fn dec_digit(d: int) -> char {
    if d == 0 {
        '0'
    } else if d == 1 {
        '1'
    } else if d == 2 {
        '2'
    } else if d == 3 {
        '3'
    } else if d == 4 {
        '4'
    } else if d == 5 {
        '5'
    } else if d == 6 {
        '6'
    } else if d == 7 {
        '7'
    } else if d == 8 {
        '8'
    } else {
        '9'
    }
}

/// The decimal representation of `n`, most significant digit first, no sign
/// and no leading zero (a single `0` for zero).
pub open spec fn dec_rep(n: nat) -> Seq<char>
    decreases n,
{
    if n < 10 {
        seq![dec_digit(n as int)]
    } else {
        dec_rep(n / 10).push(dec_digit((n % 10) as int))
    }
}

/// The JSON text of a boolean.
pub open spec fn bool_text(b: bool) -> Seq<char> {
    if b {
        "true"@
    } else {
        "false"@
    }
}

fn hex_char(d: u8) -> (r: char)
    requires
        d < 16,
    ensures
        r == hex_digit(d as int),
{
    if d == 0 {
        '0'
    } else if d == 1 {
        '1'
    } else if d == 2 {
        '2'
    } else if d == 3 {
        '3'
    } else if d == 4 {
        '4'
    } else if d == 5 {
        '5'
    } else if d == 6 {
        '6'
    } else if d == 7 {
        '7'
    } else if d == 8 {
        '8'
    } else if d == 9 {
        '9'
    } else if d == 10 {
        'a'
    } else if d == 11 {
        'b'
    } else if d == 12 {
        'c'
    } else if d == 13 {
        'd'
    } else if d == 14 {
        'e'
    } else {
        'f'
    }
}

fn dec_digit_char(d: u8) -> (r: char)
    requires
        d < 10,
    ensures
        r == dec_digit(d as int),
{
    if d == 0 {
        '0'
    } else if d == 1 {
        '1'
    } else if d == 2 {
        '2'
    } else if d == 3 {
        '3'
    } else if d == 4 {
        '4'
    } else if d == 5 {
        '5'
    } else if d == 6 {
        '6'
    } else if d == 7 {
        '7'
    } else if d == 8 {
        '8'
    } else {
        '9'
    }
}

fn push_json_escaped_char(out: &mut String, c: char)
    ensures
        final(out)@ == old(out)@ + json_escape_char(c),
{
    if c == '"' {
        out.append("\\\"");
        proof {
            reveal_strlit("\\\"");
            assert(final(out)@ =~= old(out)@ + json_escape_char(c));
        }
    } else if c == '\\' {
        out.append("\\\\");
        proof {
            reveal_strlit("\\\\");
            assert(final(out)@ =~= old(out)@ + json_escape_char(c));
        }
    } else if c == '\u{8}' {
        out.append("\\b");
        proof {
            reveal_strlit("\\b");
            assert(final(out)@ =~= old(out)@ + json_escape_char(c));
        }
    } else if c == '\t' {
        out.append("\\t");
        proof {
            reveal_strlit("\\t");
            assert(final(out)@ =~= old(out)@ + json_escape_char(c));
        }
    } else if c == '\n' {
        out.append("\\n");
        proof {
            reveal_strlit("\\n");
            assert(final(out)@ =~= old(out)@ + json_escape_char(c));
        }
    } else if c == '\u{c}' {
        out.append("\\f");
        proof {
            reveal_strlit("\\f");
            assert(final(out)@ =~= old(out)@ + json_escape_char(c));
        }
    } else if c == '\r' {
        out.append("\\r");
        proof {
            reveal_strlit("\\r");
            assert(final(out)@ =~= old(out)@ + json_escape_char(c));
        }
    } else if (c as u32) < 0x20 {
        out.append("\\u00");
        let code: u32 = c as u32;
        let hi: u8 = (code / 16) as u8;
        let lo: u8 = (code % 16) as u8;
        out.push(hex_char(hi));
        out.push(hex_char(lo));
        proof {
            reveal_strlit("\\u00");
            assert(final(out)@ =~= old(out)@ + json_escape_char(c));
        }
    } else {
        out.push(c);
        proof {
            assert(final(out)@ =~= old(out)@ + json_escape_char(c));
        }
    }
}

/// Appends the characters of `s` to `out`, escaped as a JSON string body.
pub fn append_json_escaped(out: &mut String, s: &str)
    ensures
        final(out)@ == old(out)@ + json_escape(s@),
{
    let n = s.unicode_len();
    let mut i: usize = 0;
    while i < n
        invariant
            n == s@.len(),
            i <= n,
            out@ == old(out)@ + json_escape(s@.subrange(0, i as int)),
        decreases n - i,
    {
        let c = s.get_char(i);
        push_json_escaped_char(out, c);
        proof {
            let pre = s@.subrange(0, i as int);
            let cur = s@.subrange(0, i + 1 as int);
            assert(cur.drop_last() =~= pre);
            assert(cur.last() == c);
        }
        i = i + 1;
    }
    proof {
        assert(s@.subrange(0, n as int) =~= s@);
    }
}

/// Appends the decimal representation of `n` to `out`.
pub fn push_u64_dec(out: &mut String, n: u64)
    ensures
        final(out)@ == old(out)@ + dec_rep(n as nat),
    decreases n,
{
    if n < 10 {
        out.push(dec_digit_char(n as u8));
        proof {
            assert(final(out)@ =~= old(out)@ + dec_rep(n as nat));
        }
    } else {
        push_u64_dec(out, n / 10);
        out.push(dec_digit_char((n % 10) as u8));
        proof {
            assert((n as nat) / 10 == (n / 10) as nat);
            assert((n as nat) % 10 == (n % 10) as nat);
            assert(final(out)@ =~= old(out)@ + dec_rep(n as nat));
        }
    }
}

fn push_bool(out: &mut String, b: bool)
    ensures
        final(out)@ == old(out)@ + bool_text(b),
{
    if b {
        out.append("true");
    } else {
        out.append("false");
    }
}

/// The JSON object written for a generation response, fields in sorted key
/// order, compact (no spaces).
pub open spec fn spec_generate_response_json(v: GenerateResponseView) -> Seq<char> {
    "{\"stop_reason\":\""@ + json_escape(v.stop_reason) + "\",\"stopped\":"@ + bool_text(v.stopped)
        + ",\"text\":\""@ + json_escape(v.text) + "\",\"tokens_generated\":"@ + dec_rep(
        v.tokens_generated as nat,
    ) + "}"@
}

/// Serializes a generation response as its JSON object.
pub fn generate_response_json(r: &GenerateResponse) -> (out: String)
    ensures
        out@ == spec_generate_response_json(r@),
{
    let mut out = String::from_str("{\"stop_reason\":\"");
    append_json_escaped(&mut out, r.stop_reason.as_str());
    out.append("\",\"stopped\":");
    push_bool(&mut out, r.stopped);
    out.append(",\"text\":\"");
    append_json_escaped(&mut out, r.text.as_str());
    out.append("\",\"tokens_generated\":");
    push_u64_dec(&mut out, r.tokens_generated);
    out.append("}");
    proof {
        assert(out@ =~= spec_generate_response_json(r@));
    }
    out
}

/// The JSON object written for a model-info snapshot, fields in sorted key
/// order, compact.
pub open spec fn spec_model_info_json(name: Seq<char>, size: u64, loaded: bool) -> Seq<char> {
    "{\"loaded\":"@ + bool_text(loaded) + ",\"name\":\""@ + json_escape(name) + "\",\"size\":"@
        + dec_rep(size as nat) + "}"@
}

/// Serializes a model-info snapshot as its JSON object.
pub fn model_info_json(info: &ModelInfo) -> (out: String)
    ensures
        out@ == spec_model_info_json(info.name@, info.size, info.loaded),
{
    let mut out = String::from_str("{\"loaded\":");
    push_bool(&mut out, info.loaded);
    out.append(",\"name\":\"");
    append_json_escaped(&mut out, info.name.as_str());
    out.append("\",\"size\":");
    push_u64_dec(&mut out, info.size);
    out.append("}");
    proof {
        assert(out@ =~= spec_model_info_json(info.name@, info.size, info.loaded));
    }
    out
}

/// One quoted JSON string.
pub open spec fn spec_json_string(s: Seq<char>) -> Seq<char> {
    "\""@ + json_escape(s) + "\""@
}

/// The comma-separated items of a JSON array of strings.
pub open spec fn spec_list_items(items: Seq<Seq<char>>) -> Seq<char>
    decreases items.len(),
{
    if items.len() == 0 {
        Seq::empty()
    } else if items.len() == 1 {
        spec_json_string(items[0])
    } else {
        spec_list_items(items.drop_last()) + ","@ + spec_json_string(items.last())
    }
}

/// The JSON array written for a list of strings, compact.
pub open spec fn spec_string_list_json(items: Seq<Seq<char>>) -> Seq<char> {
    "["@ + spec_list_items(items) + "]"@
}

/// Serializes a list of strings as a JSON array.
pub fn string_list_json(items: &Vec<String>) -> (out: String)
    ensures
        out@ == spec_string_list_json(items.deep_view()),
{
    let mut out = String::from_str("[");
    let n = items.len();
    let mut i: usize = 0;
    while i < n
        invariant
            n == items@.len(),
            n == items.deep_view().len(),
            i <= n,
            out@ == "["@ + spec_list_items(items.deep_view().subrange(0, i as int)),
        decreases n - i,
    {
        if i > 0 {
            out.append(",");
        }
        out.append("\"");
        append_json_escaped(&mut out, items[i].as_str());
        out.append("\"");
        proof {
            let all = items.deep_view();
            let cur = all.subrange(0, i + 1 as int);
            assert(cur.drop_last() =~= all.subrange(0, i as int));
            assert(cur.last() == all[i as int]);
            assert(all[i as int] == items@[i as int]@);
            assert(out@ =~= "["@ + spec_list_items(cur));
        }
        i = i + 1;
    }
    out.append("]");
    proof {
        assert(items.deep_view().subrange(0, n as int) =~= items.deep_view());
        assert(out@ =~= spec_string_list_json(items.deep_view()));
    }
    out
}

} // verus!

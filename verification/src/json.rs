//! JSON text for the messages of the service. String values are quoted by
//! `serde_json`; the objects around them are framed here, field by field in
//! declaration order and without whitespace, as `serde_json::to_string`
//! writes a struct.
use vstd::prelude::*;
use vstd::string::*;

verus! {

#[verifier::external_type_specification]
#[verifier::external_body]
pub struct ExJsonError(serde_json::Error);

/// The lower-case hexadecimal digit of `n`, for `0 <= n < 16`.
pub open spec fn hex_digit_lower(n: int) -> char {
    seq!['0', '1', '2', '3', '4', '5', '6', '7', '8', '9', 'a', 'b', 'c', 'd', 'e', 'f'][n]
}

/// How one character appears inside a JSON string: quote and backslash are
/// escaped, the control characters below U+0020 take their short escape or
/// `\u00XX`, and every other character stands as it is.
pub open spec fn json_escape_char(c: char) -> Seq<char> {
    if c == '"' {
        seq!['\\', '"']
    } else if c == '\\' {
        seq!['\\', '\\']
    } else if c == '\u{8}' {
        seq!['\\', 'b']
    } else if c == '\t' {
        seq!['\\', 't']
    } else if c == '\n' {
        seq!['\\', 'n']
    } else if c == '\u{c}' {
        seq!['\\', 'f']
    } else if c == '\r' {
        seq!['\\', 'r']
    } else if (c as int) < 0x20 {
        seq!['\\', 'u', '0', '0', hex_digit_lower((c as int) / 16), hex_digit_lower((c as int) % 16)]
    } else {
        seq![c]
    }
}

/// The escaped contents of a JSON string.
pub open spec fn json_escape(s: Seq<char>) -> Seq<char>
    decreases s.len(),
{
    if s.len() == 0 {
        Seq::empty()
    } else {
        json_escape(s.drop_last()) + json_escape_char(s.last())
    }
}

/// The JSON string literal of `s`, quotes included.
pub open spec fn spec_json_string(s: Seq<char>) -> Seq<char> {
    seq!['"'] + json_escape(s) + seq!['"']
}

/// `serde_json::to_string` on a string slice. The contract claims what the
/// crate's serializer does for `str`: it writes the quoted, escaped text and,
/// writing into memory, never fails.
#[verifier::external_body]
fn serde_json_string(s: &str) -> (res: Result<String, serde_json::Error>)
    ensures
        res is Ok,
        res matches Ok(text) ==> text@ == spec_json_string(s@),
{
    serde_json::to_string(s)
}

/// The JSON string literal of `s`.
pub fn json_string(s: &str) -> (res: String)
    ensures
        res@ == spec_json_string(s@),
{
    match serde_json_string(s) {
        Ok(text) => text,
        Err(_) => {
            proof {
                assert(false);
            }
            String::new()
        },
    }
}

/// A JSON object with one string field, `{"name":value}`.
pub open spec fn spec_json_object1(name: Seq<char>, value: Seq<char>) -> Seq<char> {
    seq!['{'] + spec_json_string(name) + seq![':'] + spec_json_string(value) + seq!['}']
}

/// Frames a JSON object with one string field.
pub fn json_object1(name: &str, value: &str) -> (res: String)
    ensures
        res@ == spec_json_object1(name@, value@),
{
    let mut out = String::from_str("{");
    let key = json_string(name);
    out.append(key.as_str());
    out.append(":");
    let val = json_string(value);
    out.append(val.as_str());
    out.append("}");
    proof {
        reveal_strlit("{");
        reveal_strlit(":");
        reveal_strlit("}");
    }
    assert(out@ =~= spec_json_object1(name@, value@));
    out
}

/// One member of a JSON object: the quoted name, a colon, and the value's JSON.
pub open spec fn spec_json_member(name: Seq<char>, value_json: Seq<char>) -> Seq<char> {
    spec_json_string(name) + seq![':'] + value_json
}

/// The JSON text of a boolean.
pub open spec fn spec_json_bool(b: bool) -> Seq<char> {
    if b {
        seq!['t', 'r', 'u', 'e']
    } else {
        seq!['f', 'a', 'l', 's', 'e']
    }
}

/// Appends one member of a JSON object to `out`.
pub fn push_json_member(out: &mut String, name: &str, value_json: &str)
    ensures
        final(out)@ == old(out)@ + spec_json_member(name@, value_json@),
{
    let key = json_string(name);
    out.append(key.as_str());
    out.append(":");
    out.append(value_json);
    proof {
        reveal_strlit(":");
    }
    assert(final(out)@ =~= old(out)@ + spec_json_member(name@, value_json@));
}

/// The JSON text of a boolean.
pub fn json_bool(b: bool) -> (res: &'static str)
    ensures
        res@ == spec_json_bool(b),
{
    proof {
        reveal_strlit("true");
        reveal_strlit("false");
    }
    if b {
        "true"
    } else {
        "false"
    }
}

/// The value of a hexadecimal digit, or -1 for another character.
pub open spec fn hex_value(c: char) -> int {
    if '0' <= c && c <= '9' {
        (c as int) - ('0' as int)
    } else if 'a' <= c && c <= 'f' {
        (c as int) - ('a' as int) + 10
    } else if 'A' <= c && c <= 'F' {
        (c as int) - ('A' as int) + 10
    } else {
        -1
    }
}

/// The character that a two-character escape `\e` stands for.
pub open spec fn json_short_escape(e: char) -> Option<char> {
    if e == '"' {
        Some('"')
    } else if e == '\\' {
        Some('\\')
    } else if e == '/' {
        Some('/')
    } else if e == 'b' {
        Some('\u{8}')
    } else if e == 't' {
        Some('\t')
    } else if e == 'n' {
        Some('\n')
    } else if e == 'f' {
        Some('\u{c}')
    } else if e == 'r' {
        Some('\r')
    } else {
        None
    }
}

/// Prepends a character to a text that was read, if it was.
pub open spec fn prepend_read(c: char, rest: Option<Seq<char>>) -> Option<Seq<char>> {
    match rest {
        Some(r) => Some(seq![c] + r),
        None => None,
    }
}

/// Reads the contents of a JSON string, between its quotes: escapes stand
/// for their characters, and any other character for itself. A raw quote,
/// a raw control character, a backslash that starts no escape, and an
/// escape of a surrogate code unit make the contents unreadable.
pub open spec fn json_unescape(t: Seq<char>) -> Option<Seq<char>>
    decreases t.len(),
{
    if t.len() == 0 {
        Some(Seq::empty())
    } else if t[0] == '"' || (t[0] as int) < 0x20 {
        None
    } else if t[0] != '\\' {
        prepend_read(t[0], json_unescape(t.drop_first()))
    } else if t.len() < 2 {
        None
    } else if json_short_escape(t[1]) is Some {
        prepend_read(json_short_escape(t[1])->0, json_unescape(t.subrange(2, t.len() as int)))
    } else if t[1] == 'u' && t.len() >= 6 && hex_value(t[2]) >= 0 && hex_value(t[3]) >= 0
        && hex_value(t[4]) >= 0 && hex_value(t[5]) >= 0 {
        let code = hex_value(t[2]) * 4096 + hex_value(t[3]) * 256 + hex_value(t[4]) * 16 + hex_value(t[5]);
        if 0xD800 <= code && code < 0xE000 {
            None
        } else {
            prepend_read(code as char, json_unescape(t.subrange(6, t.len() as int)))
        }
    } else {
        None
    }
}

/// Reads a JSON string literal: its contents between the opening and the
/// closing quote.
pub open spec fn json_unquote(t: Seq<char>) -> Option<Seq<char>> {
    if t.len() >= 2 && t[0] == '"' && t.last() == '"' {
        json_unescape(t.subrange(1, t.len() - 1))
    } else {
        None
    }
}

proof fn lemma_json_escape_concat(a: Seq<char>, b: Seq<char>)
    ensures
        json_escape(a + b) == json_escape(a) + json_escape(b),
    decreases b.len(),
{
    if b.len() == 0 {
        assert(a + b =~= a);
        assert(json_escape(a) + json_escape(b) =~= json_escape(a));
    } else {
        lemma_json_escape_concat(a, b.drop_last());
        assert((a + b).drop_last() =~= a + b.drop_last());
        assert((a + b).last() == b.last());
        assert(json_escape(a + b) =~= json_escape(a) + json_escape(b));
    }
}

proof fn lemma_hex_digit_value(n: int)
    requires
        0 <= n < 16,
    ensures
        hex_value(hex_digit_lower(n)) == n,
{
    let digits = seq!['0', '1', '2', '3', '4', '5', '6', '7', '8', '9', 'a', 'b', 'c', 'd', 'e', 'f'];
    assert(hex_digit_lower(n) == digits[n]);
}

proof fn lemma_unescape_char(c: char, e: Seq<char>, rest: Seq<char>)
    requires
        json_unescape(e) == Some(rest),
    ensures
        json_unescape(json_escape_char(c) + e) == Some(seq![c] + rest),
{
    let t = json_escape_char(c) + e;
    if c == '"' || c == '\\' || c == '\u{8}' || c == '\t' || c == '\n' || c == '\u{c}' || c == '\r' {
        assert(t.subrange(2, t.len() as int) =~= e);
    } else if (c as int) < 0x20 {
        let hi = (c as int) / 16;
        let lo = (c as int) % 16;
        lemma_hex_digit_value(hi);
        lemma_hex_digit_value(lo);
        assert(t[2] == '0' && t[3] == '0');
        assert(t.subrange(6, t.len() as int) =~= e);
        assert(hi * 16 + lo == c as int);
        assert((c as int) as char == c);
    } else {
        assert(t.drop_first() =~= e);
    }
}

/// The contents the library writes for a string read back as that string.
proof fn lemma_unescape_escape(s: Seq<char>)
    ensures
        json_unescape(json_escape(s)) == Some(s),
    decreases s.len(),
{
    if s.len() == 0 {
    } else {
        let rest = s.drop_first();
        lemma_unescape_escape(rest);
        assert(s =~= seq![s[0]] + rest);
        lemma_json_escape_concat(seq![s[0]], rest);
        assert(seq![s[0]].drop_last() =~= Seq::<char>::empty());
        assert(json_escape(Seq::<char>::empty()) == Seq::<char>::empty());
        assert(seq![s[0]].last() == s[0]);
        assert(json_escape(seq![s[0]]) =~= json_escape_char(s[0]));
        lemma_unescape_char(s[0], json_escape(rest), rest);
    }
}

/// A JSON string literal that the library writes reads back as the string
/// it was written for.
pub proof fn law_json_string_reads_back(s: Seq<char>)
    ensures
        json_unquote(spec_json_string(s)) == Some(s),
{
    let t = spec_json_string(s);
    assert(t.subrange(1, t.len() - 1) =~= json_escape(s));
    lemma_unescape_escape(s);
}

/// Reads the value of an object with the one string member `name`: the text
/// opens with `{`, the quoted name and a colon, holds a string literal, and
/// closes with `}`.
pub open spec fn json_read_object1(text: Seq<char>, name: Seq<char>) -> Option<Seq<char>> {
    let head = seq!['{'] + spec_json_string(name) + seq![':'];
    if text.len() >= head.len() + 1 && text.subrange(0, head.len() as int) == head && text.last() == '}' {
        json_unquote(text.subrange(head.len() as int, text.len() - 1))
    } else {
        None
    }
}

/// An object with one string member that the library writes reads back as
/// the member's value.
pub proof fn law_json_object1_reads_back(name: Seq<char>, value: Seq<char>)
    ensures
        json_read_object1(spec_json_object1(name, value), name) == Some(value),
{
    let text = spec_json_object1(name, value);
    let head = seq!['{'] + spec_json_string(name) + seq![':'];
    assert(text =~= head + spec_json_string(value) + seq!['}']);
    assert(text.subrange(0, head.len() as int) =~= head);
    assert(text.subrange(head.len() as int, text.len() - 1) =~= spec_json_string(value));
    law_json_string_reads_back(value);
}

/// How many characters, the closing quote included, the rest of a JSON
/// string literal takes once its opening quote is read: a backslash takes
/// the character after it along, and the first other quote closes the
/// literal. `None` where no quote closes it.
pub open spec fn json_string_rest_len(u: Seq<char>) -> Option<int>
    decreases u.len(),
{
    if u.len() == 0 {
        None
    } else if u[0] == '"' {
        Some(1)
    } else if u[0] == '\\' {
        if u.len() < 2 {
            None
        } else {
            match json_string_rest_len(u.subrange(2, u.len() as int)) {
                Some(n) => Some(n + 2),
                None => None,
            }
        }
    } else {
        match json_string_rest_len(u.drop_first()) {
            Some(n) => Some(n + 1),
            None => None,
        }
    }
}

/// Reads the JSON string literal at the start of `t`: its value, and the
/// text after it.
pub open spec fn json_read_string(t: Seq<char>) -> Option<(Seq<char>, Seq<char>)> {
    if t.len() > 0 && t[0] == '"' {
        match json_string_rest_len(t.drop_first()) {
            Some(n) => match json_unquote(t.subrange(0, n + 1)) {
                Some(v) => Some((v, t.subrange(n + 1, t.len() as int))),
                None => None,
            },
            None => None,
        }
    } else {
        None
    }
}

/// Reads the fixed text `lit` at the start of `t`, giving the text after it.
pub open spec fn json_expect(t: Seq<char>, lit: Seq<char>) -> Option<Seq<char>> {
    if t.len() >= lit.len() && t.subrange(0, lit.len() as int) == lit {
        Some(t.subrange(lit.len() as int, t.len() as int))
    } else {
        None
    }
}

/// Reads an object member `"name":` followed by a string literal at the
/// start of `t`: the string's value, and the text after it.
pub open spec fn json_read_string_member(t: Seq<char>, name: Seq<char>) -> Option<(Seq<char>, Seq<char>)> {
    match json_read_string(t) {
        Some((key, after_key)) => if key == name {
            match json_expect(after_key, seq![':']) {
                Some(after_colon) => json_read_string(after_colon),
                None => None,
            }
        } else {
            None
        },
        None => None,
    }
}

proof fn lemma_rest_len_char(c: char, u2: Seq<char>, n: int)
    requires
        json_string_rest_len(u2) == Some(n),
    ensures
        json_string_rest_len(json_escape_char(c) + u2) == Some(n + json_escape_char(c).len()),
{
    let e = json_escape_char(c);
    let u = e + u2;
    if c == '"' || c == '\\' || c == '\u{8}' || c == '\t' || c == '\n' || c == '\u{c}' || c == '\r' {
        assert(u.subrange(2, u.len() as int) =~= u2);
        assert(e.len() == 2 && e[0] == '\\');
        assert(json_string_rest_len(u) == Some(n + 2));
    } else if (c as int) < 0x20 {
        let hi = (c as int) / 16;
        let lo = (c as int) % 16;
        lemma_hex_digit_value(hi);
        lemma_hex_digit_value(lo);
        assert(e == seq!['\\', 'u', '0', '0', hex_digit_lower(hi), hex_digit_lower(lo)]);
        assert(hex_value(e[4]) >= 0 && hex_value(e[5]) >= 0);
        let v = u.subrange(2, u.len() as int);
        assert(v.drop_first().drop_first().drop_first().drop_first() =~= u2);
        assert(v.drop_first().drop_first().drop_first() =~= seq![e[5]] + u2);
        assert(v.drop_first().drop_first() =~= seq![e[4], e[5]] + u2);
        assert(v.drop_first() =~= seq![e[3], e[4], e[5]] + u2);
        assert(v =~= seq![e[2], e[3], e[4], e[5]] + u2);
        assert(json_string_rest_len(v.drop_first().drop_first().drop_first()) == Some(n + 1));
        assert(json_string_rest_len(v.drop_first().drop_first()) == Some(n + 2));
        assert(json_string_rest_len(v.drop_first()) == Some(n + 3));
        assert(json_string_rest_len(v) == Some(n + 4));
        assert(json_string_rest_len(u) == Some(n + 6));
    } else {
        assert(u.drop_first() =~= u2);
        assert(json_string_rest_len(u) == Some(n + 1));
    }
}

proof fn lemma_rest_len_escape(s: Seq<char>, rest: Seq<char>)
    ensures
        json_string_rest_len(json_escape(s) + seq!['"'] + rest) == Some(json_escape(s).len() as int + 1),
    decreases s.len(),
{
    if s.len() == 0 {
        assert(json_escape(s) + seq!['"'] + rest =~= seq!['"'] + rest);
    } else {
        let c = s[0];
        let tail = s.drop_first();
        lemma_rest_len_escape(tail, rest);
        assert(s =~= seq![c] + tail);
        lemma_json_escape_concat(seq![c], tail);
        assert(seq![c].drop_last() =~= Seq::<char>::empty());
        assert(json_escape(Seq::<char>::empty()) == Seq::<char>::empty());
        assert(seq![c].last() == c);
        assert(json_escape(seq![c]) =~= json_escape_char(c));
        let u2 = json_escape(tail) + seq!['"'] + rest;
        assert(json_escape(s) + seq!['"'] + rest =~= json_escape_char(c) + u2);
        lemma_rest_len_char(c, u2, json_escape(tail).len() as int + 1);
    }
}

/// A string literal that the library writes, followed by any text, reads
/// back as the string, leaving that text.
pub proof fn law_json_read_string(s: Seq<char>, rest: Seq<char>)
    ensures
        json_read_string(spec_json_string(s) + rest) == Some((s, rest)),
{
    let t = spec_json_string(s) + rest;
    assert(t.drop_first() =~= json_escape(s) + seq!['"'] + rest);
    lemma_rest_len_escape(s, rest);
    let n: int = json_escape(s).len() as int + 1;
    assert(t.subrange(0, n + 1) =~= spec_json_string(s));
    assert(t.subrange(n + 1, t.len() as int) =~= rest);
    law_json_string_reads_back(s);
}

/// A member `"name":value` that the library writes, followed by any text,
/// reads back as the value, leaving that text.
pub proof fn law_json_read_string_member(name: Seq<char>, value: Seq<char>, rest: Seq<char>)
    ensures
        json_read_string_member(spec_json_member(name, spec_json_string(value)) + rest, name) == Some((value, rest)),
{
    let t = spec_json_member(name, spec_json_string(value)) + rest;
    let after_key = seq![':'] + spec_json_string(value) + rest;
    assert(t =~= spec_json_string(name) + after_key);
    law_json_read_string(name, after_key);
    let after_colon = spec_json_string(value) + rest;
    assert(after_key.subrange(0, 1) =~= seq![':']);
    assert(after_key.subrange(1, after_key.len() as int) =~= after_colon);
    law_json_read_string(value, rest);
}

} // verus!

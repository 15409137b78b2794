//! Rendering of the small JSON documents that the service sends.

use vstd::prelude::*;
use vstd::string::*;
use crate::http::Pair;
use crate::http::pairs_view;

verus! {

/// The lower-case hexadecimal digit of a value below sixteen.
pub open spec fn hex_lower(n: u8) -> char
    recommends
        n < 16,
{
    if n < 10 {
        (0x30 + n) as u8 as char
    } else {
        (0x57 + n) as u8 as char
    }
}

/// What one character becomes inside a JSON string: the quote, the backslash
/// and the control characters below U+0020 are escaped, every other
/// character stands for itself.
pub open spec fn escape_char(c: char) -> Seq<char> {
    if c == '"' {
        seq!['\\', '"']
    } else if c == '\\' {
        seq!['\\', '\\']
    } else if c == '\u{08}' {
        seq!['\\', 'b']
    } else if c == '\u{09}' {
        seq!['\\', 't']
    } else if c == '\u{0a}' {
        seq!['\\', 'n']
    } else if c == '\u{0c}' {
        seq!['\\', 'f']
    } else if c == '\u{0d}' {
        seq!['\\', 'r']
    } else if (c as u32) < 0x20 {
        seq!['\\', 'u', '0', '0', hex_lower(c as u8 / 16), hex_lower(c as u8 % 16)]
    } else {
        seq![c]
    }
}

/// The escapes of the characters of a text, in order.
pub open spec fn escape_text(text: Seq<char>) -> Seq<char>
    decreases text.len(),
{
    if text.len() == 0 {
        Seq::empty()
    } else {
        escape_text(text.drop_last()) + escape_char(text.last())
    }
}

/// A text as a JSON string: its escape between two quotes.
pub open spec fn string_text(text: Seq<char>) -> Seq<char> {
    seq!['"'] + escape_text(text) + seq!['"']
}

/// One member of an object: name, colon, value, both as JSON strings.
pub open spec fn member_text(member: (Seq<char>, Seq<char>)) -> Seq<char> {
    string_text(member.0) + seq![':'] + string_text(member.1)
}

/// The members of an object in order, separated by commas.
pub open spec fn members_text(members: Seq<(Seq<char>, Seq<char>)>) -> Seq<char>
    decreases members.len(),
{
    if members.len() == 0 {
        Seq::empty()
    } else if members.len() == 1 {
        member_text(members[0])
    } else {
        members_text(members.drop_last()) + seq![','] + member_text(members.last())
    }
}

/// A JSON object whose values are all strings, written without spaces.
pub open spec fn object_text(members: Seq<(Seq<char>, Seq<char>)>) -> Seq<char> {
    seq!['{'] + members_text(members) + seq!['}']
}

/// Renders a text with `serde_json`, as the `Display` of a
/// `serde_json::Value::String`.
///
/// Trusted: the result is the text between two quotes, with `"` and `\`
/// preceded by a backslash, U+0008, U+0009, U+000A, U+000C and U+000D
/// written as `\b`, `\t`, `\n`, `\f` and `\r`, the other characters below
/// U+0020 written as `\u00` and two lower-case hexadecimal digits, and every
/// other character unchanged.
#[verifier::external_body]
pub(crate) fn quote(text: &str) -> (out: String)
    ensures
        out@ == string_text(text@),
{
    serde_json::Value::String(text.to_owned()).to_string()
}

/// Renders an object whose values are all strings, members in the order
/// given.
pub fn render_object(members: &Vec<Pair>) -> (out: String)
    ensures
        out@ == object_text(pairs_view(members@)),
{
    let ghost all = pairs_view(members@);
    let mut out = String::from_str("{");
    proof {
        reveal_strlit("{");
        assert(out@ =~= seq!['{'] + members_text(all.take(0)));
    }
    let mut i: usize = 0;
    while i < members.len()
        invariant
            i <= members.len(),
            all == pairs_view(members@),
            out@ == seq!['{'] + members_text(all.take(i as int)),
        decreases members.len() - i,
    {
        if i > 0 {
            out.append(",");
        }
        let name = quote(members[i].name.as_str());
        let value = quote(members[i].value.as_str());
        out.append(name.as_str());
        out.append(":");
        out.append(value.as_str());
        proof {
            reveal_strlit(",");
            reveal_strlit(":");
            let before = all.take(i as int);
            let after = all.take(i + 1);
            assert(after.drop_last() =~= before);
            assert(after.last() == members@[i as int]@);
            assert(out@ =~= seq!['{'] + members_text(after));
        }
        i += 1;
    }
    out.append("}");
    proof {
        reveal_strlit("}");
        assert(all.take(members.len() as int) =~= all);
        assert(out@ =~= object_text(all));
    }
    out
}

} // verus!

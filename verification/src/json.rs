//! JSON text for strings, and for an object that holds one string.

use vstd::prelude::*;
use vstd::string::StringExecFns;

verus! {

/// Whether `c` may stand inside a JSON string only in escaped form: the
/// quotation mark, the backslash and the control characters below U+0020.
pub open spec fn needs_escape(c: char) -> bool {
    c == '"' || c == '\\' || (c as u32) < 0x20
}

/// The lower-case hexadecimal digit of `n`, for `0 <= n < 16`.
pub open spec fn hex_digit(n: int) -> char
    recommends
        0 <= n < 16,
{
    seq!['0', '1', '2', '3', '4', '5', '6', '7', '8', '9', 'a', 'b', 'c', 'd', 'e', 'f'][n]
}

/// How one character stands inside a JSON string: a backslash and a letter
/// for the seven characters that have a short form, `\u00` and two
/// hexadecimal digits for the other control characters, and the character
/// itself otherwise.
pub open spec fn escape_char(c: char) -> Seq<char> {
    if c == '"' {
        seq!['\\', '"']
    } else if c == '\\' {
        seq!['\\', '\\']
    } else if c == '\u{8}' {
        seq!['\\', 'b']
    } else if c == '\t' {
        seq!['\\', 't']
    } else if c == '\n' {
        seq!['\\', 'n']
    } else if c == '\u{c}' {
        seq!['\\', 'f']
    } else if c == '\r' {
        seq!['\\', 'r']
    } else if (c as u32) < 0x20 {
        seq!['\\', 'u', '0', '0', hex_digit(c as u32 as int / 16), hex_digit(c as u32 as int % 16)]
    } else {
        seq![c]
    }
}

/// The characters of `s`, each as it stands inside a JSON string.
pub open spec fn escape(s: Seq<char>) -> Seq<char>
    decreases s.len(),
{
    if s.len() == 0 {
        Seq::empty()
    } else {
        escape_char(s.first()) + escape(s.drop_first())
    }
}

/// The JSON text of the string `s`: its escaped characters between two
/// quotation marks.
pub open spec fn string_literal(s: Seq<char>) -> Seq<char> {
    seq!['"'] + escape(s) + seq!['"']
}

/// The JSON text of the object with the one member `key`, whose value is the
/// string `value`, without white space.
pub open spec fn object_text(key: Seq<char>, value: Seq<char>) -> Seq<char> {
    seq!['{'] + string_literal(key) + seq![':'] + string_literal(value) + seq!['}']
}

/// Escaping goes character by character: the escaped form of two texts
/// joined is the two escaped forms joined.
pub proof fn lemma_escape_concat(a: Seq<char>, b: Seq<char>)
    ensures
        escape(a + b) == escape(a) + escape(b),
    decreases a.len(),
{
    if a.len() == 0 {
        assert(a + b == b);
    } else {
        assert((a + b).drop_first() == a.drop_first() + b);
        lemma_escape_concat(a.drop_first(), b);
    }
}

/// A text in which no character needs escaping is its own escaped form.
pub proof fn lemma_escape_plain(s: Seq<char>)
    requires
        forall|i: int| 0 <= i < s.len() ==> !needs_escape(#[trigger] s[i]),
    ensures
        escape(s) == s,
    decreases s.len(),
{
    if s.len() > 0 {
        let rest = s.drop_first();
        assert forall|i: int| 0 <= i < rest.len() implies !needs_escape(#[trigger] rest[i]) by {
            assert(rest[i] == s[i + 1]);
        }
        lemma_escape_plain(rest);
        assert(seq![s.first()] + rest == s);
    }
}

/// The JSON text of the string `s` as `serde_json` writes it: the call makes
/// a `serde_json::Value::String` and collects its `Display` with `to_string`.
///
/// Taken on trust from that crate, not proved: the text is a quotation mark,
/// then for each character of `s`, in order, what `escape_char` gives for it,
/// then a quotation mark.
#[verifier::external_body]
pub(crate) fn encode_string(s: &str) -> (text: String)
    ensures
        text@ == string_literal(s@),
{
    serde_json::Value::String(s.to_owned()).to_string()
}

/// Writes the JSON object that holds the string `value` under `key`.
pub fn object_with_string(key: &str, value: &str) -> (text: String)
    ensures
        text@ == object_text(key@, value@),
{
    let mut text = String::from_str("{");
    let key_text = encode_string(key);
    text.append(key_text.as_str());
    text.append(":");
    let value_text = encode_string(value);
    text.append(value_text.as_str());
    text.append("}");
    proof {
        reveal_strlit("{");
        reveal_strlit(":");
        reveal_strlit("}");
    }
    text
}

} // verus!

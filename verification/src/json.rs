use vstd::prelude::*;

verus! {

/// The lower-case hexadecimal digit for `d` (meant for `d < 16`).
pub open spec fn hex_digit_lower(d: nat) -> char {
    if d < 10 {
        (48 + d) as char
    } else {
        (87 + d) as char
    }
}

/// How a JSON string literal writes the character `c`: quote, backslash
/// and control characters are escaped, every other character stands for
/// itself.
pub open spec fn json_escape_char(c: char) -> Seq<char> {
    let n = c as u32;
    if c == '"' {
        seq!['\\', '"']
    } else if c == '\\' {
        seq!['\\', '\\']
    } else if n == 8 {
        seq!['\\', 'b']
    } else if n == 9 {
        seq!['\\', 't']
    } else if n == 10 {
        seq!['\\', 'n']
    } else if n == 12 {
        seq!['\\', 'f']
    } else if n == 13 {
        seq!['\\', 'r']
    } else if n < 32 {
        seq![
            '\\',
            'u',
            '0',
            '0',
            hex_digit_lower((n / 16) as nat),
            hex_digit_lower((n % 16) as nat),
        ]
    } else {
        seq![c]
    }
}

/// The characters of `s`, each escaped as a JSON string literal writes it.
pub open spec fn json_escape(s: Seq<char>) -> Seq<char>
    decreases s.len(),
{
    if s.len() == 0 {
        Seq::empty()
    } else {
        json_escape(s.drop_last()) + json_escape_char(s.last())
    }
}

/// The JSON string literal for `s`.
pub open spec fn json_string_literal(s: Seq<char>) -> Seq<char> {
    seq!['"'] + json_escape(s) + seq!['"']
}

/// The JSON object `{"message":<msg>}` in compact form.
pub open spec fn message_json(msg: Seq<char>) -> Seq<char> {
    seq!['{', '"', 'm', 'e', 's', 's', 'a', 'g', 'e', '"', ':'] + json_string_literal(msg) + seq![
        '}',
    ]
}

/// A character that a JSON string literal writes unescaped.
pub open spec fn json_plain_char(c: char) -> bool {
    c != '"' && c != '\\' && c as u32 >= 32
}

/// Text made only of characters that need no escaping is written as it is.
pub proof fn lemma_plain_text_unescaped(s: Seq<char>)
    requires
        forall|i: int| 0 <= i < s.len() ==> json_plain_char(#[trigger] s[i]),
    ensures
        json_escape(s) == s,
    decreases s.len(),
{
    if s.len() > 0 {
        let t = s.drop_last();
        assert forall|i: int| 0 <= i < t.len() implies json_plain_char(#[trigger] t[i]) by {
            assert(t[i] == s[i]);
        }
        lemma_plain_text_unescaped(t);
        assert(json_plain_char(s[s.len() - 1]));
        assert(s =~= t + seq![s.last()]);
    }
}

/// `serde_json::to_string` on a string slice: the JSON string literal for
/// `s`, quoted and escaped as serde_json's serializer writes it (quote,
/// backslash and characters below U+0020 escaped; `\b \t \n \f \r` by name,
/// the other control characters as `\u00xx` with lower-case hex; all
/// other characters verbatim). Serialising a string into a `String` does not
/// fail, so the error arm is never taken.
#[verifier::external_body]
fn json_string(s: &str) -> (quoted: String)
    ensures
        quoted@ == json_string_literal(s@),
{
    match serde_json::to_string(s) {
        Ok(text) => text,
        Err(_) => String::new(),
    }
}

/// The body `{"message":"<msg>"}` that the handlers answer with, the
/// message written as a JSON string.
pub fn message_body(msg: &str) -> (body: String)
    ensures
        body@ == message_json(msg@),
{
    let open = "{\"message\":";
    let close = "}";
    proof {
        reveal_strlit("{\"message\":");
        reveal_strlit("}");
    }
    let mut body = String::from_str(open);
    let quoted = json_string(msg);
    body.append(quoted.as_str());
    body.append(close);
    assert(body@ =~= message_json(msg@));
    body
}

/// A message made of characters that need no escaping appears verbatim
/// between the quotes of its body.
pub proof fn lemma_plain_message_body(msg: Seq<char>)
    requires
        forall|i: int| 0 <= i < msg.len() ==> json_plain_char(#[trigger] msg[i]),
    ensures
        message_json(msg) == seq!['{', '"', 'm', 'e', 's', 's', 'a', 'g', 'e', '"', ':', '"']
            + msg + seq!['"', '}'],
{
    lemma_plain_text_unescaped(msg);
    assert(message_json(msg) =~= seq!['{', '"', 'm', 'e', 's', 's', 'a', 'g', 'e', '"', ':', '"']
        + msg + seq!['"', '}']);
}

} // verus!

//! The body of a request to the public surface: the payload's JSON object with
//! the project key merged in as its first field.
//!
//! Payloads come in as JSON text, as `serde_json` writes it: without space
//! between the tokens. A payload is an object, or `null` for one that has
//! nothing to say.

use vstd::prelude::*;

verus! {

/// The JSON string literal that `serde_json` writes for the string `s`: `s`
/// between double quotes, with the characters that JSON cannot hold in a
/// string escaped.
pub uninterp spec fn json_string_text(s: Seq<char>) -> Seq<char>;

/// `serde_json::to_string` on a string slice.
///
/// Trusted: the call returns the JSON string literal for `s`, here named
/// [`json_string_text`]. It succeeds: by its documentation the call fails only
/// where the value's `Serialize` impl fails or the value holds a map whose keys
/// are not strings, and that of `str` does neither; it writes into a `Vec`.
#[verifier::external_body]
pub(crate) fn json_string(s: &str) -> (r: Option<String>)
    ensures
        r is Some,
        r.unwrap()@ == json_string_text(s@),
{
    serde_json::to_string(s).ok()
}

/// Whether `payload` is a payload without fields: the empty object, or `null`.
pub open spec fn is_bare_payload(payload: Seq<char>) -> bool {
    payload == seq!['{', '}'] || payload == seq!['n', 'u', 'l', 'l']
}

/// Whether `payload` has the shape of an object with at least one field: it
/// opens with a brace and the quote of its first field's name, and closes with
/// a brace.
pub open spec fn is_field_payload(payload: Seq<char>) -> bool {
    &&& payload.len() > 2
    &&& payload[0] == '{'
    &&& payload[1] == '"'
    &&& payload.last() == '}'
}

/// Whether the key can be merged into `payload`.
pub open spec fn accepts_payload(payload: Seq<char>) -> bool {
    is_bare_payload(payload) || is_field_payload(payload)
}

/// The field that carries the key, where `key_text` is the key as a JSON
/// string literal.
pub open spec fn key_field(key_text: Seq<char>) -> Seq<char> {
    "\"api_key\":"@ + key_text
}

/// The body made of `payload` and the key: one object, the key's field first,
/// then the fields of `payload` as they stand.
pub open spec fn merged_body(key_text: Seq<char>, payload: Seq<char>) -> Seq<char> {
    if is_field_payload(payload) {
        seq!['{'] + key_field(key_text) + seq![','] + payload.subrange(1, payload.len() as int)
    } else {
        seq!['{'] + key_field(key_text) + seq!['}']
    }
}

/// Whether `payload` is the text `null`.
fn is_null(payload: &str, len: usize) -> (yes: bool)
    requires
        len == payload@.len(),
    ensures
        yes == (payload@ == seq!['n', 'u', 'l', 'l']),
{
    let yes = len == 4 && payload.get_char(0) == 'n' && payload.get_char(1) == 'u'
        && payload.get_char(2) == 'l' && payload.get_char(3) == 'l';
    assert(yes ==> payload@ =~= seq!['n', 'u', 'l', 'l']);
    yes
}

/// Merges the key, given as the JSON string literal `key_text`, into the JSON
/// text `payload`. `None` where `payload` is neither an object nor `null`.
pub fn merge_key(key_text: &str, payload: &str) -> (body: Option<String>)
    ensures
        match body {
            Some(b) => accepts_payload(payload@) && b@ == merged_body(key_text@, payload@),
            None => !accepts_payload(payload@),
        },
{
    let len = payload.unicode_len();
    let braced = len >= 2 && payload.get_char(0) == '{' && payload.get_char(len - 1) == '}';
    let mut body = String::from_str("{");
    body.append("\"api_key\":");
    body.append(key_text);
    proof {
        reveal_strlit("{");
        reveal_strlit(",");
        reveal_strlit("}");
        assert(body@ =~= seq!['{'] + key_field(key_text@));
    }
    if braced && len > 2 && payload.get_char(1) == '"' {
        body.append(",");
        body.append(payload.substring_char(1, len));
        assert(body@ =~= merged_body(key_text@, payload@));
        Some(body)
    } else if (braced && len == 2) || is_null(payload, len) {
        assert(braced && len == 2 ==> payload@ =~= seq!['{', '}']);
        body.append("}");
        assert(body@ =~= merged_body(key_text@, payload@));
        Some(body)
    } else {
        None
    }
}

/// A merged body is an object that opens with the key's field, whatever the
/// payload was.
pub proof fn lemma_merged_body_opens_with_key(key_text: Seq<char>, payload: Seq<char>)
    ensures
        (seq!['{'] + key_field(key_text)).is_prefix_of(merged_body(key_text, payload)),
        is_field_payload(merged_body(key_text, payload)),
{
    reveal_strlit("\"api_key\":");
    let body = merged_body(key_text, payload);
    let head = seq!['{'] + key_field(key_text);
    assert(body.subrange(0, head.len() as int) =~= head);
    assert(key_field(key_text)[0] == '"');
    assert(body[1] == key_field(key_text)[0]);
}

} // verus!

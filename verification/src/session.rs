//! Session cookies: the signed-in user as base64 of a JSON object, and the
//! search for that cookie in a `Cookie` header.
//!
//! The session is not authenticated: anyone who can write the cookie can claim
//! any identity. This module only fixes its encoding.

use crate::models::{optional_text, DiscordUser, DiscordUserView};
use crate::text::text_from_utf8;
use base64::Engine;
use vstd::prelude::*;
use vstd::slice::*;
use vstd::string::*;
use vstd::utf8::*;

verus! {

/// Name of the cookie that carries the session.
pub const SESSION_COOKIE: &'static str = "meo_session";

/// The JSON string literal that `serde_json` writes for a text: the text in
/// double quotes, with the escapes of its compact formatter.
pub uninterp spec fn json_string_literal(text: Seq<char>) -> Seq<char>;

/// The standard base64 alphabet with padding, applied to a byte string.
pub uninterp spec fn base64_text(bytes: Seq<u8>) -> Seq<char>;

/// The bytes that a standard, canonically padded base64 text stands for, if it
/// is one.
pub uninterp spec fn base64_bytes(text: Seq<u8>) -> Option<Seq<u8>>;

/// `serde_json::to_string` on a `str`: the JSON string literal for `text`.
/// Writing a string into memory cannot fail, so the fallback is never taken.
#[verifier::external_body]
fn json_quote(text: &str) -> (literal: String)
    ensures
        literal@ == json_string_literal(text@),
{
    serde_json::to_string(text).unwrap_or_default()
}

/// `Engine::encode` of `base64::engine::general_purpose::STANDARD`. The bound
/// keeps the encoded length within `usize`, beyond which the engine panics.
#[verifier::external_body]
fn base64_encode(bytes: &[u8]) -> (text: String)
    requires
        bytes@.len() <= isize::MAX,
    ensures
        text@ == base64_text(bytes@),
{
    base64::engine::general_purpose::STANDARD.encode(bytes)
}

/// `Engine::decode` of `base64::engine::general_purpose::STANDARD`, without
/// the reason for a failure.
#[verifier::external_body]
fn base64_decode(text: &[u8]) -> (bytes: Option<Vec<u8>>)
    ensures
        match bytes {
            Some(b) => base64_bytes(text@) == Some(b@),
            None => base64_bytes(text@).is_none(),
        },
{
    base64::engine::general_purpose::STANDARD.decode(text).ok()
}

/// A JSON object with the fields `id`, `username` and `avatar` in this order,
/// without whitespace, given each value as JSON text.
pub open spec fn session_object(id: Seq<char>, username: Seq<char>, avatar: Seq<char>) -> Seq<
    char,
> {
    "{\"id\":"@ + id + ",\"username\":"@ + username + ",\"avatar\":"@ + avatar + "}"@
}

/// The JSON object that stands for a user: every text as a JSON string
/// literal, an absent avatar as `null`.
pub open spec fn session_json(user: DiscordUserView) -> Seq<char> {
    session_object(
        json_string_literal(user.id),
        json_string_literal(user.username),
        match user.avatar {
            Some(avatar) => json_string_literal(avatar),
            None => "null"@,
        },
    )
}

/// Writes a JSON object with the fields `id`, `username` and `avatar`, given
/// each value as JSON text.
pub fn write_session_object(id: &str, username: &str, avatar: &str) -> (json: String)
    ensures
        json@ == session_object(id@, username@, avatar@),
{
    let mut json = String::from_str("{\"id\":");
    json.append(id);
    json.append(",\"username\":");
    json.append(username);
    json.append(",\"avatar\":");
    json.append(avatar);
    json.append("}");
    json
}

/// Writes the JSON object that stands for `user`.
pub fn session_payload(user: &DiscordUser) -> (json: String)
    ensures
        json@ == session_json(user@),
{
    let id = json_quote(user.id.as_str());
    let username = json_quote(user.username.as_str());
    match &user.avatar {
        Some(avatar) => {
            let quoted = json_quote(avatar.as_str());
            write_session_object(id.as_str(), username.as_str(), quoted.as_str())
        },
        None => write_session_object(id.as_str(), username.as_str(), "null"),
    }
}

/// The cookie value for a payload: base64 of its UTF-8 bytes.
pub open spec fn encoded_session(payload: Seq<char>) -> Seq<char> {
    base64_text(encode_utf8(payload))
}

/// The payload that a cookie value carries: what its base64 decodes to, read
/// as UTF-8. Nothing if either step fails.
pub open spec fn decoded_session(cookie: Seq<u8>) -> Option<Seq<char>> {
    match base64_bytes(cookie) {
        Some(bytes) => if valid_utf8(bytes) {
            Some(decode_utf8(bytes))
        } else {
            None
        },
        None => None,
    }
}

/// Encodes `user` as a session cookie value. Nothing only when the payload is
/// longer than any allocation can be.
pub fn encode_session(user: &DiscordUser) -> (cookie: Option<String>)
    ensures
        encode_utf8(session_json(user@)).len() <= isize::MAX ==> cookie.is_some()
            && cookie.unwrap()@ == encoded_session(session_json(user@)),
        encode_utf8(session_json(user@)).len() > isize::MAX ==> cookie.is_none(),
{
    let json = session_payload(user);
    let bytes = json.as_str().as_bytes();
    if bytes.len() <= isize::MAX as usize {
        Some(base64_encode(bytes))
    } else {
        None
    }
}

/// Decodes the bytes of a session cookie value into its JSON payload.
pub fn decode_bytes(cookie: &[u8]) -> (payload: Option<String>)
    ensures
        optional_text(payload) == decoded_session(cookie@),
{
    match base64_decode(cookie) {
        Some(bytes) => text_from_utf8(bytes),
        None => None,
    }
}

/// Decodes a session cookie value into its JSON payload.
pub fn decode_session(cookie: &str) -> (payload: Option<String>)
    ensures
        optional_text(payload) == decoded_session(cookie.spec_bytes()),
{
    decode_bytes(cookie.as_bytes())
}

/// Whether the separator of cookie pairs, a semicolon and a space, begins at
/// position `i` of `s`.
pub open spec fn separator_at(s: Seq<u8>, i: int) -> bool {
    0 <= i && i + 1 < s.len() && s[i] == 0x3b && s[i + 1] == 0x20
}

/// End of the cookie pair that begins at `from`: the position of the next
/// separator, or the end of `s`.
pub open spec fn segment_end(s: Seq<u8>, from: int) -> int
    decreases s.len() - from,
{
    if from >= s.len() {
        s.len() as int
    } else if separator_at(s, from) {
        from
    } else {
        segment_end(s, from + 1)
    }
}

/// Position of the first `=` of `s` in `from..end`, or `end` if there is none.
pub open spec fn equals_sign(s: Seq<u8>, from: int, end: int) -> int
    decreases end - from,
{
    if from >= end {
        end
    } else if s[from] == 0x3d {
        from
    } else {
        equals_sign(s, from + 1, end)
    }
}

/// The value of the first cookie named [`SESSION_COOKIE`] among the pairs of
/// `s` that begin at or after `from`. Pairs are separated by a semicolon and a
/// space; a pair is a name, the first `=`, and a value; a pair without `=` is
/// passed over.
pub open spec fn session_value_from(s: Seq<u8>, from: int) -> Option<Seq<u8>>
    decreases s.len() - from,
{
    if from < 0 || from > s.len() {
        None
    } else {
        let end = segment_end(s, from);
        let eq = equals_sign(s, from, end);
        if eq < end && s.subrange(from, eq) == SESSION_COOKIE.spec_bytes() {
            Some(s.subrange(eq + 1, end))
        } else if end < s.len() {
            proof {
                lemma_segment_end(s, from);
            }
            session_value_from(s, end + 2)
        } else {
            None
        }
    }
}

/// The session payload that a `Cookie` header carries: the decoded value of
/// its first session cookie.
pub open spec fn session_in_header(header: Seq<u8>) -> Option<Seq<char>> {
    match session_value_from(header, 0) {
        Some(value) => decoded_session(value),
        None => None,
    }
}

/// A segment ends at or after its start, within the text, at the first
/// separator.
pub proof fn lemma_segment_end(s: Seq<u8>, from: int)
    requires
        0 <= from <= s.len(),
    ensures
        from <= segment_end(s, from) <= s.len(),
        forall|j: int| from <= j < segment_end(s, from) ==> !separator_at(s, j),
        segment_end(s, from) == s.len() || separator_at(s, segment_end(s, from)),
    decreases s.len() - from,
{
    if from < s.len() && !separator_at(s, from) {
        lemma_segment_end(s, from + 1);
    }
}

fn find_segment_end(bytes: &[u8], from: usize) -> (end: usize)
    requires
        from <= bytes@.len(),
    ensures
        end == segment_end(bytes@, from as int),
        from <= end <= bytes@.len(),
{
    proof {
        lemma_segment_end(bytes@, from as int);
    }
    let mut i: usize = from;
    while i < bytes.len()
        invariant
            from <= i <= bytes@.len(),
            segment_end(bytes@, i as int) == segment_end(bytes@, from as int),
        decreases bytes@.len() - i,
    {
        if bytes[i] == 0x3b && i + 1 < bytes.len() && bytes[i + 1] == 0x20 {
            return i;
        }
        i += 1;
    }
    i
}

fn find_equals_sign(bytes: &[u8], from: usize, end: usize) -> (eq: usize)
    requires
        from <= end <= bytes@.len(),
    ensures
        eq == equals_sign(bytes@, from as int, end as int),
        from <= eq <= end,
{
    let mut i: usize = from;
    while i < end
        invariant
            from <= i <= end <= bytes@.len(),
            equals_sign(bytes@, i as int, end as int) == equals_sign(
                bytes@,
                from as int,
                end as int,
            ),
        decreases end - i,
    {
        if bytes[i] == 0x3d {
            return i;
        }
        i += 1;
    }
    i
}

fn same_bytes(a: &[u8], b: &[u8]) -> (same: bool)
    ensures
        same == (a@ == b@),
{
    if a.len() != b.len() {
        return false;
    }
    let mut i: usize = 0;
    while i < a.len()
        invariant
            i <= a@.len(),
            a@.len() == b@.len(),
            forall|j: int| 0 <= j < i ==> a@[j] == b@[j],
        decreases a@.len() - i,
    {
        if a[i] != b[i] {
            return false;
        }
        i += 1;
    }
    assert(a@ =~= b@);
    true
}

/// Finds the value of the first session cookie among the bytes of a `Cookie`
/// header.
pub fn session_cookie_value<'a>(header: &'a [u8]) -> (value: Option<&'a [u8]>)
    ensures
        match value {
            Some(v) => session_value_from(header@, 0) == Some(v@),
            None => session_value_from(header@, 0).is_none(),
        },
{
    let name = SESSION_COOKIE.as_bytes();
    let mut from: usize = 0;
    loop
        invariant
            from <= header@.len(),
            name@ == SESSION_COOKIE.spec_bytes(),
            session_value_from(header@, from as int) == session_value_from(header@, 0),
        decreases header@.len() - from,
    {
        let end = find_segment_end(header, from);
        let eq = find_equals_sign(header, from, end);
        if eq < end && same_bytes(slice_subrange(header, from, eq), name) {
            return Some(slice_subrange(header, eq + 1, end));
        }
        if end >= header.len() {
            return None;
        }
        proof {
            lemma_segment_end(header@, from as int);
        }
        from = end + 2;
    }
}

/// Finds the session cookie in a `Cookie` header and decodes its value into
/// the JSON payload. The first cookie of that name decides, also when its
/// value does not decode.
pub fn extract_session_from_cookie(cookie_header: &str) -> (payload: Option<String>)
    ensures
        optional_text(payload) == session_in_header(cookie_header.spec_bytes()),
{
    match session_cookie_value(cookie_header.as_bytes()) {
        Some(value) => decode_bytes(value),
        None => None,
    }
}

} // verus!

//! The access key that a client of the local API shows.

use crate::text::{after_prefix, opt_text, strip_prefix};
use vstd::prelude::*;

verus! {

/// What stands before the key in an `Authorization` header.
pub const BEARER: &'static str = "Bearer ";

/// Whether a byte of a header is a visible ASCII character, a space or a tab.
pub open spec fn is_visible(b: u8) -> bool {
    32 <= b < 127 || b == 9
}

/// The text of a header, if all its bytes are visible.
pub open spec fn header_text(raw: Seq<u8>) -> Option<Seq<char>> {
    if forall|i: int| 0 <= i < raw.len() ==> is_visible(#[trigger] raw[i]) {
        Some(raw.map_values(|b: u8| b as char))
    } else {
        None
    }
}

/// Calls `axum::http::HeaderValue::from_bytes` and, on the header that it gives,
/// `to_str`: the text of a header whose bytes are all visible, and nothing of any other.
#[verifier::external_body]
fn header_to_str(raw: &[u8]) -> (text: Option<String>)
    ensures
        opt_text(text) == header_text(raw@),
{
    match axum::http::HeaderValue::from_bytes(raw) {
        Ok(value) => match value.to_str() {
            Ok(text) => Some(text.to_owned()),
            Err(_) => None,
        },
        Err(_) => None,
    }
}

/// The key behind `Bearer ` in the raw bytes of an `Authorization` header.
pub open spec fn bearer_key(header: Option<Seq<u8>>) -> Option<Seq<char>> {
    match header {
        Some(raw) => match header_text(raw) {
            Some(text) => after_prefix(text, BEARER@),
            None => None,
        },
        None => None,
    }
}

/// The bytes of an optional header.
pub open spec fn opt_bytes(header: Option<Vec<u8>>) -> Option<Seq<u8>> {
    match header {
        Some(raw) => Some(raw@),
        None => None,
    }
}

/// Reads the key behind `Bearer ` in the raw bytes of an `Authorization` header.
pub fn provided_key(header: &Option<Vec<u8>>) -> (key: Option<String>)
    ensures
        opt_text(key) == bearer_key(opt_bytes(*header)),
{
    match header {
        Some(raw) => match header_to_str(raw.as_slice()) {
            Some(text) => strip_prefix(text.as_str(), BEARER),
            None => None,
        },
        None => None,
    }
}

/// The raw bytes of the header that shows `key`.
pub open spec fn bearer_header(key: Seq<char>) -> Seq<u8> {
    (BEARER@ + key).map_values(|c: char| c as u8)
}

/// A key of visible characters that a client shows behind `Bearer ` is read back as
/// it was shown.
pub proof fn shown_key_is_read_back(key: Seq<char>)
    requires
        forall|i: int| 0 <= i < key.len() ==> 32 <= #[trigger] key[i] as int && (key[i] as int)
            < 127,
    ensures
        bearer_key(Some(bearer_header(key))) == Some(key),
{
    reveal_strlit("Bearer ");
    let raw = bearer_header(key);
    let text = BEARER@ + key;
    assert(raw.len() == text.len());
    assert forall|i: int| 0 <= i < raw.len() implies is_visible(#[trigger] raw[i]) && raw[i] as char
        == text[i] by {
        if i >= 7 {
            assert(text[i] == key[i - 7]);
        }
    }
    assert(header_text(raw) == Some(text)) by {
        assert(raw.map_values(|b: u8| b as char) =~= text);
    }
    assert(text.subrange(0, 7) =~= BEARER@);
    assert(text.skip(7) =~= key);
}

/// A header shows a key exactly if all its bytes are visible ASCII, spaces or tabs and it
/// starts with `Bearer ` in these capitals. The key is what stands behind, byte for byte.
pub proof fn key_is_what_stands_behind_bearer(header: Option<Vec<u8>>, key: Option<String>)
    requires
        call_ensures(provided_key, (&header,), key),
    ensures
        header is None ==> key is None,
        header matches Some(raw) ==> ({
            let plain = forall|i: int|
                0 <= i < raw@.len() ==> 32 <= #[trigger] raw@[i] <= 126 || raw@[i] == 9;
            let bearer = raw@.len() >= 7 && raw@[0] == 66 && raw@[1] == 101 && raw@[2] == 97
                && raw@[3] == 114 && raw@[4] == 101 && raw@[5] == 114 && raw@[6] == 32;
            &&& key is Some <==> plain && bearer
            &&& key matches Some(k) ==> k@.len() == raw@.len() - 7 && forall|i: int|
                0 <= i < k@.len() ==> #[trigger] k@[i] as int == raw@[i + 7]
        }),
{
    reveal_strlit("Bearer ");
    if let Some(raw) = header {
        if let Some(text) = header_text(raw@) {
            assert(text.len() == raw@.len());
            assert forall|i: int| 0 <= i < raw@.len() implies #[trigger] raw@[i] as char
                == text[i] by {}
            assert forall|i: int| 0 <= i < raw@.len() implies is_visible(#[trigger] raw@[i]) by {}
            if BEARER@.is_prefix_of(text) {
                assert forall|i: int| 0 <= i < 7 implies BEARER@[i] == #[trigger] raw@[i] as char by {
                    assert(text.subrange(0, 7)[i] == BEARER@[i]);
                    assert(raw@[i] as char == text[i]);
                }
                assert(BEARER@[0] == raw@[0] as char && BEARER@[1] == raw@[1] as char);
                assert(BEARER@[2] == raw@[2] as char && BEARER@[3] == raw@[3] as char);
                assert(BEARER@[4] == raw@[4] as char && BEARER@[5] == raw@[5] as char);
                assert(BEARER@[6] == raw@[6] as char);
                assert forall|i: int| 0 <= i < text.skip(7).len() implies
                    #[trigger] text.skip(7)[i] as int == raw@[i + 7] by {
                    assert(raw@[i + 7] as char == text[i + 7]);
                }
            } else if raw@.len() >= 7 && raw@[0] == 66 && raw@[1] == 101 && raw@[2] == 97 && raw@[3]
                == 114 && raw@[4] == 101 && raw@[5] == 114 && raw@[6] == 32 {
                assert(raw@[0] as char == text[0] && raw@[1] as char == text[1]);
                assert(raw@[2] as char == text[2] && raw@[3] as char == text[3]);
                assert(raw@[4] as char == text[4] && raw@[5] as char == text[5]);
                assert(raw@[6] as char == text[6]);
                assert(BEARER@ =~= text.subrange(0, 7));
            }
        } else if forall|i: int|
            0 <= i < raw@.len() ==> 32 <= #[trigger] raw@[i] <= 126 || raw@[i] == 9 {
            assert forall|i: int| 0 <= i < raw@.len() implies is_visible(#[trigger] raw@[i]) by {}
        }
    }
}

} // verus!

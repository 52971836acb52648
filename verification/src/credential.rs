//! Extraction of a (principal-id, secret) pair from the credential header.
//!
//! Only the `Basic` scheme is recognized: the header must start with the
//! literal `"Basic "`, the remainder must be standard-alphabet base64 for
//! valid UTF-8 text of the form `id:secret`, split at the first colon (the
//! secret may itself contain colons). Every violation collapses into the
//! single `MalformedCredential` outcome, so a caller learns nothing about
//! why a credential was rejected.

use vstd::prelude::*;
use vstd::string::*;
use vstd::utf8::{decode_utf8, valid_utf8};

use base64::Engine;

use crate::error::Error;
use crate::text::{has_prefix, starts_with};

verus! {

/// What base64's standard-alphabet engine decodes a string to, or `None`
/// where the string is not valid padded base64. The result is a function of
/// the input characters alone.
pub uninterp spec fn base64_standard_decoded(s: Seq<char>) -> Option<Seq<u8>>;

/// Relies on base64's `STANDARD` engine: decoding either yields the byte
/// sequence the input encodes or fails, deterministically in the input.
#[verifier::external_body]
fn base64_decode(s: &str) -> (r: Option<Vec<u8>>)
    ensures
        match r {
            Some(v) => base64_standard_decoded(s@) == Some(v@),
            None => base64_standard_decoded(s@) is None,
        },
{
    base64::engine::general_purpose::STANDARD.decode(s).ok()
}

/// Relies on `String::from_utf8`, which succeeds exactly on valid UTF-8 and
/// decodes it; vstd's UTF-8 model states both sides.
#[verifier::external_body]
fn utf8_to_string(v: Vec<u8>) -> (r: Option<String>)
    ensures
        r is Some <==> valid_utf8(v@),
        r matches Some(s) ==> s@ == decode_utf8(v@),
{
    String::from_utf8(v).ok()
}

/// The position of the first colon in `s`, if any.
pub open spec fn first_colon(s: Seq<char>) -> Option<int>
    decreases s.len(),
{
    if s.len() == 0 {
        None
    } else if s[0] == ':' {
        Some(0)
    } else {
        match first_colon(s.drop_first()) {
            None => None,
            Some(i) => Some(i + 1),
        }
    }
}

/// Splits `s` at its first colon into (id, secret), the colon excluded;
/// `None` where `s` holds no colon.
pub open spec fn split_first_colon(s: Seq<char>) -> Option<(Seq<char>, Seq<char>)> {
    match first_colon(s) {
        None => None,
        Some(i) => Some((s.subrange(0, i), s.subrange(i + 1, s.len() as int))),
    }
}

proof fn lemma_first_colon_found(s: Seq<char>, i: int)
    requires
        0 <= i < s.len(),
        s[i] == ':',
        forall|j: int| 0 <= j < i ==> s[j] != ':',
    ensures
        first_colon(s) == Some(i),
    decreases i,
{
    if i > 0 {
        lemma_first_colon_found(s.drop_first(), i - 1);
    }
}

proof fn lemma_first_colon_none(s: Seq<char>)
    requires
        forall|j: int| 0 <= j < s.len() ==> s[j] != ':',
    ensures
        first_colon(s) is None,
    decreases s.len(),
{
    if s.len() > 0 {
        lemma_first_colon_none(s.drop_first());
    }
}

/// The view of an optional header value.
pub open spec fn header_view(h: Option<&str>) -> Option<Seq<char>> {
    match h {
        Some(s) => Some(s@),
        None => None,
    }
}

/// The credential pair that a header value carries, if it is well-formed:
/// the `"Basic "` prefix stripped, the remainder base64-decoded, the bytes
/// read as UTF-8, and the text split at its first colon.
pub open spec fn spec_extract_credentials(h: Option<Seq<char>>) -> Option<(Seq<char>, Seq<char>)> {
    match h {
        None => None,
        Some(s) => if !has_prefix(s, "Basic "@) {
            None
        } else {
            match base64_standard_decoded(s.subrange("Basic "@.len() as int, s.len() as int)) {
                None => None,
                Some(bytes) => if !valid_utf8(bytes) {
                    None
                } else {
                    split_first_colon(decode_utf8(bytes))
                },
            }
        },
    }
}

/// Parses the credential header into a (principal-id, secret) pair. Any
/// violation — missing header, wrong scheme, invalid base64, invalid UTF-8,
/// no colon — fails with the single `MalformedCredential` outcome.
pub fn extract_credentials(auth_header: Option<&str>) -> (r: Result<(String, String), Error>)
    ensures
        match r {
            Ok(cred) => spec_extract_credentials(header_view(auth_header)) == Some(
                (cred.0@, cred.1@),
            ),
            Err(e) => spec_extract_credentials(header_view(auth_header)) is None && e
                == Error::MalformedCredential,
        },
{
    let h = match auth_header {
        Some(h) => h,
        None => {
            return Err(Error::MalformedCredential);
        },
    };
    proof {
        reveal_strlit("Basic ");
    }
    if !starts_with(h, "Basic ") {
        return Err(Error::MalformedCredential);
    }
    let n = h.unicode_len();
    let rest = h.substring_char(6, n);
    proof {
        assert(rest@ == h@.subrange("Basic "@.len() as int, h@.len() as int));
    }
    let bytes = match base64_decode(rest) {
        Some(b) => b,
        None => {
            return Err(Error::MalformedCredential);
        },
    };
    let text = match utf8_to_string(bytes) {
        Some(t) => t,
        None => {
            return Err(Error::MalformedCredential);
        },
    };
    let tn = text.as_str().unicode_len();
    let mut i: usize = 0;
    while i < tn
        invariant
            0 <= i <= tn,
            tn == text@.len(),
            forall|j: int| 0 <= j < i ==> text@[j] != ':',
            spec_extract_credentials(header_view(auth_header)) == split_first_colon(text@),
        decreases tn - i,
    {
        if text.as_str().get_char(i) == ':' {
            let id = text.as_str().substring_char(0, i);
            let secret = text.as_str().substring_char(i + 1, tn);
            proof {
                lemma_first_colon_found(text@, i as int);
            }
            return Ok((String::from_str(id), String::from_str(secret)));
        }
        i += 1;
    }
    proof {
        lemma_first_colon_none(text@);
    }
    Err(Error::MalformedCredential)
}

} // verus!

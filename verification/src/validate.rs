//! Syntactic validation of untrusted request fields.
//!
//! Every rule is counted in Unicode scalar values (characters), not bytes.

use vstd::prelude::*;

verus! {

/// An ASCII letter, `a`-`z` or `A`-`Z`.
pub open spec fn is_letter(c: char) -> bool {
    (97 <= c as u32 && c as u32 <= 122) || (65 <= c as u32 && c as u32 <= 90)
}

/// An ASCII decimal digit, `0`-`9`.
pub open spec fn is_digit_char(c: char) -> bool {
    48 <= c as u32 && c as u32 <= 57
}

/// A valid principal name: first character a letter, total length between
/// 2 and 30 characters inclusive, remaining characters letters or digits.
pub open spec fn valid_username(s: Seq<char>) -> bool {
    &&& 2 <= s.len() <= 30
    &&& is_letter(s[0])
    &&& forall|i: int| 1 <= i < s.len() ==> is_letter(#[trigger] s[i]) || is_digit_char(s[i])
}

/// A valid registration password: at least 8 characters.
pub open spec fn valid_password(s: Seq<char>) -> bool {
    s.len() >= 8
}

/// A valid space name: at most 255 characters.
pub open spec fn valid_space_name(s: Seq<char>) -> bool {
    s.len() <= 255
}

/// A valid message text: at most 1024 characters.
pub open spec fn valid_message_text(s: Seq<char>) -> bool {
    s.len() <= 1024
}

/// Checks the principal-name rule on an untrusted field.
pub fn validate_username(s: &str) -> (r: bool)
    ensures
        r == valid_username(s@),
{
    let n = s.unicode_len();
    if n < 2 || n > 30 {
        return false;
    }
    let c0 = s.get_char(0);
    if !((c0 as u32 >= 97 && c0 as u32 <= 122) || (c0 as u32 >= 65 && c0 as u32 <= 90)) {
        return false;
    }
    let mut i: usize = 1;
    while i < n
        invariant
            1 <= i <= n,
            n == s@.len(),
            2 <= n <= 30,
            is_letter(s@[0]),
            forall|j: int| 1 <= j < i ==> is_letter(#[trigger] s@[j]) || is_digit_char(s@[j]),
        decreases n - i,
    {
        let c = s.get_char(i);
        let u = c as u32;
        if !((u >= 97 && u <= 122) || (u >= 65 && u <= 90) || (u >= 48 && u <= 57)) {
            return false;
        }
        i += 1;
    }
    true
}

/// Checks the registration-password rule on an untrusted field.
pub fn validate_password(s: &str) -> (r: bool)
    ensures
        r == valid_password(s@),
{
    s.unicode_len() >= 8
}

/// Checks the space-name rule on an untrusted field.
pub fn validate_space_name(s: &str) -> (r: bool)
    ensures
        r == valid_space_name(s@),
{
    s.unicode_len() <= 255
}

/// Law: every validation rule is a pure function of the field's characters.
/// Two reads of the same field validate alike, so re-running the validator
/// on an already-valid payload never changes its outcome.
pub proof fn lemma_validation_deterministic(a: Seq<char>, b: Seq<char>)
    requires
        a == b,
    ensures
        valid_username(a) == valid_username(b),
        valid_password(a) == valid_password(b),
        valid_space_name(a) == valid_space_name(b),
        valid_message_text(a) == valid_message_text(b),
{
}

/// Checks the message-text rule on an untrusted field.
pub fn validate_message_text(s: &str) -> (r: bool)
    ensures
        r == valid_message_text(s@),
{
    s.unicode_len() <= 1024
}

} // verus!

use vstd::prelude::*;
use crate::models::{SavedToken, SavedTokenView, Timestamp};
use crate::text::owned;

verus! {

/// `text` with every occurrence of `pattern` taken out, the occurrences
/// being found from the left and never overlapping.
pub open spec fn without(text: Seq<char>, pattern: Seq<char>) -> Seq<char>
    decreases text.len(),
{
    if pattern.len() == 0 || text.len() < pattern.len() {
        text
    } else if text.subrange(0, pattern.len() as int) == pattern {
        without(text.skip(pattern.len() as int), pattern)
    } else {
        seq![text[0]] + without(text.skip(1), pattern)
    }
}

/// Calls `str::replace` with the empty string as the replacement. The
/// standard library documents that it replaces all matches of the pattern,
/// which it finds from the left without overlap.
#[verifier::external_body]
fn remove_all(text: &str, pattern: &str) -> (rest: String)
    requires
        pattern@.len() > 0,
    ensures
        rest@ == without(text@, pattern@),
{
    text.replace(pattern, "")
}

/// `c` is one of the ten decimal digits.
pub open spec fn is_decimal_digit(c: char) -> bool {
    '0' <= c && c <= '9'
}

/// The number that a string of decimal digits writes.
pub open spec fn digits_value(digits: Seq<char>) -> nat
    decreases digits.len(),
{
    if digits.len() == 0 {
        0
    } else {
        digits_value(digits.drop_last()) * 10 + ((digits.last() as u32 - '0' as u32) as nat)
    }
}

/// The number that `text` writes as a `u64`: an optional `+` followed by one
/// or more decimal digits and nothing else, the number no larger than
/// `u64::MAX`. Any other text writes none.
pub open spec fn decimal_value(text: Seq<char>) -> Option<u64> {
    let digits = if text.len() > 0 && text[0] == '+' {
        text.skip(1)
    } else {
        text
    };
    if digits.len() > 0 && (forall|i: int| 0 <= i < digits.len() ==> is_decimal_digit(digits[i]))
        && digits_value(digits) <= u64::MAX {
        Some(digits_value(digits) as u64)
    } else {
        None
    }
}

/// Calls `str::parse::<u64>`. The standard library documents the texts it
/// accepts: an optional `+` sign followed by decimal digits only, not empty
/// and not overflowing.
#[verifier::external_body]
fn parse_u64(text: &str) -> (number: Option<u64>)
    ensures
        number == decimal_value(text@),
{
    match text.parse::<u64>() {
        Ok(number) => Some(number),
        Err(_) => None,
    }
}

/// The access token that an authorization header carries: the header
/// without its `Bearer ` marks.
pub open spec fn bearer_token(authorization: Seq<char>) -> Seq<char> {
    without(authorization, "Bearer "@)
}

/// Takes the access token out of an authorization header.
pub fn access_token(authorization: &str) -> (token: String)
    ensures
        token@ == bearer_token(authorization@),
{
    proof {
        reveal_strlit("Bearer ");
    }
    remove_all(authorization, "Bearer ")
}

/// The credential that a request carries in its headers, received at `now`.
/// The time of issue is not known and is taken to be `now`. A lifetime
/// counts only together with a refresh token, and only if it is a number.
pub open spec fn credential_of(
    authorization: Seq<char>,
    refresh_token: Option<Seq<char>>,
    expires_in: Option<Seq<char>>,
    now: Timestamp,
) -> SavedTokenView {
    SavedTokenView {
        access_token: bearer_token(authorization),
        refresh_token,
        expires_in: match (refresh_token, expires_in) {
            (Some(_), Some(text)) => decimal_value(text),
            _ => None,
        },
        issued_at: now,
    }
}

/// Makes the credential that a request carries in its headers.
pub fn request_credential(
    authorization: &str,
    refresh_token: Option<&str>,
    expires_in: Option<&str>,
    now: Timestamp,
) -> (credential: SavedToken)
    ensures
        credential@ == credential_of(
            authorization@,
            match refresh_token {
                Some(token) => Some(token@),
                None => None,
            },
            match expires_in {
                Some(text) => Some(text@),
                None => None,
            },
            now,
        ),
{
    let lifetime = match (refresh_token, expires_in) {
        (Some(_), Some(text)) => parse_u64(text),
        _ => None,
    };
    SavedToken {
        access_token: access_token(authorization),
        refresh_token: owned(refresh_token),
        expires_in: lifetime,
        issued_at: now,
    }
}

} // verus!

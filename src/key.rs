//! Random identifiers: session keys and subscription tokens, fixed-length
//! texts drawn from a cryptographically secure source over the ASCII letters
//! and digits.

use rand::distributions::{Alphanumeric, DistString};
use rand::rngs::OsRng;
use vstd::prelude::*;

verus! {

/// The number of characters in a session key.
pub const SESSION_KEY_LEN: usize = 64;

/// An ASCII letter or digit.
pub open spec fn is_key_char(c: char) -> bool {
    ('a' <= c && c <= 'z') || ('A' <= c && c <= 'Z') || ('0' <= c && c <= '9')
}

/// `len` ASCII letters and digits.
pub open spec fn is_alphanumeric_text(s: Seq<char>, len: nat) -> bool {
    &&& s.len() == len
    &&& forall|i: int| 0 <= i < s.len() ==> is_key_char(#[trigger] s[i])
}

/// A well-formed session key: `SESSION_KEY_LEN` ASCII letters and digits.
pub open spec fn is_session_key(s: Seq<char>) -> bool {
    is_alphanumeric_text(s, SESSION_KEY_LEN as nat)
}

/// The number of characters in a subscription token.
pub const SUBSCRIPTION_TOKEN_LEN: usize = 25;

/// Relies on rand's `DistString::sample_string` for the `Alphanumeric`
/// distribution, drawing from the operating system's generator (`OsRng`):
/// it returns `len` characters, each one of A-Z, a-z and 0-9.
#[verifier::external_body]
fn random_alphanumeric(len: usize) -> (r: String)
    ensures
        is_alphanumeric_text(r@, len as nat),
{
    Alphanumeric.sample_string(&mut OsRng, len)
}

/// A fresh session key. Uniqueness is not checked here: the store claims a
/// key with a conditional write and draws again when the key is taken.
pub fn generate_session_key() -> (r: String)
    ensures
        is_session_key(r@),
{
    random_alphanumeric(SESSION_KEY_LEN)
}

/// A fresh token for a subscription confirmation link:
/// `SUBSCRIPTION_TOKEN_LEN` ASCII letters and digits.
pub fn generate_subscription_token() -> (r: String)
    ensures
        is_alphanumeric_text(r@, SUBSCRIPTION_TOKEN_LEN as nat),
{
    random_alphanumeric(SUBSCRIPTION_TOKEN_LEN)
}

} // verus!

//! Confirmation tokens: what a subscriber presents to prove that the
//! address enrolled is theirs.

use crate::text::{is_ascii_alphanumeric, push_char};
use rand::distributions::Alphanumeric;
use rand::Rng;
use vstd::prelude::*;

verus! {

/// The length of a confirmation token, in characters.
pub const TOKEN_LENGTH: usize = 25;

/// The shape of every confirmation token: 25 ASCII letters and digits.
pub open spec fn is_subscription_token(s: Seq<char>) -> bool {
    &&& s.len() == TOKEN_LENGTH
    &&& forall|i: int| 0 <= i < s.len() ==> is_ascii_alphanumeric(#[trigger] s[i])
}

/// Draws one byte from `rand::distributions::Alphanumeric` with the thread's
/// generator (`rand::thread_rng`), which is cryptographically strong. The
/// distribution yields ASCII letters and digits only; which one is a matter
/// of chance, so nothing else is claimed. The generator is seeded from the
/// operating system and gives up, with a panic, only if that has no
/// entropy to give.
#[verifier::external_body]
fn sample_alphanumeric() -> (byte: u8)
    ensures
        is_ascii_alphanumeric(byte as char),
{
    rand::thread_rng().sample(Alphanumeric)
}

/// A fresh confirmation token.
pub fn generate_subscription_token() -> (token: String)
    ensures
        is_subscription_token(token@),
{
    let mut token = String::new();
    let mut drawn: usize = 0;
    while drawn < TOKEN_LENGTH
        invariant
            drawn <= TOKEN_LENGTH,
            token@.len() == drawn,
            forall|i: int| 0 <= i < token@.len() ==> is_ascii_alphanumeric(#[trigger] token@[i]),
        decreases TOKEN_LENGTH - drawn,
    {
        let byte = sample_alphanumeric();
        push_char(&mut token, byte as char);
        drawn = drawn + 1;
    }
    token
}

} // verus!

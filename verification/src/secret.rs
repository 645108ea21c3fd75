//! The shared secret of a webhook subscription: drawn once by the client that
//! registers the subscription, and used by the gateway to check what the
//! service sends.

use rand::Rng;
use vstd::prelude::*;

verus! {

/// Number of characters in a secret that the library draws.
pub const SECRET_LENGTH: usize = 15;

/// `c` is an ASCII letter or digit.
pub open spec fn is_alphanumeric(c: char) -> bool {
    ('0' <= c <= '9') || ('a' <= c <= 'z') || ('A' <= c <= 'Z')
}

/// `secret` has the form of a secret that the library draws: fifteen ASCII
/// letters and digits.
pub open spec fn is_drawn_secret(secret: Seq<char>) -> bool {
    &&& secret.len() == SECRET_LENGTH
    &&& forall|i: int| 0 <= i < secret.len() ==> is_alphanumeric(#[trigger] secret[i])
}

/// Draws one value from `rand::distributions::Alphanumeric` on the generator
/// of the current thread (`rand::thread_rng`). Trusted: the value is the
/// ASCII code of a letter or a digit. Which one is left open.
#[verifier::external_body]
fn sample_alphanumeric() -> (code: u8)
    ensures
        is_alphanumeric(code as char),
{
    rand::thread_rng().sample(rand::distributions::Alphanumeric)
}

/// Draws a new secret. It is meant to be unique, not to withstand guessing:
/// it travels to the service over an authenticated channel.
pub fn generate_secret() -> (secret: String)
    ensures
        is_drawn_secret(secret@),
        vstd::utf8::encode_utf8(secret@).len() == SECRET_LENGTH,
{
    let mut secret = String::new();
    let mut drawn: usize = 0;
    while drawn < SECRET_LENGTH
        invariant
            drawn <= SECRET_LENGTH,
            secret@.len() == drawn,
            forall|i: int| 0 <= i < secret@.len() ==> is_alphanumeric(#[trigger] secret@[i]),
        decreases SECRET_LENGTH - drawn,
    {
        let code: u8 = sample_alphanumeric();
        secret.push(code as char);
        drawn = drawn + 1;
    }
    proof {
        assert(vstd::utf8::is_ascii_chars(secret@)) by {
            assert forall|i: int| 0 <= i < secret@.len() implies '\0' <= #[trigger] secret@[i]
                <= '\u{7f}' by {
                assert(is_alphanumeric(secret@[i]));
            }
        }
        vstd::utf8::is_ascii_chars_encode_utf8(secret@);
    }
    secret
}

} // verus!

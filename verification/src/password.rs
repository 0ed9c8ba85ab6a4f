//! Random password generation for newly created users: a string of the
//! requested length whose characters are ASCII letters and digits. The
//! randomness comes from the process-wide generator; nothing is promised of
//! which characters come out beyond their alphabet.

use vstd::prelude::*;

use crate::chars::push_char;

verus! {

/// A character a generated password may hold: an ASCII letter or digit.
pub open spec fn is_password_char(c: char) -> bool {
    ('A' <= c && c <= 'Z') || ('a' <= c && c <= 'z') || ('0' <= c && c <= '9')
}

/// Relies on rand's `Alphanumeric` distribution, sampled with `thread_rng`:
/// every sample is drawn from the 62 ASCII letters and digits.
#[verifier::external_body]
fn sample_alphanumeric() -> (c: char)
    ensures
        is_password_char(c),
{
    rand::Rng::sample(&mut rand::thread_rng(), rand::distributions::Alphanumeric) as char
}

/// A fresh random password: `length` characters, each an ASCII letter or
/// digit.
pub fn generate_random_password(length: usize) -> (r: String)
    ensures
        r@.len() == length,
        forall|i: int| 0 <= i < r@.len() ==> is_password_char(#[trigger] r@[i]),
{
    let mut s = String::new();
    let mut i: usize = 0;
    while i < length
        invariant
            0 <= i <= length,
            s@.len() == i,
            forall|k: int| 0 <= k < s@.len() ==> is_password_char(#[trigger] s@[k]),
        decreases length - i,
    {
        push_char(&mut s, sample_alphanumeric());
        i = i + 1;
    }
    s
}

} // verus!

//! Random names for the rendezvous endpoints.
use vstd::prelude::*;

verus! {

/// The number of characters in a rendezvous name.
pub const TOKEN_LEN: usize = 50;

/// An ASCII letter or digit, as a byte.
pub open spec fn is_alphanumeric_byte(b: u8) -> bool {
    (0x30 <= b <= 0x39) || (0x41 <= b <= 0x5a) || (0x61 <= b <= 0x7a)
}

/// An ASCII letter or digit.
pub open spec fn is_token_char(c: char) -> bool {
    ('0' <= c <= '9') || ('A' <= c <= 'Z') || ('a' <= c <= 'z')
}

/// A well-formed rendezvous name: `TOKEN_LEN` ASCII letters and digits.
pub open spec fn is_token(s: Seq<char>) -> bool {
    &&& s.len() == TOKEN_LEN
    &&& forall|i: int| 0 <= i < s.len() ==> #[trigger] is_token_char(s[i])
}

/// Relies on `Rng::sample` of rand's `Alphanumeric` distribution, drawn from
/// `thread_rng`: each sample is one of the 62 bytes `A-Z`, `a-z`, `0-9`.
/// (`thread_rng` panics only where the operating system's random source
/// cannot seed it on first use.)
#[verifier::external_body]
fn random_alphanumeric() -> (r: u8)
    ensures
        is_alphanumeric_byte(r),
{
    rand::Rng::sample(&mut rand::thread_rng(), rand::distributions::Alphanumeric)
}

/// Relies on `String::push`: appends one character.
#[verifier::external_body]
pub(crate) fn push_char(s: &mut String, c: char)
    ensures
        final(s)@ == old(s)@.push(c),
{
    s.push(c)
}

/// A fresh random name for a rendezvous endpoint: `TOKEN_LEN` letters and
/// digits drawn at random, so that no other process can guess it.
pub fn generate_random_address() -> (r: String)
    ensures
        is_token(r@),
{
    let mut s = String::new();
    let mut i: usize = 0;
    while i < TOKEN_LEN
        invariant
            i <= TOKEN_LEN,
            s@.len() == i,
            forall|j: int| 0 <= j < i ==> #[trigger] is_token_char(s@[j]),
        decreases TOKEN_LEN - i,
    {
        let b = random_alphanumeric();
        let c = b as char;
        assert(is_token_char(c)) by {
            assert(is_alphanumeric_byte(b));
        }
        push_char(&mut s, c);
        i += 1;
    }
    s
}

} // verus!

//! The two sources of chance that the relay draws on: fresh unique ids, and
//! a seeded generator for room numbers.

use rand::rngs::StdRng;
use rand::Rng;
use rand::SeedableRng;
use vstd::prelude::*;

verus! {

/// The seeded random number generator of the `rand` crate. Nothing of its
/// state is visible here.
#[verifier::external_type_specification]
#[verifier::external_body]
pub struct ExStdRng(StdRng);

/// Whether a character is a lower-case hexadecimal digit.
pub open spec fn is_lower_hex(c: char) -> bool {
    ('0' <= c && c <= '9') || ('a' <= c && c <= 'f')
}

/// The shape of a unique id written out: thirty-six characters, hyphens
/// after the eighth, twelfth, sixteenth and twentieth hexadecimal digit.
pub open spec fn is_uuid_text(text: Seq<char>) -> bool {
    &&& text.len() == 36
    &&& forall|i: int|
        0 <= i < 36 ==> if i == 8 || i == 13 || i == 18 || i == 23 {
            #[trigger] text[i] == '-'
        } else {
            is_lower_hex(#[trigger] text[i])
        }
}

/// Calls `uuid::Uuid::new_v4` and writes the id out with its `Display`
/// impl. Which id comes back is left open; the contract claims its shape
/// alone, the lower-case hyphenated form that the crate's formatter produces.
#[verifier::external_body]
pub(crate) fn new_uuid_text() -> (text: String)
    ensures
        is_uuid_text(text@),
{
    uuid::Uuid::new_v4().to_string()
}

/// Calls `rand::SeedableRng::seed_from_u64` for `StdRng`. Nothing is claimed
/// of the generator that comes back.
#[verifier::external_body]
pub(crate) fn rng_from_seed(seed: u64) -> StdRng {
    StdRng::seed_from_u64(seed)
}

/// Calls `rand::Rng::gen_range` on the half-open range from `low` to `high`,
/// which the call requires not to be empty. Which number comes back is left
/// open; the contract claims that it lies in the range.
#[verifier::external_body]
pub(crate) fn random_in_range(rng: &mut StdRng, low: u32, high: u32) -> (n: u32)
    requires
        low < high,
    ensures
        low <= n < high,
{
    rng.gen_range(low..high)
}

/// Whether a character is an ASCII letter or digit.
pub open spec fn is_alphanumeric(c: char) -> bool {
    ('0' <= c && c <= '9') || ('a' <= c && c <= 'z') || ('A' <= c && c <= 'Z')
}

/// Whether a text is made of ASCII letters and digits alone.
pub open spec fn is_token_text(text: Seq<char>) -> bool {
    forall|i: int| 0 <= i < text.len() ==> is_alphanumeric(#[trigger] text[i])
}

/// Draws `len` characters from the `Alphanumeric` distribution of the
/// `rand` crate, with the generator of the current thread. Which characters
/// come back is left open; the contract claims their number, and that each is
/// an ASCII letter or digit, which is what the distribution picks from.
#[verifier::external_body]
pub(crate) fn random_token(len: usize) -> (text: String)
    ensures
        text@.len() == len,
        is_token_text(text@),
{
    rand::thread_rng().sample_iter(&rand::distributions::Alphanumeric).take(len).map(char::from).collect()
}

} // verus!

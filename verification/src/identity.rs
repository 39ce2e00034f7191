//! The client identifier: a fixed prefix and a random suffix, so that two
//! runs at the same time do not collide at the broker.

use vstd::prelude::*;
use vstd::string::*;
use rand::distributions::Alphanumeric;
use rand::Rng;

verus! {

/// How many characters the random suffix has.
pub const SUFFIX_LEN: usize = 7;

/// An ASCII letter or digit.
pub open spec fn is_alphanumeric(c: char) -> bool {
    ('a' <= c && c <= 'z') || ('A' <= c && c <= 'Z') || ('0' <= c && c <= '9')
}

/// A text of the suffix's length made of ASCII letters and digits.
pub open spec fn is_suffix(text: Seq<char>) -> bool {
    &&& text.len() == SUFFIX_LEN
    &&& forall|i: int| 0 <= i < text.len() ==> is_alphanumeric(#[trigger] text[i])
}

/// The identifier with a given suffix: the three parts joined by `-`.
pub open spec fn client_id_of(suffix: Seq<char>) -> Seq<char> {
    "home-faerie"@ + "-"@ + "heating-manager"@ + "-"@ + suffix
}

/// Draws one character from `rand`'s `Alphanumeric` distribution with the
/// thread's generator, as a text of its own. Trusted: the character is one of
/// `A-Z`, `a-z`, `0-9`; which one is left open.
#[verifier::external_body]
fn random_alphanumeric() -> (text: String)
    ensures
        text@.len() == 1,
        is_alphanumeric(text@[0]),
{
    String::from(char::from(rand::thread_rng().sample(Alphanumeric)))
}

/// A fresh random suffix.
pub fn random_suffix() -> (suffix: String)
    ensures
        is_suffix(suffix@),
{
    let mut suffix = String::new();
    let mut drawn: usize = 0;
    while drawn < SUFFIX_LEN
        invariant
            drawn <= SUFFIX_LEN,
            suffix@.len() == drawn,
            forall|i: int| 0 <= i < suffix@.len() ==> is_alphanumeric(#[trigger] suffix@[i]),
        decreases SUFFIX_LEN - drawn,
    {
        let next = random_alphanumeric();
        suffix.append(next.as_str());
        drawn = drawn + 1;
    }
    suffix
}

/// The identifier that ends in `suffix`.
pub fn client_id(suffix: &str) -> (id: String)
    ensures
        id@ == client_id_of(suffix@),
{
    String::from_str("home-faerie").concat("-").concat("heating-manager").concat("-").concat(
        suffix,
    )
}

/// An identifier with a fresh random suffix.
pub fn fresh_client_id() -> (id: String)
    ensures
        exists|suffix: Seq<char>| is_suffix(suffix) && id@ == #[trigger] client_id_of(suffix),
{
    let suffix = random_suffix();
    client_id(suffix.as_str())
}

} // verus!

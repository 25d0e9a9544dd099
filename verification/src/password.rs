//! Password hashing and checking, done by the `argon2` crate.

use vstd::prelude::*;
use vstd::utf8::{encode_scalar, encode_utf8};

use argon2::password_hash::rand_core::OsRng;
use argon2::password_hash::{PasswordHash, PasswordHasher, PasswordVerifier, SaltString};
use argon2::Argon2;

verus! {

/// A character of the standard Base64 alphabet.
pub open spec fn b64_char(c: char) -> bool {
    ('A' <= c && c <= 'Z') || ('a' <= c && c <= 'z') || ('0' <= c && c <= '9') || c == '+' || c == '/'
}

/// The text of a 16-byte salt in standard Base64 without padding: 22 characters,
/// the last of which carries only two bits (so its low four bits are zero).
pub open spec fn salt16_text(s: Seq<char>) -> bool {
    &&& s.len() == 22
    &&& forall|i: int| 0 <= i < 21 ==> b64_char(#[trigger] s[i])
    &&& (s[21] == 'A' || s[21] == 'Q' || s[21] == 'g' || s[21] == 'w')
}

/// The number of bytes of a text in UTF-8.
pub open spec fn utf8_len(s: Seq<char>) -> nat {
    encode_utf8(s).len()
}

/// A password that Argon2 accepts: at most `0xFFFF_FFFF` bytes.
pub open spec fn password_hashable(p: Seq<char>) -> bool {
    utf8_len(p) <= 0xFFFF_FFFF
}

/// A text takes at most four bytes per character in UTF-8.
pub proof fn lemma_utf8_len_bound(s: Seq<char>)
    ensures
        utf8_len(s) <= 4 * s.len(),
    decreases s.len(),
{
    if s.len() > 0 {
        lemma_utf8_len_bound(s.drop_first());
        assert(encode_scalar(s[0] as u32).len() <= 4);
    }
}

/// Whether `PasswordHash::new` accepts `phc` as a PHC string.
pub uninterp spec fn spec_phc_parses(phc: Seq<char>) -> bool;

/// Whether `Argon2::default().verify_password` accepts `password` against the
/// parsed PHC string `phc`.
pub uninterp spec fn spec_password_verifies(password: Seq<char>, phc: Seq<char>) -> bool;

/// The PHC string that `Argon2::default().hash_password` produces for `password`
/// with the Base64 salt `salt`, or `None` where the salt is not valid Base64 or
/// hashing fails.
pub uninterp spec fn spec_argon2_phc(password: Seq<char>, salt: Seq<char>) -> Option<Seq<char>>;

/// Checks `password` against the stored PHC string `phc`: calls
/// `PasswordHash::new(phc)` (`None` when it fails) and then
/// `Argon2::default().verify_password` (`Some(true)` when it returns `Ok`).
/// Claimed: the outcome is a function of the two texts; a text that is empty or
/// does not start with `$` is not a PHC string (`PasswordHash::parse` rejects it).
#[verifier::external_body]
pub(crate) fn verify_password(password: &str, phc: &str) -> (r: Option<bool>)
    ensures
        r.is_some() == spec_phc_parses(phc@),
        r matches Some(b) ==> b == spec_password_verifies(password@, phc@),
        (phc@.len() == 0 || phc@[0] != '$') ==> r.is_none(),
{
    match PasswordHash::new(phc) {
        Ok(parsed) => Some(Argon2::default().verify_password(password.as_bytes(), &parsed).is_ok()),
        Err(_) => None,
    }
}

/// A fresh random salt: `SaltString::generate(&mut OsRng)`, as its Base64 text.
/// Claimed of every outcome: it encodes 16 random bytes (`Salt::RECOMMENDED_LENGTH`)
/// with `encode_b64`, so it is the text of a 16-byte salt; which bytes is random.
#[verifier::external_body]
pub(crate) fn new_salt() -> (s: String)
    ensures
        salt16_text(s@),
{
    SaltString::generate(&mut OsRng).as_str().to_string()
}

/// Hashes `password` with `Argon2::default().hash_password` and the salt read by
/// `SaltString::from_b64(salt)`, giving the PHC string (`None` on an error of either).
/// Claimed, as the `argon2` documentation shows: a produced PHC string parses and
/// verifies the password it was made from. Claimed from the sources: the text of
/// a 16-byte salt passes `SaltString::from_b64` and decodes back (`base64ct`
/// checks the round trip of the last block), 16 bytes are within Argon2's salt
/// limits, and with the default parameters hashing fails only for a password
/// over `0xFFFF_FFFF` bytes, so such a salt and password give a hash.
#[verifier::external_body]
pub(crate) fn hash_password(password: &str, salt: &str) -> (r: Option<String>)
    ensures
        salt16_text(salt@) && password_hashable(password@) ==> r.is_some(),
        r.is_some() == spec_argon2_phc(password@, salt@).is_some(),
        r matches Some(h) ==> h@ == spec_argon2_phc(password@, salt@)->0,
        r matches Some(h) ==> spec_phc_parses(h@) && spec_password_verifies(password@, h@),
{
    match SaltString::from_b64(salt) {
        Ok(s) => match Argon2::default().hash_password(password.as_bytes(), &s) {
            Ok(h) => Some(h.to_string()),
            Err(_) => None,
        },
        Err(_) => None,
    }
}

} // verus!

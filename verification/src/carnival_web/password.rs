//! Checking a text against a keyed bcrypt hash with `easy_password`.

use vstd::prelude::*;

verus! {

/// What `easy_password::bcrypt::verify_password` returns for a text, a hash
/// and a key: whether the text matches (`None`: the crate's error).
pub uninterp spec fn password_verification(password: Seq<char>, hashed: Seq<char>, hmac_key: Seq<u8>) -> Option<bool>;

/// Calls `easy_password::bcrypt::verify_password`, which keys the text with
/// HMAC-SHA256 under `hmac_key` and checks the hex digest against the bcrypt
/// hash `hashed`. Its result depends on the arguments alone, and it refuses
/// any hash that is not exactly 60 ASCII bytes, so any hash that is not 60
/// characters long. Which texts match which hashes is not stated here.
#[verifier::external_body]
pub(crate) fn verify_password(password: &str, hashed: &str, hmac_key: &[u8]) -> (r: Option<bool>)
    ensures
        r == password_verification(password@, hashed@, hmac_key@),
        hashed@.len() != 60 ==> r is None,
{
    match easy_password::bcrypt::verify_password(password, hashed, hmac_key) {
        Ok(matches) => Some(matches),
        Err(_) => None,
    }
}

/// Calls `easy_password::bcrypt::hash_password` with cost 12: the text is
/// keyed with HMAC-SHA256 under `hmac_key` and the hex digest is hashed with
/// bcrypt under a fresh random salt, so two calls give different hashes. What
/// is stated holds of every outcome: the hash is a 60-character bcrypt string
/// and `verify_password` accepts the same text under the same key against it.
/// The crate panics only when the system's random source fails.
#[verifier::external_body]
pub(crate) fn hash_password(password: &str, hmac_key: &[u8]) -> (r: String)
    ensures
        r@.len() == 60,
        password_verification(password@, r@, hmac_key@) == Some(true),
{
    easy_password::bcrypt::hash_password(password, hmac_key, 12).expect("cost 12 is allowed and HMAC takes any key")
}

} // verus!

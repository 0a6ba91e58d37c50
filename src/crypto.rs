use vstd::prelude::*;
use base64::Engine;
use hmac::{Hmac, Mac};
use sha1::Sha1;

verus! {

/// HMAC-SHA1 of the UTF-8 bytes of `message`, keyed by the UTF-8 bytes of `key`.
pub uninterp spec fn hmac_sha1_of(key: Seq<char>, message: Seq<char>) -> Seq<u8>;

/// Padded base64 of `bytes` in the standard alphabet.
pub uninterp spec fn base64_of(bytes: Seq<u8>) -> Seq<char>;

/// The relay's long-term key for `username`, `realm` and `password`.
pub uninterp spec fn auth_key_of(username: Seq<char>, realm: Seq<char>, password: Seq<char>) -> Seq<u8>;

/// The password that a shared secret gives a username: base64 of the HMAC-SHA1 digest.
pub open spec fn password_of(secret: Seq<char>, username: Seq<char>) -> Seq<char> {
    base64_of(hmac_sha1_of(secret, username))
}

#[verifier::external_type_specification]
#[verifier::external_body]
pub struct ExInvalidLength(hmac::digest::InvalidLength);

/// Relies on `Mac::new_from_slice`, `update` and `finalize` of `hmac::Hmac<sha1::Sha1>`:
/// the digest of the message under the key. HMAC takes a key of any length
/// (longer ones are hashed first), so key setup never reports `InvalidLength`;
/// SHA-1's output, and so the digest, is 20 bytes.
#[verifier::external_body]
fn hmac_sha1(key: &str, message: &str) -> (r: Result<Vec<u8>, hmac::digest::InvalidLength>)
    ensures
        r is Ok,
        r matches Ok(d) ==> d@ == hmac_sha1_of(key@, message@),
        r matches Ok(d) ==> d@.len() == 20,
{
    let mut mac = <Hmac<Sha1> as Mac>::new_from_slice(key.as_bytes())?;
    mac.update(message.as_bytes());
    Ok(mac.finalize().into_bytes().to_vec())
}

/// Relies on `Engine::encode` of `base64::engine::general_purpose::STANDARD`:
/// padded output, four characters for every three bytes begun.
#[verifier::external_body]
fn base64_encode(bytes: &Vec<u8>) -> (r: String)
    ensures
        r@ == base64_of(bytes@),
        r@.len() == 4 * ((bytes@.len() + 2) / 3),
{
    base64::engine::general_purpose::STANDARD.encode(bytes)
}

/// Relies on `turn::auth::generate_auth_key`: the MD5 digest of
/// `username:realm:password`, the key the relay checks message integrity with.
pub assume_specification[ turn::auth::generate_auth_key ](
    username: &str,
    realm: &str,
    password: &str,
) -> (r: Vec<u8>)
    ensures
        r@ == auth_key_of(username@, realm@, password@),
;

/// The key could not be set up from the shared secret.
pub struct InvalidAuthSecret;

/// Derives the password of `username` from the shared secret.
pub fn hmac_password(secret: &str, username: &str) -> (r: Result<String, InvalidAuthSecret>)
    ensures
        r is Ok,
        r matches Ok(p) ==> p@ == password_of(secret@, username@),
        r matches Ok(p) ==> p@.len() == 28,
{
    match hmac_sha1(secret, username) {
        Ok(digest) => Ok(base64_encode(&digest)),
        Err(_) => Err(InvalidAuthSecret),
    }
}

/// Derives the password of `username` on the relay's side, where no error can be reported.
pub fn hmac_password_for_turn(secret: &str, username: &str) -> (r: String)
    ensures
        r@ == password_of(secret@, username@),
        r@.len() == 28,
{
    match hmac_password(secret, username) {
        Ok(p) => p,
        Err(_) => String::new(),
    }
}

} // verus!

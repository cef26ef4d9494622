//! Fresh identifiers and keys.
use base64::Engine;
use rand::RngCore;
use vstd::prelude::*;

verus! {

/// Whether a string has the shape of a UUID: 36 characters, hyphens at four places and lower-case
/// hexadecimal digits at all others.
pub open spec fn is_uuid(s: Seq<char>) -> bool {
    &&& s.len() == 36
    &&& forall|i: int|
        0 <= i < 36 ==> if i == 8 || i == 13 || i == 18 || i == 23 {
            #[trigger] s[i] == '-'
        } else {
            '0' <= s[i] <= '9' || 'a' <= s[i] <= 'f'
        }
}

/// Bytes in base64, without padding.
pub uninterp spec fn base64_unpadded(data: Seq<u8>) -> Seq<char>;

/// `uuid::Uuid::new_v4`, written with hyphens. Every call makes a new one.
#[verifier::external_body]
fn new_uuid() -> (r: String)
    ensures
        is_uuid(r@),
{
    uuid::Uuid::new_v4().to_string()
}

/// `rand::RngCore::fill_bytes` on sixteen bytes. Every call gives other bytes.
#[verifier::external_body]
fn random_bytes() -> (r: Vec<u8>)
    ensures
        r@.len() == 16,
{
    let mut bytes = [0u8; 16];
    rand::thread_rng().fill_bytes(&mut bytes);
    bytes.to_vec()
}

/// `base64::Engine::encode` with the standard alphabet and no padding: a function of the bytes. Four
/// characters stand for three bytes, and as many as it takes for what is left over.
#[verifier::external_body]
fn encode_unpadded(data: &Vec<u8>) -> (r: String)
    ensures
        r@ == base64_unpadded(data@),
        r@.len() == (4 * data@.len() + 2) / 3,
{
    base64::engine::general_purpose::STANDARD_NO_PAD.encode(data)
}

/// A fresh identifier.
pub fn generate_id() -> (r: String)
    ensures
        is_uuid(r@),
{
    new_uuid()
}

/// A fresh key for the handshake of a WebSocket: sixteen random bytes, in base64.
pub fn generate_key() -> (r: String)
    ensures
        exists|bytes: Seq<u8>| bytes.len() == 16 && r@ == #[trigger] base64_unpadded(bytes),
        r@.len() == 22,
{
    let bytes = random_bytes();
    encode_unpadded(&bytes)
}

} // verus!

//! Cryptographic utilities: content digests and the placeholder response
//! signature. The digest itself comes from the blake3 crate; this module
//! states its result as a named function of the input bytes and builds the
//! derived values in verified code.

use vstd::prelude::*;
use vstd::string::*;

verus! {

/// The lowercase hex encoding of the blake3 digest of `data`.
pub uninterp spec fn blake3_hex_of(data: Seq<u8>) -> Seq<char>;

/// Relies on `blake3::hash` and `blake3::Hash::to_hex`: the digest is a
/// function of the input bytes alone, and its hex encoding is 64
/// characters long.
#[verifier::external_body]
fn blake3_hex(data: &[u8]) -> (r: String)
    ensures
        r@ == blake3_hex_of(data@),
        r@.len() == 64,
{
    blake3::hash(data).to_hex().as_str().to_string()
}

/// The shortened digest used throughout the crate: the first 16 hex
/// characters of the blake3 digest.
pub open spec fn digest16_of(data: Seq<u8>) -> Seq<char> {
    blake3_hex_of(data).subrange(0, 16)
}

/// Cryptographic utilities.
pub struct CryptoProvider;

impl CryptoProvider {
    /// Shortened blake3 digest of `data`: the first 16 hex characters.
    pub fn blake3_hash(data: &[u8]) -> (r: String)
        ensures
            r@ == digest16_of(data@),
            r@.len() == 16,
    {
        let hex = blake3_hex(data);
        let prefix = hex.as_str().substring_char(0, 16);
        prefix.to_owned()
    }

    /// SM3 digest stand-in: falls back to the shortened blake3 digest.
    pub fn sm3_hash(data: &[u8]) -> (r: String)
        ensures
            r@ == digest16_of(data@),
            r@.len() == 16,
    {
        Self::blake3_hash(data)
    }

    /// SM2 signature stand-in: a tagged digest of the signed bytes.
    pub fn sm2_sign(data: &[u8], _private_key: &[u8]) -> (r: Result<
        String,
        crate::error::AgentError,
    >)
        ensures
            r is Ok,
            r->Ok_0@ == "signature_placeholder_"@ + digest16_of(data@),
    {
        let mut s: String = "signature_placeholder_".to_owned();
        let hash = Self::blake3_hash(data);
        s.append(hash.as_str());
        Ok(s)
    }
}

} // verus!

use vstd::prelude::*;

verus! {

/// Verification-key material as the backend reports it.
#[derive(Debug)]
pub struct VerificationKey {
    pub verification_key: String,
}

/// What base64::decode_config returns with the URL_SAFE_NO_PAD config on the
/// given text: the decoded bytes, or nothing where the text is not valid
/// unpadded URL-safe base64.
pub uninterp spec fn b64_url_nopad_decode(s: Seq<char>) -> Option<Seq<u8>>;

/// What base64::encode_config returns with the STANDARD (padded) config on
/// the given bytes.
pub uninterp spec fn b64_std_encode(b: Seq<u8>) -> Seq<char>;

/// What base64::decode_config returns with the STANDARD (padded) config on
/// the given text.
pub uninterp spec fn b64_std_decode(s: Seq<char>) -> Option<Seq<u8>>;

/// Relies on base64::decode_config with URL_SAFE_NO_PAD: decodes unpadded
/// URL-safe base64, or reports the text invalid.
#[verifier::external_body]
fn decode_url_nopad(s: &str) -> (r: Result<Vec<u8>, String>)
    ensures
        r matches Ok(v) ==> b64_url_nopad_decode(s@) == Some(v@),
        r is Err <==> b64_url_nopad_decode(s@) is None,
{
    base64::decode_config(s, base64::URL_SAFE_NO_PAD).map_err(|e| e.to_string())
}

/// Relies on base64::encode_config with STANDARD: encodes with padding.
/// Decoding the result with the same config recovers the bytes; the two
/// functions are documented inverses.
#[verifier::external_body]
fn encode_std(b: &Vec<u8>) -> (r: String)
    ensures
        r@ == b64_std_encode(b@),
        b64_std_decode(r@) == Some(b@),
{
    base64::encode_config(b, base64::STANDARD)
}

/// The re-encoded form of a key: its URL-safe unpadded decoding, re-encoded
/// as standard padded base64; nothing where the key does not decode.
pub open spec fn spec_reformat_vk(s: Seq<char>) -> Option<Seq<char>> {
    match b64_url_nopad_decode(s) {
        Some(b) => Some(b64_std_encode(b)),
        None => None,
    }
}

/// Re-encode a verification key from the backend's encoding (URL-safe,
/// unpadded base64) to the caller's encoding (standard, padded base64).
/// Exactly the keys that decode under the URL-safe unpadded alphabet are
/// re-encoded, and decoding the result under the standard alphabet recovers
/// the original raw bytes, so one re-encoding step is lossless.
pub fn reformat_vk(vk_old: String) -> (r: Result<String, String>)
    ensures
        r matches Ok(nv) ==> Some(nv@) == spec_reformat_vk(vk_old@),
        r matches Ok(nv) ==> b64_std_decode(nv@) == b64_url_nopad_decode(vk_old@),
        r is Err <==> b64_url_nopad_decode(vk_old@) is None,
{
    match decode_url_nopad(vk_old.as_str()) {
        Ok(bytes) => Ok(encode_std(&bytes)),
        Err(e) => Err(e),
    }
}

} // verus!

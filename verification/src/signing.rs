//! Signed-artifact verification: a detached Ed25519 signature over the
//! canonical payload bytes exactly as presented, against an embedded 32-byte
//! verifying key. Signature files may be raw 64 bytes or base64url/base64
//! text; they are normalized before verification.

use base64::Engine;
use vstd::prelude::*;
use vstd::string::StrSliceExecFns;
use crate::text::trim_spec;

verus! {

/// Whether the Ed25519 signature verifies (strictly) for the key and payload:
/// a function of the three byte strings alone.
pub uninterp spec fn ed25519_verifies(key: Seq<u8>, payload: Seq<u8>, sig: Seq<u8>) -> bool;

/// The base64url (no padding) decoding of the text, or `None` when it does
/// not decode: a function of the characters alone.
pub uninterp spec fn b64url_decode_of(text: Seq<char>) -> Option<Seq<u8>>;

/// The standard base64 decoding of the text, or `None` when it does not
/// decode: a function of the characters alone.
pub uninterp spec fn b64std_decode_of(text: Seq<char>) -> Option<Seq<u8>>;

/// The characters of the bytes decoded as UTF-8, or `None` when the bytes are
/// not valid UTF-8: a function of the bytes alone.
pub uninterp spec fn utf8_chars_of(bytes: Seq<u8>) -> Option<Seq<char>>;

/// Relies on `ed25519_dalek::VerifyingKey::{from_bytes, verify_strict}` (and
/// `Signature::from_bytes`, which converts the argument and cannot fail):
/// strict verification is a function of key, payload and signature bytes
/// alone. A key that decodes to no curve point verifies nothing.
#[verifier::external_body]
fn ed25519_verify(key: &Vec<u8>, payload: &Vec<u8>, sig: &Vec<u8>) -> (r: bool)
    requires
        key@.len() == 32,
        sig@.len() == 64,
    ensures
        r == ed25519_verifies(key@, payload@, sig@),
{
    let mut key_arr = [0u8; 32];
    key_arr.copy_from_slice(key.as_slice());
    let mut sig_arr = [0u8; 64];
    sig_arr.copy_from_slice(sig.as_slice());
    match ed25519_dalek::VerifyingKey::from_bytes(&key_arr) {
        Ok(vk) => {
            let sig = ed25519_dalek::Signature::from_bytes(&sig_arr);
            vk.verify_strict(payload.as_slice(), &sig).is_ok()
        },
        Err(_) => false,
    }
}

/// Relies on `base64::Engine::decode` with the `URL_SAFE_NO_PAD` engine: the
/// decoding is a function of the characters alone.
#[verifier::external_body]
pub(crate) fn b64url_decode(text: &str) -> (r: Option<Vec<u8>>)
    ensures
        r is Some <==> b64url_decode_of(text@) is Some,
        r matches Some(v) ==> b64url_decode_of(text@) == Some(v@),
{
    base64::engine::general_purpose::URL_SAFE_NO_PAD.decode(text.as_bytes()).ok()
}

/// Relies on `base64::Engine::decode` with the `STANDARD` engine: the
/// decoding is a function of the characters alone.
#[verifier::external_body]
fn b64std_decode(text: &str) -> (r: Option<Vec<u8>>)
    ensures
        r is Some <==> b64std_decode_of(text@) is Some,
        r matches Some(v) ==> b64std_decode_of(text@) == Some(v@),
{
    base64::engine::general_purpose::STANDARD.decode(text.as_bytes()).ok()
}

/// Relies on `std::str::from_utf8`: decoding succeeds exactly on valid UTF-8
/// and is a function of the bytes alone.
#[verifier::external_body]
fn utf8_to_string(raw: &Vec<u8>) -> (r: Option<String>)
    ensures
        r is Some <==> utf8_chars_of(raw@) is Some,
        r matches Some(s) ==> utf8_chars_of(raw@) == Some(s@),
{
    match std::str::from_utf8(raw.as_slice()) {
        Ok(s) => Some(s.to_string()),
        Err(_) => None,
    }
}

/// Why an artifact was rejected.
#[derive(Debug, Clone, Copy, PartialEq, Eq, Structural)]
pub enum SigError {
    /// The signature file is neither raw 64 bytes nor UTF-8 text.
    NotText,
    /// The signature file is text but blank.
    EmptySignature,
    /// The signature text decodes under neither base64url nor base64.
    DecodeFailure,
    /// The decoded signature is not 64 bytes long.
    InvalidLength,
    /// The verifying key is not 32 bytes long.
    BadKey,
    /// The signature does not verify over the payload.
    Mismatch,
}

/// Signature-file normalization: raw 64 bytes pass through; anything else
/// must be UTF-8 text that, trimmed, is non-empty and decodes as base64url
/// or, failing that, as standard base64.
pub open spec fn normalized_sig(raw: Seq<u8>) -> Result<Seq<u8>, SigError> {
    if raw.len() == 64 {
        Ok(raw)
    } else {
        match utf8_chars_of(raw) {
            None => Err(SigError::NotText),
            Some(text) => {
                let t = trim_spec(text);
                if t.len() == 0 {
                    Err(SigError::EmptySignature)
                } else {
                    match b64url_decode_of(t) {
                        Some(v) => Ok(v),
                        None => match b64std_decode_of(t) {
                            Some(v) => Ok(v),
                            None => Err(SigError::DecodeFailure),
                        },
                    }
                }
            },
        }
    }
}

/// Normalizes a signature file's bytes, exactly as `normalized_sig` says.
pub fn normalize_sig_bytes(raw: &Vec<u8>) -> (r: Result<Vec<u8>, SigError>)
    ensures
        r is Ok <==> normalized_sig(raw@) is Ok,
        r matches Ok(v) ==> normalized_sig(raw@) == Ok::<Seq<u8>, SigError>(v@),
        r matches Err(e) ==> normalized_sig(raw@) == Err::<Seq<u8>, SigError>(e),
{
    if raw.len() == 64 {
        let mut out: Vec<u8> = Vec::new();
        let mut i: usize = 0;
        while i < raw.len()
            invariant
                i <= raw@.len(),
                out@ =~= raw@.take(i as int),
            decreases raw@.len() - i,
        {
            out.push(raw[i]);
            assert(out@ =~= raw@.take(i + 1));
            i += 1;
        }
        assert(raw@.take(raw@.len() as int) =~= raw@);
        return Ok(out);
    }
    let text = match utf8_to_string(raw) {
        Some(t) => t,
        None => {
            return Err(SigError::NotText);
        },
    };
    let t = crate::text::trim_str(text.as_str());
    if t.unicode_len() == 0 {
        return Err(SigError::EmptySignature);
    }
    match b64url_decode(t) {
        Some(v) => Ok(v),
        None => match b64std_decode(t) {
            Some(v) => Ok(v),
            None => Err(SigError::DecodeFailure),
        },
    }
}

/// Detached-signature verification: normalize the signature file, demand 64
/// decoded bytes and a 32-byte key, then check the Ed25519 signature over the
/// payload bytes exactly as presented.
pub open spec fn verify_sig_spec(key: Seq<u8>, payload: Seq<u8>, raw: Seq<u8>) -> Result<
    (),
    SigError,
> {
    match normalized_sig(raw) {
        Err(e) => Err(e),
        Ok(s) => {
            if s.len() != 64 {
                Err(SigError::InvalidLength)
            } else if key.len() != 32 {
                Err(SigError::BadKey)
            } else if ed25519_verifies(key, payload, s) {
                Ok(())
            } else {
                Err(SigError::Mismatch)
            }
        },
    }
}

/// Verifies a detached signature, exactly as `verify_sig_spec` says.
pub fn verify_detached_signature(key: &Vec<u8>, payload: &Vec<u8>, sig_raw: &Vec<u8>) -> (r: Result<
    (),
    SigError,
>)
    ensures
        r is Ok <==> verify_sig_spec(key@, payload@, sig_raw@) is Ok,
        r matches Err(e) ==> verify_sig_spec(key@, payload@, sig_raw@) == Err::<(), SigError>(e),
{
    let sig = match normalize_sig_bytes(sig_raw) {
        Ok(s) => s,
        Err(e) => {
            return Err(e);
        },
    };
    if sig.len() != 64 {
        return Err(SigError::InvalidLength);
    }
    if key.len() != 32 {
        return Err(SigError::BadKey);
    }
    if ed25519_verify(key, payload, &sig) {
        Ok(())
    } else {
        Err(SigError::Mismatch)
    }
}

/// A signature whose normalized form is not exactly 64 bytes long is always
/// rejected, whatever the key and payload.
pub proof fn lemma_wrong_length_rejected(key: Seq<u8>, payload: Seq<u8>, raw: Seq<u8>)
    requires
        normalized_sig(raw) matches Ok(s) && s.len() != 64,
    ensures
        verify_sig_spec(key, payload, raw) == Err::<(), SigError>(SigError::InvalidLength),
{
}

} // verus!

//! Framing of the transit backend's payloads: plaintext and ciphertext
//! travel in base64, and ciphertext carries a version prefix.
use vstd::prelude::*;
use vstd::string::*;
use crate::envelope::{parse_vault_response, body_decodes, body_decodes_to, is_malformed,
    TransitDecryptedData, TransitEncryptedData, VaultResponse};
use crate::error::Error;
use crate::json::{json_object, json_string, object_text, quote};

verus! {

/// The base64 text (standard alphabet, padded) of some bytes.
pub uninterp spec fn b64_encoded(b: Seq<u8>) -> Seq<char>;

/// The bytes that a base64 text (standard alphabet, padded) stands for, or
/// `None` where it is not valid base64.
pub uninterp spec fn b64_decoded(s: Seq<char>) -> Option<Seq<u8>>;

/// Relies on base64::encode (standard alphabet, with padding); base64::decode
/// reads what it writes back into the same bytes.
#[verifier::external_body]
fn b64_encode(b: &[u8]) -> (r: String)
    ensures
        r@ == b64_encoded(b@),
        b64_decoded(r@) == Some(b@),
{
    base64::encode(b)
}

/// Relies on base64::decode (standard alphabet, with padding): the bytes, or
/// the decode error's text.
#[verifier::external_body]
fn b64_decode(s: &str) -> (r: Result<Vec<u8>, String>)
    ensures
        r is Ok <==> b64_decoded(s@) is Some,
        r matches Ok(v) ==> b64_decoded(s@) == Some(v@),
{
    base64::decode(s).map_err(|e| e.to_string())
}

/// The version prefix of transit ciphertext.
pub open spec fn cipher_prefix() -> Seq<char> {
    "vault:v1:"@
}

/// The body of an encryption request: the plaintext in base64.
pub open spec fn encrypt_body_text(plaintext: Seq<u8>) -> Seq<char> {
    object_text(seq![("plaintext"@, json_string(b64_encoded(plaintext)))])
}

/// The body of a decryption request: the prefixed ciphertext in base64.
pub open spec fn decrypt_body_text(ciphertext: Seq<u8>) -> Seq<char> {
    object_text(seq![("ciphertext"@, json_string(cipher_prefix() + b64_encoded(ciphertext)))])
}

/// Writes the body of an encryption request.
pub fn encrypt_body(plaintext: &[u8]) -> (r: String)
    ensures
        r@ == encrypt_body_text(plaintext@),
        b64_decoded(b64_encoded(plaintext@)) == Some(plaintext@),
{
    let mut ms: Vec<(String, String)> = Vec::new();
    ms.push((String::from_str("plaintext"), quote(b64_encode(plaintext).as_str())));
    let r = json_object(&ms);
    assert(crate::json::members_view(ms@) =~= seq![("plaintext"@, json_string(b64_encoded(plaintext@)))]);
    r
}

/// Writes the body of a decryption request.
pub fn decrypt_body(ciphertext: &[u8]) -> (r: String)
    ensures
        r@ == decrypt_body_text(ciphertext@),
        b64_decoded(b64_encoded(ciphertext@)) == Some(ciphertext@),
{
    let text = String::from_str("vault:v1:").concat(b64_encode(ciphertext).as_str());
    let mut ms: Vec<(String, String)> = Vec::new();
    ms.push((String::from_str("ciphertext"), quote(text.as_str())));
    let r = json_object(&ms);
    assert(crate::json::members_view(ms@) =~= seq![
        ("ciphertext"@, json_string(cipher_prefix() + b64_encoded(ciphertext@))),
    ]);
    r
}

/// Whether `s` begins with `p`.
pub fn starts_with(s: &str, p: &str) -> (r: bool)
    ensures
        r == (p@.len() <= s@.len() && s@.subrange(0, p@.len() as int) == p@),
{
    let n = p.unicode_len();
    if n > s.unicode_len() {
        return false;
    }
    let mut i: usize = 0;
    while i < n
        invariant
            n == p@.len(),
            n <= s@.len(),
            i <= n,
            forall|k: int| 0 <= k < i ==> s@[k] == p@[k],
        decreases n - i,
    {
        if s.get_char(i) != p.get_char(i) {
            assert(s@.subrange(0, n as int)[i as int] != p@[i as int]);
            return false;
        }
        i = i + 1;
    }
    assert(s@.subrange(0, n as int) =~= p@);
    true
}

/// What the ciphertext text of an encryption response stands for: fails
/// with `Error::Vault` without the version prefix, with `Error::Base64` where
/// the rest is not base64.
pub open spec fn ciphertext_ok(c: Seq<char>) -> bool {
    c.len() >= 9 && c.subrange(0, 9) == cipher_prefix() && b64_decoded(c.subrange(9, c.len() as int)) is Some
}

/// Reads the ciphertext text that the service returned: checks the version
/// prefix, strips it, and decodes the rest from base64.
pub fn read_ciphertext(c: &str) -> (r: Result<Vec<u8>, Error>)
    ensures
        r is Ok <==> ciphertext_ok(c@),
        r matches Ok(v) ==> b64_decoded(c@.subrange(9, c@.len() as int)) == Some(v@),
        !(c@.len() >= 9 && c@.subrange(0, 9) == cipher_prefix()) ==> (r matches Err(e) && e is Vault),
        (c@.len() >= 9 && c@.subrange(0, 9) == cipher_prefix()) && !ciphertext_ok(c@) ==> (r matches Err(e) && e is Base64),
{
    proof { reveal_strlit("vault:v1:"); }
    if !starts_with(c, "vault:v1:") {
        return Err(Error::Vault(String::from_str("Unrecognized ciphertext format: `").concat(c).concat("`")));
    }
    let rest = c.substring_char(9, c.unicode_len());
    match b64_decode(rest) {
        Ok(v) => Ok(v),
        Err(m) => Err(Error::Base64(m)),
    }
}

/// The bytes of an encryption response: the envelope must carry the
/// ciphertext, which must carry the version prefix.
pub open spec fn encrypt_response_is(body: Seq<char>, v: Seq<u8>) -> bool {
    exists|resp: VaultResponse<TransitEncryptedData>| {
        &&& body_decodes_to(body, resp)
        &&& resp.data matches Some(d)
        &&& ciphertext_ok(d.ciphertext@)
        &&& b64_decoded(d.ciphertext@.subrange(9, d.ciphertext@.len() as int)) == Some(v)
    }
}

/// Reads the body of a successful encryption response into ciphertext bytes.
/// Fails with `Malformed` where it does not decode, with `Error::Vault` where
/// it carries no ciphertext or one without the version prefix, and with
/// `Error::Base64` where the rest is not base64.
pub fn read_encrypt_body(body: &str) -> (r: Result<Vec<u8>, Error>)
    ensures
        r matches Ok(v) ==> encrypt_response_is(body@, v@),
        !body_decodes::<VaultResponse<TransitEncryptedData>>(body@) ==> (r matches Err(e) && is_malformed(e, body@)),
        forall|resp: VaultResponse<TransitEncryptedData>| #[trigger] body_decodes_to(body@, resp) ==> {
            &&& resp.data is None ==> (r matches Err(e) && e is Vault)
            &&& resp.data matches Some(d) ==> {
                &&& r is Ok <==> ciphertext_ok(d.ciphertext@)
                &&& !(d.ciphertext@.len() >= 9 && d.ciphertext@.subrange(0, 9) == cipher_prefix()) ==> (r matches Err(e) && e is Vault)
            }
        },
{
    let resp = match parse_vault_response::<VaultResponse<TransitEncryptedData>>(body) {
        Ok(resp) => resp,
        Err(e) => return Err(e),
    };
    match resp.data {
        Some(d) => read_ciphertext(d.ciphertext.as_str()),
        None => Err(Error::Vault(String::from_str("No ciphertext found in response"))),
    }
}

/// The bytes of a decryption response: the envelope must carry the
/// plaintext, which is base64 without a prefix.
pub open spec fn decrypt_response_is(body: Seq<char>, v: Seq<u8>) -> bool {
    exists|resp: VaultResponse<TransitDecryptedData>| {
        &&& body_decodes_to(body, resp)
        &&& resp.data matches Some(d)
        &&& b64_decoded(d.plaintext@) == Some(v)
    }
}

/// Reads the body of a successful decryption response into plaintext bytes.
/// Fails with `Malformed` where it does not decode, with `Error::Vault` where
/// it carries no plaintext, and with `Error::Base64` where the plaintext is
/// not base64.
pub fn read_decrypt_body(body: &str) -> (r: Result<Vec<u8>, Error>)
    ensures
        r matches Ok(v) ==> decrypt_response_is(body@, v@),
        !body_decodes::<VaultResponse<TransitDecryptedData>>(body@) ==> (r matches Err(e) && is_malformed(e, body@)),
        forall|resp: VaultResponse<TransitDecryptedData>| #[trigger] body_decodes_to(body@, resp) ==> {
            &&& resp.data is None ==> (r matches Err(e) && e is Vault)
            &&& resp.data matches Some(d) ==> {
                &&& b64_decoded(d.plaintext@) matches Some(v) ==> (r matches Ok(out) && out@ == v)
                &&& b64_decoded(d.plaintext@) is None ==> (r matches Err(e) && e is Base64)
            }
        },
{
    let resp = match parse_vault_response::<VaultResponse<TransitDecryptedData>>(body) {
        Ok(resp) => resp,
        Err(e) => return Err(e),
    };
    match resp.data {
        Some(d) => match b64_decode(d.plaintext.as_str()) {
            Ok(v) => Ok(v),
            Err(m) => Err(Error::Base64(m)),
        },
        None => Err(Error::Vault(String::from_str("No plaintext found in response"))),
    }
}

/// Encryption then decryption gives back the plaintext: where the service
/// answers a decryption with the base64 plaintext that the encryption request
/// carried, the bytes read back are the ones encrypted. The first requirement
/// is what `encrypt_body` ensures of the plaintext it encodes.
pub proof fn lemma_transit_round_trip(
    plaintext: Seq<u8>,
    body: Seq<char>,
    resp: VaultResponse<TransitDecryptedData>,
)
    requires
        b64_decoded(b64_encoded(plaintext)) == Some(plaintext),
        body_decodes_to(body, resp),
        resp.data matches Some(d) && d.plaintext@ == b64_encoded(plaintext),
    ensures
        decrypt_response_is(body, plaintext),
{
}

} // verus!

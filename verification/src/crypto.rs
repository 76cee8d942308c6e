use vstd::prelude::*;

verus! {

/// The SHA-256 digest of `data` (FIPS 180-4).
pub uninterp spec fn spec_sha256(data: Seq<u8>) -> Seq<u8>;

/// The HMAC-SHA256 tag of `msg` under `key` (RFC 2104).
pub uninterp spec fn spec_hmac_sha256(key: Seq<u8>, msg: Seq<u8>) -> Seq<u8>;

/// The AES-256-GCM sealing of `plaintext` under `key` and `nonce`, with no
/// associated data: the ciphertext followed by the sixteen-byte tag.
pub uninterp spec fn spec_aes256gcm_seal(key: Seq<u8>, nonce: Seq<u8>, plaintext: Seq<u8>) -> Seq<
    u8,
>;

/// The largest plaintext, in bytes, that AES-256-GCM accepts.
pub open spec fn gcm_max_plaintext() -> nat {
    0x10_0000_0000
}

/// The largest ciphertext (tag not counted), in bytes, that AES-256-GCM
/// decryption accepts.
pub open spec fn gcm_max_ciphertext() -> nat {
    0x10_0000_0010
}

/// Whether decrypting `sealed` under `key` and `nonce` gives `plaintext`:
/// `sealed` is its sealing, and it is no longer than decryption accepts.
pub open spec fn opens_to(key: Seq<u8>, nonce: Seq<u8>, sealed: Seq<u8>, plaintext: Seq<u8>) -> bool {
    plaintext.len() <= gcm_max_ciphertext() && spec_aes256gcm_seal(key, nonce, plaintext) == sealed
}

/// Bytes sealed or opened, or the message of the AEAD error.
pub type AeadBytes = Result<Vec<u8>, String>;

/// The bytes of a successful outcome, if any.
pub open spec fn opened_bytes(r: AeadBytes) -> Option<Seq<u8>> {
    match r {
        Ok(b) => Some(b@),
        Err(_) => None,
    }
}

/// The view of optional bytes.
pub open spec fn bytes_view(b: Option<Vec<u8>>) -> Option<Seq<u8>> {
    match b {
        Some(v) => Some(v@),
        None => None,
    }
}

/// `Sha256::digest` of the sha2 crate: the 32-byte digest of `data`.
#[verifier::external_body]
pub(crate) fn sha256(data: &[u8]) -> (digest: Vec<u8>)
    ensures
        digest@ == spec_sha256(data@),
        digest@.len() == 32,
{
    <sha2::Sha256 as sha2::Digest>::digest(data).to_vec()
}

/// `Hmac::<Sha256>::new_from_slice`, `update` and `finalize` of the hmac crate:
/// the 32-byte tag of `msg` under `key` (every key length is accepted).
#[verifier::external_body]
pub(crate) fn hmac_sha256(key: &[u8], msg: &[u8]) -> (tag: Vec<u8>)
    ensures
        tag@ == spec_hmac_sha256(key@, msg@),
        tag@.len() == 32,
{
    let mut mac = <hmac::Hmac<sha2::Sha256> as hmac::Mac>::new_from_slice(key).unwrap();
    hmac::Mac::update(&mut mac, msg);
    hmac::Mac::finalize(mac).into_bytes().to_vec()
}

/// `Mac::verify_slice` of the hmac crate: succeeds exactly when `tag` equals
/// the tag of `msg` under `key` (same length, same bytes).
#[verifier::external_body]
pub(crate) fn hmac_sha256_verify(key: &[u8], msg: &[u8], tag: &[u8]) -> (ok: bool)
    ensures
        ok == (tag@ == spec_hmac_sha256(key@, msg@)),
{
    let mut mac = <hmac::Hmac<sha2::Sha256> as hmac::Mac>::new_from_slice(key).unwrap();
    hmac::Mac::update(&mut mac, msg);
    hmac::Mac::verify_slice(mac, tag).is_ok()
}

/// `Aes256Gcm::encrypt` of the aes-gcm crate with a 12-byte nonce, the error
/// taken by its message. It refuses exactly the plaintexts longer than
/// 2^36 bytes (`P_MAX`), with `aead::Error`, whose message is `aead::Error`.
/// The sealed bytes are the ciphertext and the tag, and they open to this
/// plaintext only.
#[verifier::external_body]
pub(crate) fn aes256gcm_encrypt(key: &[u8; 32], nonce: &[u8; 12], plaintext: &[u8]) -> (res: AeadBytes)
    ensures
        res is Ok <==> plaintext@.len() <= gcm_max_plaintext(),
        res matches Ok(sealed) ==> sealed@ == spec_aes256gcm_seal(key@, nonce@, plaintext@),
        res matches Ok(sealed) ==> sealed@.len() == plaintext@.len() + 16,
        res matches Ok(sealed) ==> forall|p: Seq<u8>| #[trigger] opens_to(key@, nonce@, sealed@, p) ==> p == plaintext@,
        res matches Err(e) ==> e@ == "aead::Error"@,
{
    let cipher = <aes_gcm::Aes256Gcm as aes_gcm::KeyInit>::new(key.into());
    match aes_gcm::aead::Aead::encrypt(&cipher, nonce.into(), plaintext) {
        Ok(sealed) => Ok(sealed),
        Err(e) => Err(e.to_string()),
    }
}

/// `Aes256Gcm::decrypt` of the aes-gcm crate with a 12-byte nonce, the error
/// taken by its message. It gives back a plaintext exactly when `sealed` is
/// the sealing of some plaintext under `key` and `nonce` whose ciphertext is
/// at most 2^36 + 16 bytes (`C_MAX`), and then it gives back that plaintext;
/// otherwise it fails with `aead::Error`, whose message is `aead::Error`.
#[verifier::external_body]
pub(crate) fn aes256gcm_decrypt(key: &[u8; 32], nonce: &[u8; 12], sealed: &[u8]) -> (res: AeadBytes)
    ensures
        res matches Ok(p) ==> opens_to(key@, nonce@, sealed@, p@),
        forall|p: Seq<u8>| #[trigger] opens_to(key@, nonce@, sealed@, p) ==> opened_bytes(res) == Some(p),
        res matches Err(e) ==> e@ == "aead::Error"@,
{
    let cipher = <aes_gcm::Aes256Gcm as aes_gcm::KeyInit>::new(key.into());
    match aes_gcm::aead::Aead::decrypt(&cipher, nonce.into(), sealed) {
        Ok(p) => Ok(p),
        Err(e) => Err(e.to_string()),
    }
}

/// `AeadCore::generate_nonce` with `OsRng` of the aes-gcm crate: twelve random
/// bytes from the operating system. Nothing is stated of their values.
#[verifier::external_body]
pub(crate) fn random_nonce() -> (nonce: [u8; 12])
{
    <aes_gcm::Aes256Gcm as aes_gcm::AeadCore>::generate_nonce(&mut aes_gcm::aead::OsRng).into()
}

} // verus!

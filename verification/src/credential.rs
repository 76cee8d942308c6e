//! Sealing of channel credentials with AES-256-GCM: the stored form is
//! `base64(nonce || ciphertext || tag)` with a fresh random 12-byte nonce.
use vstd::prelude::*;

use crate::base64::{
    base64_decode, base64_std, decode_std, encode_std, lemma_base64_roundtrip, lemma_decode_std_result,
    spec_std_decode_error,
};
use crate::ids::{parse_uuid_field, spec_uuid_parse, uuid_field};
use crate::json::{json_to_vec, parse_json_bytes, spec_json_parse, spec_json_slice_error, spec_json_to_vec};
use crate::crypto::{
    aes256gcm_decrypt, aes256gcm_encrypt, gcm_max_plaintext, opens_to, random_nonce,
    spec_aes256gcm_seal,
};

verus! {

/// Why sealing or opening a credential failed.
#[derive(Debug, Clone, PartialEq, Eq)]
pub enum CredentialError {
    /// The plaintext is longer than AES-GCM accepts; the AEAD error's message.
    Encryption(String),
    /// The stored text is not canonical padded base64; the decode error's
    /// message.
    Base64Decode(String),
    /// The decoded bytes are too short to hold a nonce and a ciphertext.
    TooShort,
    /// The tag does not authenticate the ciphertext under this key; the AEAD
    /// error's message.
    Decryption(String),
    /// The data could not be written as JSON; the serializer's message.
    JsonSerialize(String),
    /// The opened bytes are not a JSON document; the parser's message.
    JsonDeserialize(String),
}

/// The message of an error: what went wrong, then the outside error's own
/// message.
pub open spec fn error_message(e: CredentialError) -> Seq<char> {
    match e {
        CredentialError::Encryption(m) => "Encryption error: "@ + m@,
        CredentialError::Base64Decode(m) => "Base64 decode error: "@ + m@,
        CredentialError::TooShort => "Encrypted data too short"@,
        CredentialError::Decryption(m) => "Decryption error: "@ + m@,
        CredentialError::JsonSerialize(m) => "JSON serialize error: "@ + m@,
        CredentialError::JsonDeserialize(m) => "JSON deserialize error: "@ + m@,
    }
}

fn prefixed(prefix: &str, m: &str) -> (s: String)
    ensures
        s@ == prefix@ + m@,
{
    let mut s = String::from_str(prefix);
    s.append(m);
    s
}

impl CredentialError {
    /// The message the error carries.
    pub fn message(&self) -> (m: String)
        ensures
            m@ == error_message(*self),
    {
        match self {
            CredentialError::Encryption(e) => prefixed("Encryption error: ", e.as_str()),
            CredentialError::Base64Decode(e) => prefixed("Base64 decode error: ", e.as_str()),
            CredentialError::TooShort => String::from_str("Encrypted data too short"),
            CredentialError::Decryption(e) => prefixed("Decryption error: ", e.as_str()),
            CredentialError::JsonSerialize(e) => prefixed("JSON serialize error: ", e.as_str()),
            CredentialError::JsonDeserialize(e) => prefixed("JSON deserialize error: ", e.as_str()),
        }
    }
}

/// The bytes an opened credential gives, as a function of the stored text,
/// or the message of the error: text that is not base64, bytes too short to
/// hold a nonce and a ciphertext, or bytes that do not open under the key.
pub open spec fn opened_credential(encrypted: Seq<char>, key: Seq<u8>) -> Result<Seq<u8>, Seq<char>> {
    match base64_decode(encrypted, false, true) {
        None => Err(
            "Base64 decode error: "@ + match spec_std_decode_error(encrypted) {
                Some(m) => m,
                None => Seq::empty(),
            },
        ),
        Some(combined) => if combined.len() < 13 {
            Err("Encrypted data too short"@)
        } else {
            let nonce = combined.subrange(0, 12);
            let sealed = combined.subrange(12, combined.len() as int);
            if exists|p: Seq<u8>| opens_to(key, nonce, sealed, p) {
                Ok(choose|p: Seq<u8>| opens_to(key, nonce, sealed, p))
            } else {
                Err("Decryption error: aead::Error"@)
            }
        },
    }
}

/// Whether `encrypted` is the stored form of `plaintext` under `key` with
/// some twelve-byte nonce.
pub open spec fn is_sealing_of(encrypted: Seq<char>, plaintext: Seq<u8>, key: Seq<u8>) -> bool {
    exists|nonce: Seq<u8>|
        nonce.len() == 12 && encrypted == base64_std(
            nonce + spec_aes256gcm_seal(key, nonce, plaintext),
        )
}

/// Seals credential bytes under `key` with a fresh random nonce. Opening the
/// result with the same key gives the bytes back.
pub fn seal_credential(plaintext: &[u8], key: &[u8; 32]) -> (res: Result<String, CredentialError>)
    ensures
        plaintext@.len() <= gcm_max_plaintext() <==> res is Ok,
        res matches Ok(s) ==> is_sealing_of(s@, plaintext@, key@),
        res matches Ok(s) ==> opened_credential(s@, key@) == Ok::<Seq<u8>, Seq<char>>(plaintext@),
        res matches Err(e) ==> error_message(e) == "Encryption error: aead::Error"@,
{
    let nonce = random_nonce();
    let sealed = match aes256gcm_encrypt(key, &nonce, plaintext) {
        Ok(sealed) => sealed,
        Err(e) => {
            proof {
                reveal_strlit("Encryption error: ");
                reveal_strlit("Encryption error: aead::Error");
                reveal_strlit("aead::Error");
            }
            let err = CredentialError::Encryption(e);
            assert(error_message(err) =~= "Encryption error: aead::Error"@);
            return Err(err);
        },
    };
    let mut combined: Vec<u8> = Vec::new();
    let mut i: usize = 0;
    while i < 12
        invariant
            i <= 12,
            combined@ == nonce@.subrange(0, i as int),
        decreases 12 - i,
    {
        combined.push(nonce[i]);
        i = i + 1;
    }
    let mut j: usize = 0;
    while j < sealed.len()
        invariant
            j <= sealed@.len(),
            combined@ == nonce@ + sealed@.subrange(0, j as int),
        decreases sealed@.len() - j,
    {
        combined.push(sealed[j]);
        j = j + 1;
    }
    let encoded = encode_std(combined.as_slice());
    proof {
        assert(sealed@.subrange(0, sealed@.len() as int) =~= sealed@);
        let c = combined@;
        assert(c =~= nonce@ + sealed@);
        assert(is_sealing_of(encoded@, plaintext@, key@));
        lemma_base64_roundtrip(c, false, true);
        assert(c.subrange(0, 12) =~= nonce@);
        assert(c.subrange(12, c.len() as int) =~= sealed@);
        assert(opens_to(key@, nonce@, sealed@, plaintext@));
        let p = choose|p: Seq<u8>| opens_to(key@, nonce@, sealed@, p);
        assert(p == plaintext@);
    }
    Ok(encoded)
}

/// Opens credential bytes sealed by `seal_credential`.
pub fn open_credential(encrypted: &str, key: &[u8; 32]) -> (res: Result<Vec<u8>, CredentialError>)
    ensures
        res matches Ok(p) ==> opened_credential(encrypted@, key@) == Ok::<Seq<u8>, Seq<char>>(p@),
        res matches Err(e) ==> opened_credential(encrypted@, key@) == Err::<Seq<u8>, Seq<char>>(
            error_message(e),
        ),
{
    proof {
        reveal_strlit("Decryption error: ");
        reveal_strlit("Decryption error: aead::Error");
        reveal_strlit("aead::Error");
    }
    let decoded = decode_std(encrypted);
    proof {
        lemma_decode_std_result(encrypted@, match decoded { Ok(ref b) => Some(b@), Err(_) => None });
    }
    let combined = match decoded {
        Ok(c) => c,
        Err(m) => return Err(CredentialError::Base64Decode(m)),
    };
    if combined.len() < 13 {
        return Err(CredentialError::TooShort);
    }
    let mut nonce: [u8; 12] = [0u8; 12];
    let mut i: usize = 0;
    while i < 12
        invariant
            i <= 12,
            combined@.len() >= 13,
            nonce@.len() == 12,
            forall|k: int| 0 <= k < i ==> nonce@[k] == combined@[k],
        decreases 12 - i,
    {
        nonce[i] = combined[i];
        i = i + 1;
    }
    let mut sealed: Vec<u8> = Vec::new();
    let mut j: usize = 12;
    while j < combined.len()
        invariant
            12 <= j <= combined@.len(),
            sealed@ == combined@.subrange(12, j as int),
        decreases combined@.len() - j,
    {
        sealed.push(combined[j]);
        j = j + 1;
    }
    assert(nonce@ =~= combined@.subrange(0, 12));
    let opened = aes256gcm_decrypt(key, &nonce, sealed.as_slice());
    proof {
        let c = combined@;
        if exists|p: Seq<u8>| opens_to(key@, nonce@, sealed@, p) {
            let p = choose|p: Seq<u8>| opens_to(key@, nonce@, sealed@, p);
            assert(opens_to(key@, nonce@, sealed@, p));
        }
    }
    match opened {
        Ok(p) => Ok(p),
        Err(m) => {
            let err = CredentialError::Decryption(m);
            assert(error_message(err) =~= "Decryption error: aead::Error"@);
            Err(err)
        },
    }
}

/// What decrypting a stored credential gives, as a function of the stored
/// text: the opened bytes when they are a JSON document, else the message of
/// the error (those of `opened_credential`, then a JSON parse error).
pub open spec fn decrypted_credential(encrypted: Seq<char>, key: Seq<u8>) -> Result<Seq<u8>, Seq<char>> {
    match opened_credential(encrypted, key) {
        Err(m) => Err(m),
        Ok(p) => match spec_json_slice_error(p) {
            Some(m) => Err("JSON deserialize error: "@ + m),
            None => Ok(p),
        },
    }
}

/// Encrypts credential data: writes it as JSON and seals the bytes under
/// `key` with a fresh random nonce, so that opening the result gives the
/// bytes back.
pub fn encrypt_credential(data: &serde_json::Value, key: &[u8; 32]) -> (res: Result<String, CredentialError>)
    ensures
        res matches Ok(s) ==> is_sealing_of(s@, spec_json_to_vec(*data), key@),
        res matches Ok(s) ==> opened_credential(s@, key@) == Ok::<Seq<u8>, Seq<char>>(
            spec_json_to_vec(*data),
        ),
        res matches Err(e) ==> e is JsonSerialize || error_message(e) == "Encryption error: aead::Error"@,
{
    let plaintext = match json_to_vec(data) {
        Ok(b) => b,
        Err(m) => return Err(CredentialError::JsonSerialize(m)),
    };
    seal_credential(plaintext.as_slice(), key)
}

/// Decrypts credential data stored by `encrypt_credential` and parses it as
/// JSON.
pub fn decrypt_credential(encrypted: &str, key: &[u8; 32]) -> (res: Result<serde_json::Value, CredentialError>)
    ensures
        res is Ok <==> decrypted_credential(encrypted@, key@) is Ok,
        res matches Err(e) ==> decrypted_credential(encrypted@, key@) == Err::<Seq<u8>, Seq<char>>(
            error_message(e),
        ),
        res matches Ok(v) ==> (decrypted_credential(encrypted@, key@) matches Ok(p) && v
            == spec_json_parse(p)),
{
    proof {
        reveal_strlit("JSON deserialize error: ");
    }
    let plaintext = match open_credential(encrypted, key) {
        Ok(p) => p,
        Err(e) => return Err(e),
    };
    match parse_json_bytes(plaintext.as_slice()) {
        Ok(v) => Ok(v),
        Err(m) => Err(CredentialError::JsonDeserialize(m)),
    }
}

/// Decrypting what `encrypt_credential` stored for `data` gives `data` back,
/// for every value that serde_json reads back unchanged from the bytes it
/// writes for it.
pub proof fn lemma_credential_roundtrip(data: serde_json::Value, key: Seq<u8>, stored: Seq<char>)
    requires
        opened_credential(stored, key) == Ok::<Seq<u8>, Seq<char>>(spec_json_to_vec(data)),
        spec_json_slice_error(spec_json_to_vec(data)) is None,
        spec_json_parse(spec_json_to_vec(data)) == data,
    ensures
        decrypted_credential(stored, key) matches Ok(p) && spec_json_parse(p) == data,
{
}

/// The key credentials are sealed with, or the refusal (`400`) a request
/// that needs it gets when none is configured.
pub fn configured_key(key: &Option<[u8; 32]>) -> (res: Result<[u8; 32], (u16, &'static str)>)
    ensures
        *key matches Some(k) ==> res == Ok::<[u8; 32], (u16, &'static str)>(k),
        key is None ==> (res matches Err((status, m)) && status == 400
            && m@ == "Encryption key not configured. Set NOTIFICO_AUTH_ENCRYPTION_KEY."@),
{
    match key {
        Some(k) => Ok(*k),
        None => Err((400, "Encryption key not configured. Set NOTIFICO_AUTH_ENCRYPTION_KEY.")),
    }
}

/// A channel credential with its data opened.
#[derive(Debug, Clone)]
pub struct CredentialRow {
    pub id: u128,
    pub project_id: u128,
    pub name: String,
    pub channel: String,
    pub data: serde_json::Value,
    pub enabled: bool,
}

/// A credential as the database returns it: ids as text, data sealed.
#[derive(Debug, Clone)]
pub struct CredentialRaw {
    pub id: String,
    pub project_id: String,
    pub name: String,
    pub channel: String,
    pub encrypted_data: String,
    pub enabled: bool,
}

/// Why a raw credential row cannot be read, if it cannot: a bad id, a bad
/// project id, data that does not open under the key, or opened data that
/// is not JSON, checked in that order.
pub open spec fn credential_raw_error(raw: CredentialRaw, key: Seq<u8>) -> Option<Seq<char>> {
    if uuid_field("invalid id UUID: "@, raw.id@) is Err {
        Some(uuid_field("invalid id UUID: "@, raw.id@)->Err_0)
    } else if uuid_field("invalid project_id UUID: "@, raw.project_id@) is Err {
        Some(uuid_field("invalid project_id UUID: "@, raw.project_id@)->Err_0)
    } else {
        match decrypted_credential(raw.encrypted_data@, key) {
            Err(m) => Some(m),
            Ok(_) => None,
        }
    }
}

impl CredentialRaw {
    /// Reads the row: its ids parsed, its data opened with `key` and parsed
    /// as JSON.
    pub fn into_row(self, key: &[u8; 32]) -> (res: Result<CredentialRow, String>)
        ensures
            res is Ok <==> credential_raw_error(self, key@) is None,
            res matches Err(e) ==> credential_raw_error(self, key@) == Some(e@),
            res matches Ok(row) ==> {
                &&& spec_uuid_parse(self.id@) == Ok::<u128, Seq<char>>(row.id)
                &&& spec_uuid_parse(self.project_id@) == Ok::<u128, Seq<char>>(row.project_id)
                &&& row.name == self.name
                &&& row.channel == self.channel
                &&& row.enabled == self.enabled
                &&& decrypted_credential(self.encrypted_data@, key@) matches Ok(p)
                &&& row.data == spec_json_parse(p)
            },
    {
        proof {
            reveal_strlit("invalid id UUID: ");
            reveal_strlit("invalid project_id UUID: ");
            reveal_strlit("JSON deserialize error: ");
        }
        let id = match parse_uuid_field("invalid id UUID: ", self.id.as_str()) {
            Ok(u) => u,
            Err(e) => return Err(e),
        };
        let project_id = match parse_uuid_field("invalid project_id UUID: ", self.project_id.as_str()) {
            Ok(u) => u,
            Err(e) => return Err(e),
        };
        let data = match decrypt_credential(self.encrypted_data.as_str(), key) {
            Ok(v) => v,
            Err(e) => return Err(e.message()),
        };
        Ok(CredentialRow {
            id,
            project_id,
            name: self.name,
            channel: self.channel,
            data,
            enabled: self.enabled,
        })
    }
}

} // verus!

//! Symmetric primitives of the transfer: the key derived from a shared point,
//! and the nonce-prefixed ChaCha20-Poly1305 payload format.

use crate::errors::OtError;
use crate::group::EcPoint;
use chacha20poly1305::aead::{Aead, AeadCore, KeyInit};
use vstd::prelude::*;
use vstd::string::StringSliceAdditionalSpecFns;

verus! {

/// Domain separation string binding the derived keys to this protocol.
pub const KEY_DERIVATION_INFO: &'static str = "Bellare-Micali-1-out-of-2-OT-v1-SymmetricKey";

/// Length of the nonce that starts every payload.
pub const NONCE_LEN: usize = 12;

/// Length of the authentication tag that ChaCha20-Poly1305 appends.
pub const TAG_LEN: usize = 16;

/// Plaintexts must be shorter than this many bytes (64-byte blocks below `u32::MAX`).
pub const MAX_PLAINTEXT_LEN: u64 = 274877906880;

/// The 32 bytes of HKDF-SHA256 (no salt) expanded from `ikm` with `info`.
pub uninterp spec fn hkdf_sha256(ikm: Seq<u8>, info: Seq<u8>) -> Seq<u8>;

/// ChaCha20-Poly1305 encryption of `plaintext` (no associated data): ciphertext then tag.
pub uninterp spec fn chacha20poly1305_seal(key: Seq<u8>, nonce: Seq<u8>, plaintext: Seq<u8>) -> Seq<u8>;

/// ChaCha20-Poly1305 decryption of `ciphertext` (no associated data); `None` when the tag
/// does not verify.
pub uninterp spec fn chacha20poly1305_open(key: Seq<u8>, nonce: Seq<u8>, ciphertext: Seq<u8>) -> Option<Seq<u8>>;

/// Expands 32 key bytes with `hkdf::Hkdf::<sha2::Sha256>::new(None, ikm).expand(info, ..)`.
/// Claims: the bytes are `hkdf_sha256` of the inputs, and the call never fails (`expand`
/// refuses only outputs longer than 255 hash lengths).
#[verifier::external_body]
fn hkdf_expand_32(ikm: &[u8], info: &[u8]) -> (res: Option<[u8; 32]>)
    ensures
        res is Some,
        res matches Some(k) ==> k@ == hkdf_sha256(ikm@, info@),
{
    let hk = hkdf::Hkdf::<sha2::Sha256>::new(None, ikm);
    let mut okm = [0u8; 32];
    match hk.expand(info, &mut okm) {
        Ok(()) => Some(okm),
        Err(_) => None,
    }
}

/// Draws a nonce with `ChaCha20Poly1305::generate_nonce` from the operating system's
/// random source. Nothing is claimed of its value.
#[verifier::external_body]
fn random_nonce() -> (res: [u8; 12]) {
    let nonce = chacha20poly1305::ChaCha20Poly1305::generate_nonce(
        &mut chacha20poly1305::aead::OsRng,
    );
    nonce.into()
}

/// Encrypts with `ChaCha20Poly1305::encrypt`. Claims: `None` exactly when the plaintext is
/// too long for the cipher, otherwise the result is `chacha20poly1305_seal` of the inputs
/// and one tag longer than the plaintext.
#[verifier::external_body]
fn aead_seal(key: &[u8; 32], nonce: &[u8; 12], plaintext: &[u8]) -> (res: Option<Vec<u8>>)
    ensures
        res is Some <==> plaintext@.len() < MAX_PLAINTEXT_LEN,
        res matches Some(c) ==> c@ == chacha20poly1305_seal(key@, nonce@, plaintext@) && c@.len()
            == plaintext@.len() + TAG_LEN,
{
    let cipher = chacha20poly1305::ChaCha20Poly1305::new(&chacha20poly1305::Key::from(*key));
    cipher.encrypt(&chacha20poly1305::Nonce::from(*nonce), plaintext).ok()
}

/// Decrypts and authenticates with `ChaCha20Poly1305::decrypt`. Claims: the result is
/// `chacha20poly1305_open` of the inputs; a recovered plaintext is one tag shorter than the
/// ciphertext, within the cipher's length limit, and the ciphertext is its sealing under the
/// same key and nonce; and decryption gives back what encryption with them sealed.
#[verifier::external_body]
fn aead_open(key: &[u8; 32], nonce: &[u8], ciphertext: &[u8]) -> (res: Option<Vec<u8>>)
    requires
        nonce@.len() == NONCE_LEN,
    ensures
        match res {
            Some(p) => {
                &&& chacha20poly1305_open(key@, nonce@, ciphertext@) == Some(p@)
                &&& p@.len() + TAG_LEN == ciphertext@.len()
                &&& p@.len() < MAX_PLAINTEXT_LEN
                &&& ciphertext@ == chacha20poly1305_seal(key@, nonce@, p@)
            },
            None => chacha20poly1305_open(key@, nonce@, ciphertext@) is None,
        },
        forall|m: Seq<u8>|
            m.len() < MAX_PLAINTEXT_LEN && ciphertext@ == #[trigger] chacha20poly1305_seal(
                key@,
                nonce@,
                m,
            ) ==> res is Some && res->Some_0@ == m,
{
    let cipher = chacha20poly1305::ChaCha20Poly1305::new(&chacha20poly1305::Key::from(*key));
    cipher.decrypt(chacha20poly1305::Nonce::from_slice(nonce), ciphertext).ok()
}

/// The key both parties derive from a shared point.
pub open spec fn symmetric_key(point: Seq<u8>) -> Seq<u8> {
    hkdf_sha256(point, KEY_DERIVATION_INFO.spec_bytes())
}

/// `payload` is the nonce followed by the sealing of `plaintext` under `key` with that nonce.
pub open spec fn sealed_payload(key: Seq<u8>, payload: Seq<u8>, plaintext: Seq<u8>) -> bool {
    &&& plaintext.len() < MAX_PLAINTEXT_LEN
    &&& payload.len() >= NONCE_LEN
    &&& payload.skip(NONCE_LEN as int) == chacha20poly1305_seal(
        key,
        payload.take(NONCE_LEN as int),
        plaintext,
    )
}

/// What decrypting `payload` under `key` gives.
pub open spec fn opened_payload(key: Seq<u8>, payload: Seq<u8>) -> Result<Seq<u8>, OtError> {
    if payload.len() < NONCE_LEN {
        Err(OtError::PayloadTooShort)
    } else {
        match chacha20poly1305_open(
            key,
            payload.take(NONCE_LEN as int),
            payload.skip(NONCE_LEN as int),
        ) {
            Some(m) => Ok(m),
            None => Err(OtError::InvalidMacTag),
        }
    }
}

/// A byte-vector result seen through the views of its bytes.
pub open spec fn bytes_result(res: Result<Vec<u8>, OtError>) -> Result<Seq<u8>, OtError> {
    match res {
        Ok(v) => Ok(v@),
        Err(e) => Err(e),
    }
}

/// An outcome of decrypting `payload` under `key`: what `opened_payload` gives; the
/// plaintext that the payload seals under that key; and a recovered plaintext is one that the
/// payload seals, shorter than the payload by a nonce and a tag.
pub open spec fn decrypts_to(key: Seq<u8>, payload: Seq<u8>, outcome: Result<Seq<u8>, OtError>) -> bool {
    &&& outcome == opened_payload(key, payload)
    &&& forall|m: Seq<u8>| #[trigger] sealed_payload(key, payload, m) ==> outcome == Ok::<Seq<u8>, OtError>(m)
    &&& outcome matches Ok(p) ==> {
        &&& p.len() + NONCE_LEN + TAG_LEN == payload.len()
        &&& sealed_payload(key, payload, p)
    }
}

/// Converts a shared curve point into a 32-byte symmetric key with HKDF-SHA256 over its
/// compressed encoding.
pub fn derive_symmetric_key(point: &EcPoint) -> (res: Result<[u8; 32], OtError>)
    ensures
        res matches Ok(k) && k@ == symmetric_key(point@),
        res matches Ok(k) && k@ == hkdf_sha256(
            point@,
            "Bellare-Micali-1-out-of-2-OT-v1-SymmetricKey".spec_bytes(),
        ),
{
    let serialized_point = point.to_bytes();
    match hkdf_expand_32(serialized_point.as_slice(), KEY_DERIVATION_INFO.as_bytes()) {
        Some(okm) => Ok(okm),
        None => Err(OtError::KeyDerivationFailed),
    }
}

/// Lays out a payload: the nonce, then the sealed bytes.
pub fn frame_payload(nonce: &[u8; 12], sealed: Vec<u8>) -> (res: Vec<u8>)
    ensures
        res@ == nonce@ + sealed@,
{
    let mut sealed = sealed;
    let mut out: Vec<u8> = Vec::new();
    let mut i: usize = 0;
    while i < NONCE_LEN
        invariant
            i <= NONCE_LEN,
            out@ == nonce@.take(i as int),
        decreases NONCE_LEN - i,
    {
        out.push(nonce[i]);
        i = i + 1;
    }
    proof {
        assert(nonce@.take(NONCE_LEN as int) =~= nonce@);
    }
    out.append(&mut sealed);
    out
}

/// Splits a payload into its nonce and the sealed bytes after it.
pub fn split_payload(payload: &[u8]) -> (res: Result<(&[u8], &[u8]), OtError>)
    ensures
        payload@.len() < NONCE_LEN <==> res is Err,
        res matches Err(e) ==> e == OtError::PayloadTooShort,
        res matches Ok((nonce, sealed)) ==> nonce@ == payload@.take(NONCE_LEN as int) && sealed@
            == payload@.skip(NONCE_LEN as int),
{
    if payload.len() < NONCE_LEN {
        return Err(OtError::PayloadTooShort);
    }
    let nonce = vstd::slice::slice_subrange(payload, 0, NONCE_LEN);
    let sealed = vstd::slice::slice_subrange(payload, NONCE_LEN, payload.len());
    Ok((nonce, sealed))
}

/// Seals a message under `key` with the given nonce and lays out the payload: the nonce,
/// then the ciphertext and its tag.
pub fn seal_payload(key: &[u8; 32], nonce: &[u8; 12], plaintext: &[u8]) -> (res: Result<Vec<u8>, OtError>)
    ensures
        res is Ok <==> plaintext@.len() < MAX_PLAINTEXT_LEN,
        res matches Err(e) ==> e == OtError::EncryptionFailed,
        res matches Ok(payload) ==> payload@ == nonce@ + chacha20poly1305_seal(
            key@,
            nonce@,
            plaintext@,
        ),
        res matches Ok(payload) ==> sealed_payload(key@, payload@, plaintext@) && payload@.len()
            == NONCE_LEN + plaintext@.len() + TAG_LEN,
{
    match aead_seal(key, nonce, plaintext) {
        Some(sealed) => {
            let payload = frame_payload(nonce, sealed);
            proof {
                assert(payload@.take(NONCE_LEN as int) =~= nonce@);
                assert(payload@.skip(NONCE_LEN as int) =~= sealed@);
            }
            Ok(payload)
        },
        None => Err(OtError::EncryptionFailed),
    }
}

/// Encrypts a message under `key` with a fresh random nonce, which is prepended to the
/// returned ciphertext (see `seal_payload`, which this calls with the nonce drawn).
pub fn encrypt_payload(key: &[u8; 32], plaintext: &[u8]) -> (res: Result<Vec<u8>, OtError>)
    ensures
        res is Ok <==> plaintext@.len() < MAX_PLAINTEXT_LEN,
        res matches Err(e) ==> e == OtError::EncryptionFailed,
        res matches Ok(payload) ==> sealed_payload(key@, payload@, plaintext@) && payload@.len()
            == NONCE_LEN + plaintext@.len() + TAG_LEN,
{
    let nonce = random_nonce();
    seal_payload(key, &nonce, plaintext)
}

/// Decrypts and authenticates a nonce-prefixed payload under `key`.
pub fn decrypt_payload(key: &[u8; 32], payload: &[u8]) -> (res: Result<Vec<u8>, OtError>)
    ensures
        decrypts_to(key@, payload@, bytes_result(res)),
        payload@.len() < 12 <==> res == Err::<Vec<u8>, OtError>(OtError::PayloadTooShort),
        payload@.len() >= 12 ==> match chacha20poly1305_open(
            key@,
            payload@.take(12),
            payload@.skip(12),
        ) {
            Some(m) => res matches Ok(p) && p@ == m,
            None => res == Err::<Vec<u8>, OtError>(OtError::InvalidMacTag),
        },
{
    match split_payload(payload) {
        Err(e) => Err(e),
        Ok((nonce, sealed)) => match aead_open(key, nonce, sealed) {
            Some(plaintext) => Ok(plaintext),
            None => Err(OtError::InvalidMacTag),
        },
    }
}

/// The key derived from a point is HKDF-SHA256 (no salt), with the protocol's info string,
/// over exactly the point's compressed encoding.
pub proof fn lemma_symmetric_key_is_hkdf_of_encoding(point: Seq<u8>)
    ensures
        symmetric_key(point) == hkdf_sha256(
            point,
            "Bellare-Micali-1-out-of-2-OT-v1-SymmetricKey".spec_bytes(),
        ),
{
}

/// Decrypting a payload refuses it as too short exactly when it is shorter than the 12-byte
/// nonce; otherwise it yields what ChaCha20-Poly1305 opens from the bytes after the nonce,
/// and refuses it as unauthentic when that open fails.
pub proof fn lemma_opened_payload_cases(key: Seq<u8>, payload: Seq<u8>)
    ensures
        payload.len() < 12 <==> opened_payload(key, payload) == Err::<Seq<u8>, OtError>(
            OtError::PayloadTooShort,
        ),
        payload.len() >= 12 ==> opened_payload(key, payload) == match chacha20poly1305_open(
            key,
            payload.take(12),
            payload.skip(12),
        ) {
            Some(m) => Ok::<Seq<u8>, OtError>(m),
            None => Err::<Seq<u8>, OtError>(OtError::InvalidMacTag),
        },
{
}

/// A payload seals a plaintext under a key exactly when the plaintext is within the cipher's
/// limit and the bytes after the 12-byte nonce are its ChaCha20-Poly1305 sealing under that
/// nonce.
pub proof fn lemma_sealed_payload_is_nonce_then_sealing(key: Seq<u8>, payload: Seq<u8>, plaintext: Seq<u8>)
    ensures
        sealed_payload(key, payload, plaintext) <==> (plaintext.len() < 274877906880
            && payload.len() >= 12 && payload.skip(12) == chacha20poly1305_seal(
            key,
            payload.take(12),
            plaintext,
        )),
{
}

/// Splitting a framed payload gives back the nonce and the sealed bytes it was framed from.
pub proof fn lemma_split_inverts_frame(nonce: Seq<u8>, sealed: Seq<u8>)
    requires
        nonce.len() == NONCE_LEN,
    ensures
        (nonce + sealed).len() >= NONCE_LEN,
        (nonce + sealed).take(NONCE_LEN as int) == nonce,
        (nonce + sealed).skip(NONCE_LEN as int) == sealed,
{
    assert((nonce + sealed).take(NONCE_LEN as int) =~= nonce);
    assert((nonce + sealed).skip(NONCE_LEN as int) =~= sealed);
}

/// Decrypting a payload that `encrypt_payload` produced under the same key gives back the
/// plaintext.
pub proof fn lemma_payload_roundtrip(
    key: Seq<u8>,
    plaintext: Seq<u8>,
    payload: Seq<u8>,
    outcome: Result<Seq<u8>, OtError>,
)
    requires
        sealed_payload(key, payload, plaintext),
        decrypts_to(key, payload, outcome),
    ensures
        outcome == Ok::<Seq<u8>, OtError>(plaintext),
{
}

} // verus!

//! Key derivation with Argon2id and authenticated encryption with XChaCha20-Poly1305.
//!
//! An encrypted payload is the 24-byte random nonce followed by the ciphertext and its
//! 16-byte authentication tag.
use vstd::prelude::*;

use chacha20poly1305::aead::{Aead, KeyInit};
use rand::{RngCore, TryRngCore};

use crate::error::VaultError;
use crate::types::{KdfConfig, VaultKey};
use crate::wipe::zeroize_bytes;

verus! {

/// Length of a derived key in bytes.
pub const KEY_LEN: usize = 32;

/// Length of an XChaCha20 nonce in bytes.
pub const NONCE_LEN: usize = 24;

/// Length of a Poly1305 authentication tag in bytes.
pub const TAG_LEN: usize = 16;

/// Trusted: `argon2::Error`, why Argon2 refused its parameters or inputs.
#[verifier::external_type_specification]
#[verifier::external_body]
pub struct ExArgon2Error(argon2::Error);

/// Trusted: `aead::Error`, the opaque failure of an AEAD operation.
#[verifier::external_type_specification]
#[verifier::external_body]
pub struct ExAeadError(chacha20poly1305::aead::Error);

/// The 32-byte Argon2id (version 0x13) output for a password, salt and costs.
pub uninterp spec fn argon2id_key(
    password: Seq<u8>,
    salt: Seq<u8>,
    memory_kib: u32,
    iterations: u32,
    parallelism: u32,
) -> Seq<u8>;

/// The ciphertext followed by its tag that XChaCha20-Poly1305 produces for a key, nonce and
/// plaintext, with no associated data.
pub uninterp spec fn xchacha_sealed(key: Seq<u8>, nonce: Seq<u8>, plaintext: Seq<u8>) -> Seq<u8>;

/// What XChaCha20-Poly1305 decryption gives for a key, nonce and sealed bytes: the
/// plaintext, or nothing when the bytes do not authenticate.
pub uninterp spec fn xchacha_opened(key: Seq<u8>, nonce: Seq<u8>, sealed: Seq<u8>) -> Option<Seq<u8>>;

/// The first `len` bytes of the XChaCha20 keystream for a key and nonce, from the second
/// 64-byte block on (the first block keys Poly1305).
pub uninterp spec fn xchacha_keystream(key: Seq<u8>, nonce: Seq<u8>, len: nat) -> Seq<u8>;

/// The bytes of `a`, each combined by exclusive or with the byte of `b` at its position.
pub open spec fn xor_bytes(a: Seq<u8>, b: Seq<u8>) -> Seq<u8> {
    Seq::new(a.len(), |i: int| a[i] ^ b[i])
}

/// The costs Argon2 accepts: at least 8 KiB of memory and 8 KiB per lane, at least one
/// iteration, and 1 to 2^24 - 1 lanes.
pub open spec fn argon2_costs_valid(memory_kib: u32, iterations: u32, parallelism: u32) -> bool {
    &&& memory_kib >= 8
    &&& memory_kib >= 8 * parallelism
    &&& iterations >= 1
    &&& 1 <= parallelism <= 0xFF_FFFF
}

/// Trusted: `argon2::Params::new` with a 32-byte output, then
/// `Argon2::new(Argon2id, V0x13, params).hash_password_into`. The parameters are refused
/// exactly when the costs are out of range, and the hash only for a password longer than
/// 2^32 - 1 bytes; the key is named `argon2id_key` of the inputs. The lane count must stay
/// below 2^29, since the parameter check multiplies it by 8 in `u32`. The memory is
/// allocated by the crate; running out of it aborts, which is not stated.
#[verifier::external_body]
fn argon2id_derive(
    password: &[u8],
    salt: &[u8; 32],
    memory_kib: u32,
    iterations: u32,
    parallelism: u32,
) -> (r: Result<[u8; 32], argon2::Error>)
    requires
        parallelism <= 0x1FFF_FFFF,
    ensures
        r is Ok <==> (argon2_costs_valid(memory_kib, iterations, parallelism) && password@.len() <= 0xFFFF_FFFF),
        r matches Ok(key) ==> key@ == argon2id_key(password@, salt@, memory_kib, iterations, parallelism),
{
    let params = argon2::Params::new(memory_kib, iterations, parallelism, Some(KEY_LEN))?;
    let hasher = argon2::Argon2::new(argon2::Algorithm::Argon2id, argon2::Version::V0x13, params);
    let mut output = [0u8; 32];
    hasher.hash_password_into(password, salt, &mut output)?;
    Ok(output)
}

/// Trusted: `OsRng` with `unwrap_err` and `fill_bytes`: `len` bytes from the operating
/// system's random source. Nothing is stated of their values. A failure of the operating
/// system's source panics inside the crate, which is not stated.
#[verifier::external_body]
fn os_random_bytes(len: usize) -> (r: Vec<u8>)
    ensures
        r@.len() == len,
{
    let mut bytes = vec![0u8; len];
    rand::rngs::OsRng.unwrap_err().fill_bytes(&mut bytes);
    bytes
}

/// Trusted: `XChaCha20Poly1305::new` and `Aead::encrypt` with no associated data. It
/// fails only for a plaintext of 2^32 - 1 or more 64-byte blocks; otherwise it returns
/// `xchacha_sealed` of the inputs, 16 bytes longer than the plaintext, which decryption
/// with the same key and nonce turns back into the plaintext. The bytes before the tag are
/// the plaintext combined by exclusive or with the keystream (`Cipher::encrypt_in_place_detached`
/// applies the keystream from block 1 and then computes the tag over the result).
#[verifier::external_body]
fn xchacha_seal(key: &[u8; 32], nonce: &[u8], plaintext: &[u8]) -> (r: Result<Vec<u8>, chacha20poly1305::aead::Error>)
    requires
        nonce@.len() == NONCE_LEN,
    ensures
        r is Ok <==> plaintext@.len() / 64 < 0xFFFF_FFFF,
        r matches Ok(sealed) ==> sealed@ == xchacha_sealed(key@, nonce@, plaintext@)
            && sealed@.len() == plaintext@.len() + TAG_LEN && xchacha_opened(key@, nonce@, sealed@)
            == Some(plaintext@),
        r matches Ok(sealed) ==> sealed@.take(plaintext@.len() as int) == xor_bytes(plaintext@, xchacha_keystream(key@, nonce@, plaintext@.len())),
{
    let cipher = chacha20poly1305::XChaCha20Poly1305::new(chacha20poly1305::Key::from_slice(key));
    cipher.encrypt(chacha20poly1305::XNonce::from_slice(nonce), plaintext)
}

/// Trusted: `XChaCha20Poly1305::new` and `Aead::decrypt` with no associated data: the
/// plaintext exactly when `xchacha_opened` of the inputs holds one. Decryption checks the
/// last 16 bytes against the Poly1305 tag of the bytes before them and only then applies the
/// keystream (`Cipher::decrypt_in_place_detached`), so a plaintext it returns is those bytes
/// combined with the keystream, and sealing it again gives back the same bytes and tag.
#[verifier::external_body]
fn xchacha_open(key: &[u8; 32], nonce: &[u8], sealed: &[u8]) -> (r: Result<Vec<u8>, chacha20poly1305::aead::Error>)
    requires
        nonce@.len() == NONCE_LEN,
    ensures
        r matches Ok(plaintext) ==> xchacha_opened(key@, nonce@, sealed@) == Some(plaintext@),
        r is Err ==> xchacha_opened(key@, nonce@, sealed@) is None,
        r matches Ok(plaintext) ==> sealed@.len() == plaintext@.len() + TAG_LEN && sealed@ == xchacha_sealed(key@, nonce@, plaintext@),
        r matches Ok(plaintext) ==> plaintext@ == xor_bytes(sealed@.take(plaintext@.len() as int), xchacha_keystream(key@, nonce@, plaintext@.len())),
{
    let cipher = chacha20poly1305::XChaCha20Poly1305::new(chacha20poly1305::Key::from_slice(key));
    cipher.decrypt(chacha20poly1305::XNonce::from_slice(nonce), sealed)
}

/// Trusted: `ToString` on `aead::Error`, whose `Display` writes `aead::Error`.
#[verifier::external_body]
fn aead_error_text(error: chacha20poly1305::aead::Error) -> (r: String)
    ensures
        r@ == "aead::Error"@,
{
    error.to_string()
}

/// Whether a derivation with `config`'s costs is refused.
pub open spec fn kdf_refused(password: Seq<char>, config: KdfConfig) -> bool {
    !argon2_costs_valid(config.memory_kib, config.iterations, config.parallelism)
        || vstd::utf8::encode_utf8(password).len() > 0xFFFF_FFFF
}

/// Derives a 256-bit vault key from the master password with Argon2id. Costs that Argon2
/// refuses report `InvalidPassword`.
pub fn derive_key(password: &str, salt: &[u8; 32], config: &KdfConfig) -> (r: Result<VaultKey, VaultError>)
    requires
        config.parallelism <= 0x1FFF_FFFF,
    ensures
        r is Err <==> kdf_refused(password@, *config),
        r is Err ==> r matches Err(VaultError::InvalidPassword),
        r matches Ok(key) ==> key.0@ == argon2id_key(
            vstd::utf8::encode_utf8(password@),
            salt@,
            config.memory_kib,
            config.iterations,
            config.parallelism,
        ),
{
    let bytes = password.as_bytes();
    match argon2id_derive(bytes, salt, config.memory_kib, config.iterations, config.parallelism) {
        Ok(output) => Ok(VaultKey(output)),
        Err(_) => Err(VaultError::InvalidPassword),
    }
}

/// Generates a random 32-byte salt for vault key derivation.
pub fn generate_salt() -> [u8; 32] {
    let bytes = os_random_bytes(32);
    let mut salt = [0u8; 32];
    let mut i: usize = 0;
    while i < 32
        invariant
            i <= 32,
            bytes@.len() == 32,
        decreases 32 - i,
    {
        salt.set(i, bytes[i]);
        i = i + 1;
    }
    salt
}

/// Whether `payload` is the encryption of `plaintext` under `key`: a 24-byte nonce followed
/// by the sealed plaintext for that nonce.
pub open spec fn is_encryption_of(key: Seq<u8>, plaintext: Seq<u8>, payload: Seq<u8>) -> bool {
    &&& payload.len() == NONCE_LEN + plaintext.len() + TAG_LEN
    &&& payload.skip(NONCE_LEN as int) == xchacha_sealed(key, payload.take(NONCE_LEN as int), plaintext)
    &&& xchacha_opened(key, payload.take(NONCE_LEN as int), payload.skip(NONCE_LEN as int)) == Some(plaintext)
    &&& payload.skip(NONCE_LEN as int).take(plaintext.len() as int) == xor_bytes(
        plaintext,
        xchacha_keystream(key, payload.take(NONCE_LEN as int), plaintext.len()),
    )
}

/// Whether `payload` authenticates under `key` as the encryption of `plaintext`: after the
/// nonce come the plaintext's bytes combined with the keystream and the tag that sealing the
/// plaintext under that nonce gives.
pub open spec fn authenticates_as(key: Seq<u8>, payload: Seq<u8>, plaintext: Seq<u8>) -> bool {
    let nonce = payload.take(NONCE_LEN as int);
    let sealed = payload.skip(NONCE_LEN as int);
    &&& payload.len() == NONCE_LEN + plaintext.len() + TAG_LEN
    &&& sealed == xchacha_sealed(key, nonce, plaintext)
    &&& plaintext == xor_bytes(sealed.take(plaintext.len() as int), xchacha_keystream(key, nonce, plaintext.len()))
}

/// What decrypting `payload` with `key` gives: `None` for a payload shorter than a nonce or
/// one that does not authenticate, else the plaintext.
pub open spec fn decryption_of(key: Seq<u8>, payload: Seq<u8>) -> Option<Seq<u8>> {
    if payload.len() < NONCE_LEN {
        None
    } else {
        xchacha_opened(key, payload.take(NONCE_LEN as int), payload.skip(NONCE_LEN as int))
    }
}

/// Encrypts `plaintext` with XChaCha20-Poly1305 under a fresh random nonce and returns the
/// nonce followed by the ciphertext and tag. Only a plaintext of 2^32 - 1 or more 64-byte
/// blocks fails, with `EncryptionError`.
pub fn encrypt(key: &VaultKey, plaintext: &[u8]) -> (r: Result<Vec<u8>, VaultError>)
    ensures
        r is Ok <==> plaintext@.len() / 64 < 0xFFFF_FFFF,
        r matches Ok(payload) ==> is_encryption_of(key.0@, plaintext@, payload@),
        r matches Err(e) ==> (e matches VaultError::EncryptionError(m) && m@ == "aead::Error"@),
{
    let nonce = os_random_bytes(NONCE_LEN);
    let sealed = match xchacha_seal(&key.0, nonce.as_slice(), plaintext) {
        Ok(sealed) => sealed,
        Err(error) => return Err(VaultError::EncryptionError(aead_error_text(error))),
    };
    let mut output: Vec<u8> = Vec::new();
    let mut i: usize = 0;
    while i < nonce.len()
        invariant
            i <= nonce.len(),
            output@ == nonce@.take(i as int),
        decreases nonce.len() - i,
    {
        output.push(nonce[i]);
        i = i + 1;
    }
    let mut j: usize = 0;
    while j < sealed.len()
        invariant
            j <= sealed.len(),
            output@ == nonce@ + sealed@.take(j as int),
        decreases sealed.len() - j,
    {
        output.push(sealed[j]);
        j = j + 1;
    }
    proof {
        assert(nonce@.take(NONCE_LEN as int) =~= nonce@);
        assert(sealed@.take(sealed@.len() as int) =~= sealed@);
        assert(output@.take(NONCE_LEN as int) =~= nonce@);
        assert(output@.skip(NONCE_LEN as int) =~= sealed@);
    }
    Ok(output)
}

/// Decrypts a payload produced by [`encrypt`]. A payload shorter than a nonce, or one that
/// does not authenticate, is a `DecryptionError`.
pub fn decrypt(key: &VaultKey, ciphertext: &[u8]) -> (r: Result<Vec<u8>, VaultError>)
    ensures
        decryption_of(key.0@, ciphertext@) matches Some(p) ==> (r matches Ok(v) && v@ == p),
        ciphertext@.len() < NONCE_LEN ==> (r matches Err(VaultError::DecryptionError(m)) && m@
            == "ciphertext shorter than nonce"@),
        ciphertext@.len() >= NONCE_LEN && decryption_of(key.0@, ciphertext@) is None ==> (
        r matches Err(VaultError::DecryptionError(m)) && m@ == "aead::Error"@),
        r matches Ok(v) ==> authenticates_as(key.0@, ciphertext@, v@),
{
    if ciphertext.len() < NONCE_LEN {
        return Err(VaultError::DecryptionError(String::from_str("ciphertext shorter than nonce")));
    }
    let (nonce, payload) = ciphertext.split_at(NONCE_LEN);
    match xchacha_open(&key.0, nonce, payload) {
        Ok(plaintext) => {
            assert(nonce@ =~= ciphertext@.take(NONCE_LEN as int));
            assert(payload@ =~= ciphertext@.skip(NONCE_LEN as int));
            Ok(plaintext)
        },
        Err(error) => Err(VaultError::DecryptionError(aead_error_text(error))),
    }
}

/// Zeroizes key material. Called on lock.
pub fn zeroize_key(key: &mut VaultKey)
    ensures
        forall|i: int| 0 <= i < 32 ==> final(key).0@[i] == 0,
{
    zeroize_bytes(&mut key.0);
}

/// Decryption gives back what encryption sealed: for every payload that [`encrypt`] can
/// return for a key and plaintext, [`decrypt`] with that key returns the plaintext.
pub proof fn decrypt_inverts_encrypt(key: Seq<u8>, plaintext: Seq<u8>, payload: Seq<u8>)
    requires
        is_encryption_of(key, plaintext, payload),
    ensures
        decryption_of(key, payload) == Some(plaintext),
{
}

/// A payload whose authentication tag was altered does not decrypt: when one byte of the
/// tag of an encryption is changed, no plaintext authenticates the result, so [`decrypt`]
/// refuses it.
pub proof fn altered_tag_is_refused(key: Seq<u8>, plaintext: Seq<u8>, payload: Seq<u8>, i: int, b: u8)
    requires
        is_encryption_of(key, plaintext, payload),
        payload.len() - TAG_LEN <= i < payload.len(),
        b != payload[i],
    ensures
        forall|v: Seq<u8>| !authenticates_as(key, payload.update(i, b), v),
{
    let altered = payload.update(i, b);
    let n = NONCE_LEN as int;
    let len = plaintext.len() as int;
    assert(altered.take(n) =~= payload.take(n));
    assert(altered.skip(n).take(len) =~= payload.skip(n).take(len));
    let ks = xchacha_keystream(key, payload.take(n), plaintext.len());
    assert forall|v: Seq<u8>| !authenticates_as(key, altered, v) by {
        if authenticates_as(key, altered, v) {
            assert(v.len() == plaintext.len());
            assert forall|j: int| 0 <= j < len implies v[j] == plaintext[j] by {
                let p = plaintext[j];
                let k = ks[j];
                assert(v[j] == (p ^ k) ^ k);
                assert((p ^ k) ^ k == p) by (bit_vector);
            }
            assert(v =~= plaintext);
            assert(altered.skip(n) == payload.skip(n));
            assert(altered.skip(n)[i - n] == b);
            assert(payload.skip(n)[i - n] == payload[i]);
        }
    }
}

} // verus!

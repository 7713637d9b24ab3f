//! The encrypted form of the store: salt, nonce, then ciphertext and tag,
//! under a key derived from a password.

use vstd::prelude::*;
use vstd::slice::slice_subrange;
use sodiumoxide::crypto::aead::xchacha20poly1305_ietf;
use sodiumoxide::crypto::pwhash::argon2id13;
use crate::error::Error;
use crate::secret::{wipe, SecretBytes};

verus! {

/// The width of the salt in a blob.
pub const SALT_LEN: usize = 16;

/// The width of the nonce in a blob.
pub const NONCE_LEN: usize = 24;

/// The width of a derived key.
pub const KEY_LEN: usize = 32;

/// The width of the authentication tag behind the ciphertext.
pub const TAG_LEN: usize = 16;

/// The width of salt and nonce together: where the ciphertext starts.
pub const HEADER_LEN: usize = 40;

/// The key that Argon2id derives from a password and a salt, at the
/// interactive limits of operations and memory.
pub uninterp spec fn argon2id_key(password: Seq<u8>, salt: Seq<u8>) -> Seq<u8>;

/// The ciphertext and tag of XChaCha20-Poly1305 for a plaintext, without
/// associated data.
pub uninterp spec fn aead_sealed(plaintext: Seq<u8>, nonce: Seq<u8>, key: Seq<u8>) -> Seq<u8>;

/// The plaintext that XChaCha20-Poly1305 opens a ciphertext and tag to, or
/// `None` where the tag does not verify.
pub uninterp spec fn aead_opened(sealed: Seq<u8>, nonce: Seq<u8>, key: Seq<u8>) -> Option<
    Seq<u8>,
>;

/// A fresh random salt.
///
/// Trusted: calls `argon2id13::gen_salt` of sodiumoxide. The contract claims
/// only the length, the `SALTBYTES` of Argon2id.
#[verifier::external_body]
fn random_salt() -> (r: Vec<u8>)
    ensures
        r@.len() == SALT_LEN,
{
    argon2id13::gen_salt().0.to_vec()
}

/// A fresh random nonce.
///
/// Trusted: calls `xchacha20poly1305_ietf::gen_nonce` of sodiumoxide. The
/// contract claims only the length, the `NPUBBYTES` of the cipher.
#[verifier::external_body]
fn random_nonce() -> (r: Vec<u8>)
    ensures
        r@.len() == NONCE_LEN,
{
    xchacha20poly1305_ietf::gen_nonce().0.to_vec()
}

/// Derives a key from a password and a salt.
///
/// Trusted: calls `argon2id13::derive_key` of sodiumoxide with a buffer of
/// `KEY_LEN` bytes and the interactive limits. The derivation can fail where
/// the machine refuses the memory: then the result is `None`, and nothing is
/// claimed of when. A key that comes back is the named one.
#[verifier::external_body]
fn derive_key_bytes(password: &[u8], salt: &[u8]) -> (r: Option<Vec<u8>>)
    requires
        salt@.len() == SALT_LEN,
    ensures
        r matches Some(key) ==> key@ == argon2id_key(password@, salt@) && key@.len() == KEY_LEN,
{
    let salt = argon2id13::Salt::from_slice(salt)?;
    let mut key = vec![0u8; xchacha20poly1305_ietf::KEYBYTES];
    let ops = argon2id13::OPSLIMIT_INTERACTIVE;
    let mem = argon2id13::MEMLIMIT_INTERACTIVE;
    match argon2id13::derive_key(&mut key, password, &salt, ops, mem) {
        Ok(_) => Some(key),
        Err(_) => None,
    }
}

/// Encrypts and authenticates a plaintext.
///
/// Trusted: calls `xchacha20poly1305_ietf::seal` of sodiumoxide without
/// associated data. The contract names the result, claims its length (the
/// plaintext's and the tag's), and claims what makes the cipher one: that
/// opening the result under the same nonce and key gives the plaintext back.
#[verifier::external_body]
fn seal(plaintext: &[u8], nonce: &[u8], key: &[u8]) -> (r: Vec<u8>)
    requires
        nonce@.len() == NONCE_LEN,
        key@.len() == KEY_LEN,
    ensures
        r@ == aead_sealed(plaintext@, nonce@, key@),
        r@.len() == plaintext@.len() + TAG_LEN,
        aead_opened(r@, nonce@, key@) == Some(plaintext@),
{
    let nonce = xchacha20poly1305_ietf::Nonce::from_slice(nonce).unwrap();
    let key = xchacha20poly1305_ietf::Key::from_slice(key).unwrap();
    xchacha20poly1305_ietf::seal(plaintext, None, &nonce, &key)
}

/// Verifies and decrypts a ciphertext with its tag.
///
/// Trusted: calls `xchacha20poly1305_ietf::open` of sodiumoxide without
/// associated data. The contract names the result.
#[verifier::external_body]
fn open(sealed: &[u8], nonce: &[u8], key: &[u8]) -> (r: Option<Vec<u8>>)
    requires
        nonce@.len() == NONCE_LEN,
        key@.len() == KEY_LEN,
    ensures
        match r {
            Some(plaintext) => aead_opened(sealed@, nonce@, key@) == Some(plaintext@),
            None => aead_opened(sealed@, nonce@, key@) is None,
        },
{
    let nonce = xchacha20poly1305_ietf::Nonce::from_slice(nonce).unwrap();
    let key = xchacha20poly1305_ietf::Key::from_slice(key).unwrap();
    xchacha20poly1305_ietf::open(sealed, None, &nonce, &key).ok()
}

/// The salt of a blob: its first `SALT_LEN` bytes.
pub open spec fn salt_of(blob: Seq<u8>) -> Seq<u8>
    recommends
        blob.len() >= HEADER_LEN,
{
    blob.subrange(0, SALT_LEN as int)
}

/// The nonce of a blob: the `NONCE_LEN` bytes behind the salt.
pub open spec fn nonce_of(blob: Seq<u8>) -> Seq<u8>
    recommends
        blob.len() >= HEADER_LEN,
{
    blob.subrange(SALT_LEN as int, HEADER_LEN as int)
}

/// The ciphertext and tag of a blob: all that is behind the nonce.
pub open spec fn sealed_of(blob: Seq<u8>) -> Seq<u8>
    recommends
        blob.len() >= HEADER_LEN,
{
    blob.subrange(HEADER_LEN as int, blob.len() as int)
}

/// The blob for a plaintext under a key, with the given salt and nonce.
pub open spec fn encrypted_with(plaintext: Seq<u8>, key: Seq<u8>, salt: Seq<u8>, nonce: Seq<u8>)
    -> Seq<u8> {
    salt + nonce + aead_sealed(plaintext, nonce, key)
}

/// What a blob opens to under a key: nothing where it is too short to hold
/// salt and nonce, and else what the cipher opens its third part to.
pub open spec fn opened_with(blob: Seq<u8>, key: Seq<u8>) -> Option<Seq<u8>> {
    if blob.len() < HEADER_LEN {
        None
    } else {
        aead_opened(sealed_of(blob), nonce_of(blob), key)
    }
}

/// What a blob decrypts to under a password: what it opens to under the key
/// derived from the password and the blob's salt.
pub open spec fn decrypted(blob: Seq<u8>, password: Seq<u8>) -> Option<Seq<u8>> {
    if blob.len() < HEADER_LEN {
        None
    } else {
        opened_with(blob, argon2id_key(password, salt_of(blob)))
    }
}

/// The parts of a blob are the salt, the nonce and the sealed text that it
/// was put together from.
pub proof fn parts_of_blob(salt: Seq<u8>, nonce: Seq<u8>, sealed: Seq<u8>)
    requires
        salt.len() == SALT_LEN,
        nonce.len() == NONCE_LEN,
    ensures
        (salt + nonce + sealed).len() == HEADER_LEN + sealed.len(),
        salt_of(salt + nonce + sealed) == salt,
        nonce_of(salt + nonce + sealed) == nonce,
        sealed_of(salt + nonce + sealed) == sealed,
{
    let blob = salt + nonce + sealed;
    assert(salt_of(blob) =~= salt);
    assert(nonce_of(blob) =~= nonce);
    assert(sealed_of(blob) =~= sealed);
}

/// A blob decrypts under its password to what was encrypted, given that the
/// cipher opens what it sealed: salt and nonce are found again where they
/// were put.
pub proof fn blob_decrypts_where_cipher_opens(
    plaintext: Seq<u8>,
    password: Seq<u8>,
    salt: Seq<u8>,
    nonce: Seq<u8>,
)
    requires
        salt.len() == SALT_LEN,
        nonce.len() == NONCE_LEN,
        aead_opened(
            aead_sealed(plaintext, nonce, argon2id_key(password, salt)),
            nonce,
            argon2id_key(password, salt),
        ) == Some(plaintext),
    ensures
        decrypted(encrypted_with(plaintext, argon2id_key(password, salt), salt, nonce), password)
            == Some(plaintext),
{
    parts_of_blob(salt, nonce, aead_sealed(plaintext, nonce, argon2id_key(password, salt)));
}

/// Copies a part of a slice.
fn copy_range(bytes: &[u8], from: usize, to: usize) -> (r: Vec<u8>)
    requires
        from <= to <= bytes@.len(),
    ensures
        r@ == bytes@.subrange(from as int, to as int),
{
    let mut out: Vec<u8> = Vec::new();
    let mut i: usize = from;
    while i < to
        invariant
            from <= i <= to <= bytes@.len(),
            out@ == bytes@.subrange(from as int, i as int),
        decreases to - i,
    {
        out.push(bytes[i]);
        proof {
            assert(bytes@.subrange(from as int, i as int).push(bytes@[i as int])
                =~= bytes@.subrange(from as int, i + 1));
        }
        i += 1;
    }
    out
}

/// Encrypts a plaintext under a key, with the given salt and nonce in front.
pub fn encrypt_with(plaintext: &[u8], key: &[u8], salt: &[u8], nonce: &[u8]) -> (blob: Vec<u8>)
    requires
        key@.len() == KEY_LEN,
        salt@.len() == SALT_LEN,
        nonce@.len() == NONCE_LEN,
    ensures
        blob@ == encrypted_with(plaintext@, key@, salt@, nonce@),
        blob@.len() == HEADER_LEN + plaintext@.len() + TAG_LEN,
        opened_with(blob@, key@) == Some(plaintext@),
{
    let mut sealed = seal(plaintext, nonce, key);
    let mut blob = copy_range(salt, 0, salt.len());
    let mut nonce_copy = copy_range(nonce, 0, nonce.len());
    proof {
        assert(salt@.subrange(0, salt@.len() as int) =~= salt@);
        assert(nonce@.subrange(0, nonce@.len() as int) =~= nonce@);
        parts_of_blob(salt@, nonce@, sealed@);
    }
    blob.append(&mut nonce_copy);
    blob.append(&mut sealed);
    blob
}

/// Opens a blob under a key. Fails with `AuthenticationFailure` exactly where
/// the blob is too short or its tag does not verify.
pub fn decrypt_with(blob: &[u8], key: &[u8]) -> (r: Result<Vec<u8>, Error>)
    requires
        key@.len() == KEY_LEN,
    ensures
        match r {
            Ok(plaintext) => opened_with(blob@, key@) == Some(plaintext@),
            Err(e) => opened_with(blob@, key@) is None && e == Error::AuthenticationFailure,
        },
{
    if blob.len() < HEADER_LEN {
        return Err(Error::AuthenticationFailure);
    }
    let nonce = slice_subrange(blob, SALT_LEN, HEADER_LEN);
    let sealed = slice_subrange(blob, HEADER_LEN, blob.len());
    match open(sealed, nonce, key) {
        Some(plaintext) => Ok(plaintext),
        None => Err(Error::AuthenticationFailure),
    }
}

/// Derives the key of a password and a salt. The only failure is
/// `Unavailable`: the derivation could not run. The caller wipes the key.
pub fn derive_key(password: &[u8], salt: &[u8]) -> (r: Result<SecretBytes, Error>)
    requires
        salt@.len() == SALT_LEN,
    ensures
        match r {
            Ok(key) => key@ == argon2id_key(password@, salt@) && key@.len() == KEY_LEN,
            Err(e) => e == Error::Unavailable,
        },
{
    match derive_key_bytes(password, salt) {
        Some(key) => Ok(SecretBytes::new(key)),
        None => Err(Error::Unavailable),
    }
}

/// Encrypts a plaintext under a password, with a fresh random salt and a
/// fresh random nonce. The only failure is `Unavailable`: the key could not be
/// derived.
///
/// The blob that comes back is the encryption under the key derived from the
/// password and the blob's own salt, with the blob's own nonce; and it
/// decrypts under the same password to the plaintext.
pub fn encrypt(plaintext: &[u8], password: &[u8]) -> (r: Result<Vec<u8>, Error>)
    ensures
        match r {
            Ok(blob) => {
                &&& blob@.len() == HEADER_LEN + plaintext@.len() + TAG_LEN
                &&& blob@ == encrypted_with(
                    plaintext@,
                    argon2id_key(password@, salt_of(blob@)),
                    salt_of(blob@),
                    nonce_of(blob@),
                )
                &&& decrypted(blob@, password@) == Some(plaintext@)
            },
            Err(e) => e == Error::Unavailable,
        },
{
    let salt = random_salt();
    let nonce = random_nonce();
    match derive_key(password, salt.as_slice()) {
        Err(e) => Err(e),
        Ok(key) => {
            let mut key = key;
            let blob = encrypt_with(plaintext, key.as_slice(), salt.as_slice(), nonce.as_slice());
            proof {
                parts_of_blob(salt@, nonce@, aead_sealed(plaintext@, nonce@, key@));
            }
            key.wipe();
            Ok(blob)
        },
    }
}

/// Decrypts a blob under a password. What comes back is what the blob
/// decrypts to. The failure is `AuthenticationFailure` exactly where the blob
/// is too short or its tag does not verify under the password, whichever of
/// a wrong password and an altered blob is the cause; it is `Unavailable`
/// where the key could not be derived.
pub fn decrypt(blob: &[u8], password: &[u8]) -> (r: Result<Vec<u8>, Error>)
    ensures
        match r {
            Ok(plaintext) => decrypted(blob@, password@) == Some(plaintext@),
            Err(e) => if blob@.len() < HEADER_LEN {
                e == Error::AuthenticationFailure
            } else if e == Error::AuthenticationFailure {
                decrypted(blob@, password@) is None
            } else {
                e == Error::Unavailable
            },
        },
{
    if blob.len() < HEADER_LEN {
        return Err(Error::AuthenticationFailure);
    }
    let salt = slice_subrange(blob, 0, SALT_LEN);
    match derive_key(password, salt) {
        Err(e) => Err(e),
        Ok(key) => {
            let mut key = key;
            let r = decrypt_with(blob, key.as_slice());
            key.wipe();
            r
        },
    }
}

/// Changes the password of a blob: decrypts it under the old password and
/// encrypts what came out under the new one, with a fresh salt and nonce.
/// Where the old password does not open the blob, nothing comes back that
/// could be written over it.
pub fn change_password(blob: &[u8], old_password: &[u8], new_password: &[u8]) -> (r: Result<
    Vec<u8>,
    Error,
>)
    ensures
        match r {
            Ok(renewed) => decrypted(blob@, old_password@) is Some && decrypted(
                renewed@,
                new_password@,
            ) == decrypted(blob@, old_password@),
            Err(e) => if e == Error::AuthenticationFailure {
                decrypted(blob@, old_password@) is None
            } else {
                e == Error::Unavailable
            },
        },
{
    match decrypt(blob, old_password) {
        Err(e) => Err(e),
        Ok(plaintext) => {
            let mut plaintext = plaintext;
            let r = encrypt(plaintext.as_slice(), new_password);
            wipe(&mut plaintext);
            r
        },
    }
}

} // verus!

//! The encrypted backup of andOTP: four bytes of an iteration count, a salt
//! of 12 bytes, a nonce of 12 bytes, then the JSON of the records under
//! AES-256-GCM, with a key that PBKDF2 with HMAC-SHA1 derives from the
//! password.

use vstd::prelude::*;
use vstd::slice::slice_subrange;
use sodiumoxide::crypto::aead::aes256gcm;
use crate::error::{Error, ImportReason};
use crate::otp::{big_endian_bytes, compute_hmac, hmac_sha1, to_big_endian};
use crate::record::Algorithm;
use crate::secret::{wipe, SecretBytes};

verus! {

/// The width of the iteration count at the start of a backup.
pub const COUNT_LEN: usize = 4;

/// The width of the salt of a backup.
pub const BACKUP_SALT_LEN: usize = 12;

/// The width of the nonce of a backup.
pub const BACKUP_NONCE_LEN: usize = 12;

/// The width of all that stands in front of the sealed text.
pub const BACKUP_HEADER_LEN: usize = 28;

/// The width of the key of a backup.
pub const BACKUP_KEY_LEN: usize = 32;

/// The plaintext that AES-256-GCM opens a ciphertext and tag to, without
/// associated data, or `None` where the tag does not verify.
pub uninterp spec fn aes_gcm_opened(sealed: Seq<u8>, nonce: Seq<u8>, key: Seq<u8>) -> Option<
    Seq<u8>,
>;

/// Verifies and decrypts under AES-256-GCM.
///
/// Trusted: calls `sodiumoxide::init`, `aes256gcm::Aes256Gcm::new` and its
/// `open`, without associated data. Where the machine lacks the cipher the
/// result is `None`, and nothing is claimed of when. Else the contract names
/// what `open` gave.
#[verifier::external_body]
fn aes_gcm_open(sealed: &[u8], nonce: &[u8], key: &[u8]) -> (r: Option<Option<Vec<u8>>>)
    requires
        nonce@.len() == BACKUP_NONCE_LEN,
        key@.len() == BACKUP_KEY_LEN,
    ensures
        r matches Some(opened) ==> match opened {
            Some(plaintext) => aes_gcm_opened(sealed@, nonce@, key@) == Some(plaintext@),
            None => aes_gcm_opened(sealed@, nonce@, key@) is None,
        },
{
    sodiumoxide::init().ok()?;
    let cipher = aes256gcm::Aes256Gcm::new().ok()?;
    let nonce = aes256gcm::Nonce::from_slice(nonce)?;
    let key = aes256gcm::Key::from_slice(key)?;
    Some(cipher.open(sealed, None, &nonce, &key).ok())
}

/// Two byte strings combined bit by bit with exclusive or.
pub open spec fn xor_bytes(a: Seq<u8>, b: Seq<u8>) -> Seq<u8>
    recommends
        a.len() == b.len(),
{
    Seq::new(a.len(), |i: int| a[i] ^ b[i])
}

/// The `j`-th link of the chain of a PBKDF2 block: the first is the tag of
/// the salt with the block's number behind it, in four bytes; each later one
/// is the tag of the link before it.
pub open spec fn chain_link(password: Seq<u8>, salt: Seq<u8>, block: u32, j: nat) -> Seq<u8>
    decreases j,
{
    if j <= 1 {
        hmac_sha1(password, salt + big_endian_bytes(block as nat, 4))
    } else {
        hmac_sha1(password, chain_link(password, salt, block, (j - 1) as nat))
    }
}

/// A block of PBKDF2 after `count` iterations: the first `count` links of
/// its chain, combined with exclusive or.
pub open spec fn pbkdf2_block(password: Seq<u8>, salt: Seq<u8>, block: u32, count: nat) -> Seq<u8>
    decreases count,
{
    if count <= 1 {
        chain_link(password, salt, block, 1)
    } else {
        xor_bytes(
            pbkdf2_block(password, salt, block, (count - 1) as nat),
            chain_link(password, salt, block, count),
        )
    }
}

/// The key of 32 bytes that PBKDF2 with HMAC-SHA1 derives: the first block
/// and the first 12 bytes of the second.
pub open spec fn pbkdf2_key(password: Seq<u8>, salt: Seq<u8>, count: nat) -> Seq<u8> {
    pbkdf2_block(password, salt, 1, count) + pbkdf2_block(password, salt, 2, count).subrange(
        0,
        12,
    )
}

/// Combines two byte strings of one length with exclusive or.
fn xor(a: &Vec<u8>, b: &Vec<u8>) -> (r: Vec<u8>)
    requires
        a@.len() == b@.len(),
    ensures
        r@ == xor_bytes(a@, b@),
{
    let mut out: Vec<u8> = Vec::new();
    let mut i: usize = 0;
    while i < a.len()
        invariant
            a@.len() == b@.len(),
            i <= a.len(),
            out@.len() == i,
            forall|j: int| 0 <= j < i ==> out@[j] == a@[j] ^ b@[j],
        decreases a.len() - i,
    {
        out.push(a[i] ^ b[i]);
        i += 1;
    }
    assert(out@ =~= xor_bytes(a@, b@));
    out
}

/// Computes one block of PBKDF2 with HMAC-SHA1.
fn derive_block(password: &[u8], salt: &[u8], block: u32, count: u32) -> (r: Vec<u8>)
    requires
        count >= 1,
    ensures
        r@ == pbkdf2_block(password@, salt@, block, count as nat),
        r@.len() == 20,
{
    let mut message: Vec<u8> = Vec::new();
    message.extend_from_slice(salt);
    let mut number = to_big_endian(block as u64, 4);
    message.append(&mut number);
    assert(message@ =~= salt@ + big_endian_bytes(block as nat, 4));
    let mut link = compute_hmac(Algorithm::Sha1, password, message.as_slice());
    let mut sum = compute_hmac(Algorithm::Sha1, password, message.as_slice());
    let mut j: u32 = 1;
    while j < count
        invariant
            1 <= j <= count,
            link@ == chain_link(password@, salt@, block, j as nat),
            sum@ == pbkdf2_block(password@, salt@, block, j as nat),
            link@.len() == 20,
            sum@.len() == 20,
        decreases count - j,
    {
        link = compute_hmac(Algorithm::Sha1, password, link.as_slice());
        sum = xor(&sum, &link);
        j += 1;
    }
    wipe(&mut link);
    sum
}

/// Derives the key of a backup: PBKDF2 with HMAC-SHA1, `count` iterations,
/// 32 bytes. The caller wipes the key.
pub fn derive_backup_key(password: &[u8], salt: &[u8], count: u32) -> (r: SecretBytes)
    requires
        count >= 1,
    ensures
        r@ == pbkdf2_key(password@, salt@, count as nat),
        r@.len() == BACKUP_KEY_LEN,
{
    let mut key = derive_block(password, salt, 1, count);
    let second = derive_block(password, salt, 2, count);
    key.extend_from_slice(slice_subrange(second.as_slice(), 0, 12));
    SecretBytes::new(key)
}

/// The number that the first four bytes stand for, most significant first.
pub open spec fn iterations_of(backup: Seq<u8>) -> int
    recommends
        backup.len() >= COUNT_LEN,
{
    backup[0] * 0x100_0000 + backup[1] * 0x1_0000 + backup[2] * 0x100 + backup[3]
}

/// What a backup opens to under a password: nothing where it is too short
/// for its header or names no iteration; else what the cipher opens the
/// sealed text to, under the backup's nonce and the key derived from the
/// password with the backup's salt and iteration count.
pub open spec fn backup_opened(backup: Seq<u8>, password: Seq<u8>) -> Option<Seq<u8>> {
    if !has_header(backup) {
        None
    } else {
        aes_gcm_opened(
            backup.subrange(BACKUP_HEADER_LEN as int, backup.len() as int),
            backup.subrange(COUNT_LEN + BACKUP_SALT_LEN, BACKUP_HEADER_LEN as int),
            pbkdf2_key(
                password,
                backup.subrange(COUNT_LEN as int, COUNT_LEN + BACKUP_SALT_LEN),
                iterations_of(backup) as nat,
            ),
        )
    }
}

/// Reads the iteration count of a backup.
pub fn read_iterations(backup: &[u8]) -> (r: u32)
    requires
        backup@.len() >= COUNT_LEN,
    ensures
        r == iterations_of(backup@),
{
    let b0: u32 = backup[0] as u32;
    let b1: u32 = backup[1] as u32;
    let b2: u32 = backup[2] as u32;
    let b3: u32 = backup[3] as u32;
    b0 * 0x100_0000 + b1 * 0x1_0000 + b2 * 0x100 + b3
}

/// Whether a backup has its header and names at least one iteration.
pub open spec fn has_header(backup: Seq<u8>) -> bool {
    backup.len() >= BACKUP_HEADER_LEN && iterations_of(backup) != 0
}

/// Decrypts a backup under its password and gives the plaintext, the JSON of
/// the records. The failure is an `ImportError` exactly where the backup does
/// not open: `Malformed` where it is too short or names no iteration, and
/// `Undecryptable` where its tag does not verify (a wrong password or an
/// altered backup). It is `Unavailable` where the machine lacks the cipher.
pub fn decode_backup(backup: &[u8], password: &[u8]) -> (r: Result<Vec<u8>, Error>)
    ensures
        match r {
            Ok(plaintext) => backup_opened(backup@, password@) == Some(plaintext@),
            Err(e) => if !has_header(backup@) {
                e == (Error::ImportError { entry: 0, reason: ImportReason::Malformed })
            } else if e == Error::Unavailable {
                true
            } else {
                e == (Error::ImportError { entry: 0, reason: ImportReason::Undecryptable })
                    && backup_opened(backup@, password@) is None
            },
        },
{
    if backup.len() < BACKUP_HEADER_LEN {
        return Err(Error::ImportError { entry: 0, reason: ImportReason::Malformed });
    }
    let count = read_iterations(backup);
    if count == 0 {
        return Err(Error::ImportError { entry: 0, reason: ImportReason::Malformed });
    }
    let salt = slice_subrange(backup, COUNT_LEN, COUNT_LEN + BACKUP_SALT_LEN);
    let nonce = slice_subrange(backup, COUNT_LEN + BACKUP_SALT_LEN, BACKUP_HEADER_LEN);
    let sealed = slice_subrange(backup, BACKUP_HEADER_LEN, backup.len());
    let mut key = derive_backup_key(password, salt, count);
    let opened = aes_gcm_open(sealed, nonce, key.as_slice());
    key.wipe();
    match opened {
        None => Err(Error::Unavailable),
        Some(None) => Err(Error::ImportError { entry: 0, reason: ImportReason::Undecryptable }),
        Some(Some(plaintext)) => Ok(plaintext),
    }
}

} // verus!

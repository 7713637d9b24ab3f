//! Code generation: the HMAC of the moving factor, its dynamic truncation,
//! and the text of the code.

use vstd::prelude::*;
use hmac::{Hmac, Mac};
use sha1::Sha1;
use sha2::{Sha256, Sha512};
use crate::error::Error;
use crate::record::{algorithm_of, parse_algorithm, valid_record, Algorithm, Mode, OTPElement, OTPElementView};
use crate::secret::{decode_key, secret_bytes};
use crate::text::from_chars;

verus! {

/// The HMAC-SHA1 tag of a message under a key.
pub uninterp spec fn hmac_sha1(key: Seq<u8>, message: Seq<u8>) -> Seq<u8>;

/// The HMAC-SHA256 tag of a message under a key.
pub uninterp spec fn hmac_sha256(key: Seq<u8>, message: Seq<u8>) -> Seq<u8>;

/// The HMAC-SHA512 tag of a message under a key.
pub uninterp spec fn hmac_sha512(key: Seq<u8>, message: Seq<u8>) -> Seq<u8>;

/// Computes HMAC-SHA1.
///
/// Trusted: calls `Hmac<Sha1>` of the crates `hmac` and `sha1`
/// (`new_from_slice`, which accepts a key of any length, `update`,
/// `finalize`). The contract names the tag and claims its length, the 20
/// bytes of a SHA-1 output.
#[verifier::external_body]
fn mac_sha1(key: &[u8], message: &[u8]) -> (r: Vec<u8>)
    ensures
        r@ == hmac_sha1(key@, message@),
        r@.len() == 20,
{
    let mut mac = Hmac::<Sha1>::new_from_slice(key).unwrap();
    mac.update(message);
    mac.finalize().into_bytes().to_vec()
}

/// Computes HMAC-SHA256.
///
/// Trusted: calls `Hmac<Sha256>` of the crates `hmac` and `sha2` in the same
/// way. The contract names the tag and claims its length, the 32 bytes of a
/// SHA-256 output.
#[verifier::external_body]
fn mac_sha256(key: &[u8], message: &[u8]) -> (r: Vec<u8>)
    ensures
        r@ == hmac_sha256(key@, message@),
        r@.len() == 32,
{
    let mut mac = Hmac::<Sha256>::new_from_slice(key).unwrap();
    mac.update(message);
    mac.finalize().into_bytes().to_vec()
}

/// Computes HMAC-SHA512.
///
/// Trusted: calls `Hmac<Sha512>` of the crates `hmac` and `sha2` in the same
/// way. The contract names the tag and claims its length, the 64 bytes of a
/// SHA-512 output.
#[verifier::external_body]
fn mac_sha512(key: &[u8], message: &[u8]) -> (r: Vec<u8>)
    ensures
        r@ == hmac_sha512(key@, message@),
        r@.len() == 64,
{
    let mut mac = Hmac::<Sha512>::new_from_slice(key).unwrap();
    mac.update(message);
    mac.finalize().into_bytes().to_vec()
}

/// The HMAC tag under the chosen hash function.
pub open spec fn hmac_tag(algorithm: Algorithm, key: Seq<u8>, message: Seq<u8>) -> Seq<u8> {
    match algorithm {
        Algorithm::Sha1 => hmac_sha1(key, message),
        Algorithm::Sha256 => hmac_sha256(key, message),
        Algorithm::Sha512 => hmac_sha512(key, message),
    }
}

/// The length of a tag: that of the hash function's output.
pub open spec fn tag_len(algorithm: Algorithm) -> nat {
    match algorithm {
        Algorithm::Sha1 => 20,
        Algorithm::Sha256 => 32,
        Algorithm::Sha512 => 64,
    }
}

/// Computes the HMAC tag under the chosen hash function.
pub fn compute_hmac(algorithm: Algorithm, key: &[u8], message: &[u8]) -> (r: Vec<u8>)
    ensures
        r@ == hmac_tag(algorithm, key@, message@),
        r@.len() == tag_len(algorithm),
{
    match algorithm {
        Algorithm::Sha1 => mac_sha1(key, message),
        Algorithm::Sha256 => mac_sha256(key, message),
        Algorithm::Sha512 => mac_sha512(key, message),
    }
}

/// The last `n` bytes of the big-endian form of `value`, with zero bytes in
/// front where the value is short.
pub open spec fn big_endian_bytes(value: nat, n: nat) -> Seq<u8>
    decreases n,
{
    if n == 0 {
        Seq::empty()
    } else {
        big_endian_bytes(value / 256, (n - 1) as nat).push((value % 256) as u8)
    }
}

/// The eight bytes of a counter, most significant first.
pub open spec fn counter_bytes(counter: u64) -> Seq<u8> {
    big_endian_bytes(counter as nat, 8)
}

/// Writes the last `n` bytes of the big-endian form of a number.
pub fn to_big_endian(value: u64, n: usize) -> (r: Vec<u8>)
    ensures
        r@ == big_endian_bytes(value as nat, n as nat),
{
    let mut out: Vec<u8> = Vec::new();
    let mut cur: u64 = value;
    let mut i: usize = 0;
    while i < n
        invariant
            i <= n,
            big_endian_bytes(value as nat, n as nat) == big_endian_bytes(
                cur as nat,
                (n - i) as nat,
            ) + out@,
        decreases n - i,
    {
        let b: u8 = (cur % 256) as u8;
        proof {
            let rest = big_endian_bytes((cur / 256) as nat, (n - i - 1) as nat);
            assert(big_endian_bytes(cur as nat, (n - i) as nat) == rest.push(b));
            assert(rest.push(b) + out@ =~= rest + out@.insert(0, b));
        }
        out.insert(0, b);
        cur = cur / 256;
        i += 1;
    }
    assert(big_endian_bytes(cur as nat, 0) + out@ =~= out@);
    out
}

/// Writes a counter as eight bytes, most significant first.
pub fn counter_to_bytes(counter: u64) -> (r: Vec<u8>)
    ensures
        r@ == counter_bytes(counter),
{
    to_big_endian(counter, 8)
}

/// Dynamic truncation: the low four bits of the last byte give an offset, and
/// the four bytes from there, read most significant first with the top bit
/// dropped, give a number of 31 bits.
pub open spec fn truncated(digest: Seq<u8>) -> int
    recommends
        digest.len() >= 20,
{
    let offset = (digest.last() % 16) as int;
    (digest[offset] % 128) * 0x100_0000 + digest[offset + 1] * 0x1_0000 + digest[offset + 2]
        * 0x100 + digest[offset + 3]
}

/// Computes the dynamic truncation of an HMAC tag.
pub fn dynamic_truncation(digest: &[u8]) -> (r: u32)
    requires
        digest@.len() >= 20,
    ensures
        r == truncated(digest@),
        r < 0x8000_0000,
{
    let offset: usize = (digest[digest.len() - 1] % 16) as usize;
    let b0: u32 = (digest[offset] % 128) as u32;
    let b1: u32 = digest[offset + 1] as u32;
    let b2: u32 = digest[offset + 2] as u32;
    let b3: u32 = digest[offset + 3] as u32;
    b0 * 0x100_0000 + b1 * 0x1_0000 + b2 * 0x100 + b3
}

/// The character of a decimal digit.
pub open spec fn digit_char(d: nat) -> char
    recommends
        d < 10,
{
    ((48 + d) as u8) as char
}

/// The last `n` decimal digits of `value`, most significant first, with
/// zeroes in front where the value is short: the number `value` modulo
/// `10^n`, written in `n` characters.
pub open spec fn decimal_digits(value: nat, n: nat) -> Seq<char>
    decreases n,
{
    if n == 0 {
        Seq::empty()
    } else {
        decimal_digits(value / 10, (n - 1) as nat).push(digit_char(value % 10))
    }
}

/// The 26 symbols of a Steam code.
pub open spec fn steam_alphabet() -> Seq<char> {
    seq![
        '2', '3', '4', '5', '6', '7', '8', '9', 'B', 'C', 'D', 'F', 'G', 'H', 'J', 'K', 'M', 'N',
        'P', 'Q', 'R', 'T', 'V', 'W', 'X', 'Y',
    ]
}

/// `n` symbols of the Steam alphabet for `value`: the first is the symbol of
/// `value` modulo 26, the next that of the quotient, and so on.
pub open spec fn steam_symbols(value: nat, n: nat) -> Seq<char>
    decreases n,
{
    if n == 0 {
        Seq::empty()
    } else {
        seq![steam_alphabet()[(value % 26) as int]] + steam_symbols(value / 26, (n - 1) as nat)
    }
}

/// The text of a code for a truncated value: five Steam symbols, or `digits`
/// decimal digits.
pub open spec fn code_text(value: nat, mode: Mode, digits: u64) -> Seq<char> {
    match mode {
        Mode::Steam => steam_symbols(value, 5),
        _ => decimal_digits(value, digits as nat),
    }
}

/// Writes the last `digits` decimal digits of `value`.
pub fn format_decimal(value: u32, digits: u64) -> (r: Vec<char>)
    ensures
        r@ == decimal_digits(value as nat, digits as nat),
{
    let mut out: Vec<char> = Vec::new();
    let mut cur: u32 = value;
    let mut i: u64 = 0;
    while i < digits
        invariant
            i <= digits,
            decimal_digits(value as nat, digits as nat) == decimal_digits(
                cur as nat,
                (digits - i) as nat,
            ) + out@,
        decreases digits - i,
    {
        let d: u8 = (cur % 10) as u8;
        let c: char = (48u8 + d) as char;
        proof {
            let rest = decimal_digits((cur / 10) as nat, (digits - i - 1) as nat);
            assert(c == digit_char((cur % 10) as nat));
            assert(decimal_digits(cur as nat, (digits - i) as nat) == rest.push(c));
            assert(rest.push(c) + out@ =~= rest + out@.insert(0, c));
        }
        out.insert(0, c);
        cur = cur / 10;
        i += 1;
    }
    assert(decimal_digits(cur as nat, 0) + out@ =~= out@);
    out
}

/// Writes the five Steam symbols of `value`.
pub fn format_steam(value: u32) -> (r: Vec<char>)
    ensures
        r@ == steam_symbols(value as nat, 5),
{
    let alphabet: [char; 26] = [
        '2', '3', '4', '5', '6', '7', '8', '9', 'B', 'C', 'D', 'F', 'G', 'H', 'J', 'K', 'M', 'N',
        'P', 'Q', 'R', 'T', 'V', 'W', 'X', 'Y',
    ];
    assert(alphabet@ =~= steam_alphabet());
    let mut out: Vec<char> = Vec::new();
    let mut cur: u32 = value;
    let mut i: u64 = 0;
    while i < 5
        invariant
            i <= 5,
            alphabet@ == steam_alphabet(),
            steam_symbols(value as nat, 5) == out@ + steam_symbols(cur as nat, (5 - i) as nat),
        decreases 5 - i,
    {
        let c: char = alphabet[(cur % 26) as usize];
        proof {
            let rest = steam_symbols((cur / 26) as nat, (5 - i - 1) as nat);
            assert(steam_symbols(cur as nat, (5 - i) as nat) == seq![c] + rest);
            assert(out@ + (seq![c] + rest) =~= out@.push(c) + rest);
        }
        out.push(c);
        cur = cur / 26;
        i += 1;
    }
    assert(out@ + steam_symbols(cur as nat, 0) =~= out@);
    out
}

/// The code that an HMAC tag gives: its dynamic truncation, written as the
/// mode asks.
pub fn code_from_digest(digest: &[u8], mode: Mode, digits: u64) -> (r: String)
    requires
        digest@.len() >= 20,
    ensures
        r@ == code_text(truncated(digest@) as nat, mode, digits),
{
    let value: u32 = dynamic_truncation(digest);
    let chars = match mode {
        Mode::Steam => format_steam(value),
        _ => format_decimal(value, digits),
    };
    from_chars(chars.as_slice())
}

/// The moving factor of a record at a time: the counter of a counter-based
/// record, the number of whole periods since the epoch of a time-based one
/// (a Steam record has a period of 30 seconds).
pub open spec fn moving_factor(v: OTPElementView, now: u64) -> u64
    recommends
        v.mode == Mode::Totp ==> v.period > 0,
{
    match v.mode {
        Mode::Hotp => v.counter,
        Mode::Totp => now / v.period,
        Mode::Steam => now / 30,
    }
}

/// The code of a valid record at a time.
pub open spec fn code_of(v: OTPElementView, now: u64) -> Seq<char>
    recommends
        valid_record(v),
{
    code_text(
        truncated(
            hmac_tag(
                algorithm_of(v.algorithm)->0,
                secret_bytes(v.secret)->0,
                counter_bytes(moving_factor(v, now)),
            ),
        ) as nat,
        v.mode,
        v.digits,
    )
}

/// The current code of a record, `now` being the time in seconds since the
/// epoch. Fails with `ValidationError` exactly where the record is not valid.
pub fn current_code(record: &OTPElement, now: u64) -> (r: Result<String, Error>)
    ensures
        match r {
            Ok(code) => valid_record(record@) && code@ == code_of(record@, now),
            Err(e) => !valid_record(record@) && e == Error::ValidationError,
        },
{
    let digits = record.digits();
    let mode = record.mode();
    let period = record.period();
    if digits < 6 || digits > 8 {
        return Err(Error::ValidationError);
    }
    if period == 0 && mode != Mode::Hotp {
        return Err(Error::ValidationError);
    }
    let name = record.algorithm();
    let algorithm = match parse_algorithm(name.as_str()) {
        Some(a) => a,
        None => {
            return Err(Error::ValidationError);
        },
    };
    let stripped = record.secret();
    let mut key = match decode_key(stripped.as_str()) {
        Some(k) => k,
        None => {
            return Err(Error::ValidationError);
        },
    };
    let factor: u64 = match mode {
        Mode::Hotp => record.counter(),
        Mode::Totp => now / period,
        Mode::Steam => now / 30,
    };
    let message = counter_to_bytes(factor);
    let digest = compute_hmac(algorithm, key.as_slice(), message.as_slice());
    key.wipe();
    Ok(code_from_digest(digest.as_slice(), mode, digits))
}

} // verus!

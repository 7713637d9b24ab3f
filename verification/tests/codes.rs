use cotp::error::Error;
use cotp::otp::{
    code_from_digest, compute_hmac, counter_to_bytes, current_code, dynamic_truncation,
    format_decimal, format_steam, to_big_endian,
};
use cotp::record::{mode_name, parse_algorithm, parse_mode, Algorithm, Mode, OTPElement};
use cotp::secret::{decode_key, strip_padding, to_ascii, SecretBytes};

const SECRET_SHA1: &str = "GEZDGNBVGY3TQOJQGEZDGNBVGY3TQOJQ";
const SECRET_SHA256: &str = "GEZDGNBVGY3TQOJQGEZDGNBVGY3TQOJQGEZDGNBVGY3TQOJQGEZA====";
const SECRET_SHA512: &str = "GEZDGNBVGY3TQOJQGEZDGNBVGY3TQOJQGEZDGNBVGY3TQOJQGEZDGNBVGY3TQOJQGEZDGNBVGY3TQOJQGEZDGNBVGY3TQOJQGEZDGNA=";

fn key(stripped: &str) -> Option<Vec<u8>> {
    decode_key(stripped).map(|k| k.as_slice().to_vec())
}

fn record(secret: &str, algorithm: &str, period: u64) -> OTPElement {
    OTPElement::new(
        secret.to_string(),
        "label".to_string(),
        algorithm.to_string(),
        "issuer".to_string(),
        period,
    )
}

#[test]
fn hotp_vector_sha1_six_digits_counter_zero() {
    let r = record(SECRET_SHA1, "SHA1", 30).with_mode(Mode::Hotp, 6, 0);
    assert_eq!(current_code(&r, 1_000_000), Ok("755224".to_string()));
}

#[test]
fn hotp_vector_counter_one() {
    let r = record(SECRET_SHA1, "SHA1", 30).with_mode(Mode::Hotp, 6, 1);
    assert_eq!(current_code(&r, 0), Ok("287082".to_string()));
}

#[test]
fn totp_vector_sha1_eight_digits_at_59() {
    let r = record(SECRET_SHA1, "SHA1", 30).with_mode(Mode::Totp, 8, 0);
    assert_eq!(current_code(&r, 59), Ok("94287082".to_string()));
}

#[test]
fn totp_vector_sha256_at_59() {
    let r = record(SECRET_SHA256, "SHA256", 30).with_mode(Mode::Totp, 8, 0);
    assert_eq!(current_code(&r, 59), Ok("46119246".to_string()));
}

#[test]
fn totp_vector_sha512_at_59() {
    let r = record(SECRET_SHA512, "SHA512", 30).with_mode(Mode::Totp, 8, 0);
    assert_eq!(current_code(&r, 59), Ok("90693936".to_string()));
}

#[test]
fn totp_step_changes_with_the_period() {
    let r = record(SECRET_SHA1, "SHA1", 60).with_mode(Mode::Totp, 8, 0);
    // 119 / 60 == 1, the same moving factor as 59 / 30
    assert_eq!(current_code(&r, 119), Ok("94287082".to_string()));
    let first = record(SECRET_SHA1, "SHA1", 30).with_mode(Mode::Totp, 6, 0);
    assert_eq!(current_code(&first, 29), Ok("755224".to_string()));
}

#[test]
fn steam_code_has_five_symbols_and_a_fixed_period() {
    let r = record(SECRET_SHA1, "SHA1", 1).with_mode(Mode::Steam, 6, 0);
    assert_eq!(current_code(&r, 59), Ok("PV9M4".to_string()));
}

#[test]
fn invalid_records_give_validation_error() {
    let bad_secret = record("not base32!", "SHA1", 30);
    assert_eq!(current_code(&bad_secret, 59), Err(Error::ValidationError));
    assert_eq!(bad_secret.validate(), Err(Error::ValidationError));
    let empty_secret = record("", "SHA1", 30);
    assert_eq!(current_code(&empty_secret, 59), Err(Error::ValidationError));
    let only_padding = record("====", "SHA1", 30);
    assert_eq!(only_padding.validate(), Err(Error::ValidationError));
    let bad_algorithm = record(SECRET_SHA1, "MD5", 30);
    assert_eq!(current_code(&bad_algorithm, 59), Err(Error::ValidationError));
    assert_eq!(bad_algorithm.validate(), Err(Error::ValidationError));
    let no_period = record(SECRET_SHA1, "SHA1", 0);
    assert_eq!(current_code(&no_period, 59), Err(Error::ValidationError));
    assert_eq!(no_period.validate(), Err(Error::ValidationError));
    let five_digits = record(SECRET_SHA1, "SHA1", 30).with_mode(Mode::Totp, 5, 0);
    assert_eq!(current_code(&five_digits, 59), Err(Error::ValidationError));
    let nine_digits = record(SECRET_SHA1, "SHA1", 30).with_mode(Mode::Totp, 9, 0);
    assert_eq!(nine_digits.validate(), Err(Error::ValidationError));
    let non_ascii = record("GEZDGNBVé", "SHA1", 30);
    assert_eq!(non_ascii.validate(), Err(Error::ValidationError));
}

#[test]
fn valid_records_validate() {
    assert_eq!(record(SECRET_SHA1, "SHA1", 30).validate(), Ok(()));
    assert_eq!(record(SECRET_SHA256, "SHA256", 30).validate(), Ok(()));
    // a counter-based record needs no period
    let hotp = record(SECRET_SHA1, "SHA512", 0).with_mode(Mode::Hotp, 7, 5);
    assert_eq!(hotp.validate(), Ok(()));
}

#[test]
fn counter_is_written_big_endian() {
    assert_eq!(counter_to_bytes(1), vec![0, 0, 0, 0, 0, 0, 0, 1]);
    assert_eq!(
        counter_to_bytes(0x0102_0304_0506_0708),
        vec![1, 2, 3, 4, 5, 6, 7, 8]
    );
    assert_eq!(counter_to_bytes(u64::MAX), vec![255; 8]);
}

#[test]
fn dynamic_truncation_of_the_rfc_example() {
    let digest: [u8; 20] = [
        0x1f, 0x86, 0x98, 0x69, 0x0e, 0x02, 0xca, 0x16, 0x61, 0x85, 0x50, 0xef, 0x7f, 0x19, 0xda,
        0x8e, 0x94, 0x5b, 0x55, 0x5a,
    ];
    assert_eq!(dynamic_truncation(&digest), 0x50ef7f19);
    assert_eq!(code_from_digest(&digest, Mode::Hotp, 6), "872921");
    assert_eq!(code_from_digest(&digest, Mode::Totp, 8), "57872921");
}

#[test]
fn dynamic_truncation_drops_the_top_bit() {
    let mut digest = [0xffu8; 20];
    digest[19] = 0x00;
    assert_eq!(dynamic_truncation(&digest), 0x7fff_ffff);
}

#[test]
fn decimal_codes_are_zero_padded() {
    let text: String = format_decimal(42, 6).into_iter().collect();
    assert_eq!(text, "000042");
    let text: String = format_decimal(1_284_755_224, 6).into_iter().collect();
    assert_eq!(text, "755224");
    assert_eq!(format_decimal(7, 0), Vec::<char>::new());
}

#[test]
fn steam_symbols_start_with_the_remainder() {
    let text: String = format_steam(0).into_iter().collect();
    assert_eq!(text, "22222");
    let text: String = format_steam(25).into_iter().collect();
    assert_eq!(text, "Y2222");
    let text: String = format_steam(26).into_iter().collect();
    assert_eq!(text, "23222");
    let text: String = format_steam(1_094_287_082).into_iter().collect();
    assert_eq!(text, "PV9M4");
}

#[test]
fn hmac_lengths_follow_the_algorithm() {
    let message = counter_to_bytes(0);
    assert_eq!(compute_hmac(Algorithm::Sha1, b"key", &message).len(), 20);
    assert_eq!(compute_hmac(Algorithm::Sha256, b"key", &message).len(), 32);
    assert_eq!(compute_hmac(Algorithm::Sha512, b"key", &message).len(), 64);
    assert_ne!(compute_hmac(Algorithm::Sha1, b"key", &message), message);
}

#[test]
fn hmac_sha1_known_tag() {
    // the tag behind the first code of the HOTP test values
    let tag = compute_hmac(Algorithm::Sha1, b"12345678901234567890", &counter_to_bytes(0));
    assert_eq!(
        tag,
        vec![
            0xcc, 0x93, 0xcf, 0x18, 0x50, 0x8d, 0x94, 0x93, 0x4c, 0x64, 0xb6, 0x5d, 0x8b, 0xa7,
            0x66, 0x7f, 0xb7, 0xcd, 0xe4, 0xb0
        ]
    );
}

#[test]
fn algorithm_names() {
    assert_eq!(parse_algorithm("SHA1"), Some(Algorithm::Sha1));
    assert_eq!(parse_algorithm("SHA256"), Some(Algorithm::Sha256));
    assert_eq!(parse_algorithm("SHA512"), Some(Algorithm::Sha512));
    assert_eq!(parse_algorithm("sha1"), None);
    assert_eq!(parse_algorithm(""), None);
    assert_eq!(parse_algorithm("SHA2567"), None);
}

#[test]
fn secrets_decode_without_padding() {
    assert_eq!(strip_padding("JBSWY3DPEE======"), "JBSWY3DPEE");
    assert_eq!(strip_padding("=A=B="), "AB");
    assert_eq!(strip_padding(""), "");
    assert_eq!(key("JBSWY3DPEE"), Some(b"Hello!".to_vec()));
    assert_eq!(key("JBUQ"), Some(b"Hi".to_vec()));
    assert_eq!(key(""), None);
    assert_eq!(key("JBUQ===="), None);
    assert_eq!(key("jbuq"), None);
    assert_eq!(key("1"), None);
    assert_eq!(to_ascii("AZ"), Some(vec![65, 90]));
    assert_eq!(to_ascii("é"), None);
}

#[test]
fn getters_give_the_fields_back() {
    let r = OTPElement::new(
        "JBSWY3DPEE======".to_string(),
        "me@example.com".to_string(),
        "SHA256".to_string(),
        "Example".to_string(),
        45,
    );
    assert_eq!(r.secret(), "JBSWY3DPEE");
    assert_eq!(r.label(), "me@example.com");
    assert_eq!(r.algorithm(), "SHA256");
    assert_eq!(r.issuer(), "Example");
    assert_eq!(r.period(), 45);
    assert_eq!(r.digits(), 6);
    assert_eq!(r.counter(), 0);
    assert_eq!(r.mode(), Mode::Totp);
    let h = r.duplicate().with_mode(Mode::Hotp, 8, 12);
    assert_eq!(h.mode(), Mode::Hotp);
    assert_eq!(h.digits(), 8);
    assert_eq!(h.counter(), 12);
    assert_eq!(h.label(), "me@example.com");
}

#[test]
fn mode_names() {
    assert_eq!(parse_mode("TOTP"), Some(Mode::Totp));
    assert_eq!(parse_mode("HOTP"), Some(Mode::Hotp));
    assert_eq!(parse_mode("STEAM"), Some(Mode::Steam));
    assert_eq!(parse_mode("totp"), None);
    assert_eq!(parse_mode(""), None);
    assert_eq!(mode_name(Mode::Totp), "TOTP");
    assert_eq!(mode_name(Mode::Hotp), "HOTP");
    assert_eq!(mode_name(Mode::Steam), "STEAM");
}

#[test]
fn wiped_bytes_are_gone() {
    let mut secret = SecretBytes::new(vec![1, 2, 3]);
    assert_eq!(secret.len(), 3);
    assert_eq!(secret.as_slice(), &[1, 2, 3]);
    secret.wipe();
    assert_eq!(secret.len(), 0);
    assert!(secret.as_slice().is_empty());
}

#[test]
fn big_endian_keeps_the_last_bytes() {
    assert_eq!(to_big_endian(1, 4), vec![0, 0, 0, 1]);
    assert_eq!(to_big_endian(0x0102_0304, 2), vec![3, 4]);
    assert_eq!(to_big_endian(0x0102_0304, 0), Vec::<u8>::new());
    assert_eq!(to_big_endian(258, 9), vec![0, 0, 0, 0, 0, 0, 0, 1, 2]);
}

#[test]
fn source_fields_get_their_defaults() {
    let r = OTPElement::from_source(
        Mode::Totp,
        "JBUQ".to_string(),
        "label".to_string(),
        None,
        None,
        None,
        None,
        None,
    );
    assert_eq!(r.secret(), "JBUQ");
    assert_eq!(r.label(), "label");
    assert_eq!(r.issuer(), "");
    assert_eq!(r.algorithm(), "SHA1");
    assert_eq!(r.digits(), 6);
    assert_eq!(r.period(), 30);
    assert_eq!(r.counter(), 0);
    assert_eq!(r.mode(), Mode::Totp);
    let r = OTPElement::from_source(
        Mode::Hotp,
        "JBUQ".to_string(),
        "label".to_string(),
        Some("issuer".to_string()),
        Some("SHA512".to_string()),
        Some(8),
        Some(60),
        Some(4),
    );
    assert_eq!(r.issuer(), "issuer");
    assert_eq!(r.algorithm(), "SHA512");
    assert_eq!(r.digits(), 8);
    assert_eq!(r.period(), 60);
    assert_eq!(r.counter(), 4);
    assert_eq!(r.mode(), Mode::Hotp);
}

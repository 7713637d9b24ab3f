use cotp::error::{Error, ImportReason};
use cotp::importer::{check_import, import_into, select_format, ImportFlags, ImportFormat};
use cotp::record::{Mode, OTPElement};
use cotp::store::{
    add_element, check_elements, consume_code, edit_element, remove_element,
    remove_element_from_db,
};
use cotp::text::{from_chars, to_chars, to_decimal};

fn record(secret: &str, label: &str) -> OTPElement {
    OTPElement::new(
        secret.to_string(),
        label.to_string(),
        "SHA1".to_string(),
        "issuer".to_string(),
        30,
    )
}

fn valid(label: &str) -> OTPElement {
    record("GEZDGNBVGY3TQOJQGEZDGNBVGY3TQOJQ", label)
}

fn labels(store: &Vec<OTPElement>) -> Vec<String> {
    store.iter().map(|e| e.label()).collect()
}

#[test]
fn remove_checks_the_bounds_of_a_store_of_one() {
    let mut store = vec![valid("a")];
    assert_eq!(remove_element(&mut store, 0), Err(Error::BadIndex));
    assert_eq!(store.len(), 1);
    assert_eq!(remove_element(&mut store, 2), Err(Error::BadIndex));
    assert_eq!(store.len(), 1);
    assert_eq!(remove_element(&mut store, 1), Ok(()));
    assert!(store.is_empty());
    assert_eq!(remove_element(&mut store, 1), Err(Error::BadIndex));
}

#[test]
fn remove_shifts_the_later_records_up() {
    let mut store = vec![valid("a"), valid("b"), valid("c"), valid("d")];
    assert_eq!(remove_element(&mut store, 2), Ok(()));
    assert_eq!(labels(&store), vec!["a", "c", "d"]);
    assert_eq!(remove_element(&mut store, 3), Ok(()));
    assert_eq!(labels(&store), vec!["a", "c"]);
    assert_eq!(remove_element(&mut store, usize::MAX), Err(Error::BadIndex));
}

#[test]
fn remove_element_from_db_tells_whether_it_removed() {
    let mut store = vec![valid("a"), valid("b")];
    assert!(!remove_element_from_db(&mut store, 0));
    assert!(!remove_element_from_db(&mut store, 3));
    assert_eq!(labels(&store), vec!["a", "b"]);
    assert!(remove_element_from_db(&mut store, 1));
    assert_eq!(labels(&store), vec!["b"]);
}

#[test]
fn add_appends_valid_records_only() {
    let mut store = vec![valid("a")];
    assert_eq!(add_element(&mut store, valid("b")), Ok(()));
    assert_eq!(labels(&store), vec!["a", "b"]);
    assert_eq!(
        add_element(&mut store, record("no base32", "c")),
        Err(Error::ValidationError)
    );
    assert_eq!(labels(&store), vec!["a", "b"]);
    let seven = valid("d").with_mode(Mode::Totp, 7, 0);
    assert_eq!(add_element(&mut store, seven), Ok(()));
    let ten = valid("e").with_mode(Mode::Totp, 10, 0);
    assert_eq!(add_element(&mut store, ten), Err(Error::ValidationError));
    assert_eq!(labels(&store), vec!["a", "b", "d"]);
}

#[test]
fn edit_of_digits_leaves_the_other_fields() {
    let mut store = vec![valid("a"), valid("b")];
    assert_eq!(edit_element(&mut store, 2, "", "", "", "", 8, 0), Ok(()));
    assert_eq!(store[1].digits(), 8);
    assert_eq!(store[1].secret(), "GEZDGNBVGY3TQOJQGEZDGNBVGY3TQOJQ");
    assert_eq!(store[1].label(), "b");
    assert_eq!(store[1].issuer(), "issuer");
    assert_eq!(store[1].algorithm(), "SHA1");
    assert_eq!(store[1].period(), 30);
    assert_eq!(store[1].counter(), 0);
    assert_eq!(store[0].digits(), 6);
    assert_eq!(store[0].label(), "a");
}

#[test]
fn edit_overwrites_what_is_given() {
    let mut store = vec![valid("a")];
    assert_eq!(
        edit_element(&mut store, 1, "JBUQ", "new issuer", "new label", "SHA512", 0, 9),
        Ok(())
    );
    assert_eq!(store[0].secret(), "JBUQ");
    assert_eq!(store[0].issuer(), "new issuer");
    assert_eq!(store[0].label(), "new label");
    assert_eq!(store[0].algorithm(), "SHA512");
    assert_eq!(store[0].digits(), 6);
    assert_eq!(store[0].counter(), 9);
    assert_eq!(store.len(), 1);
}

#[test]
fn edit_checks_the_position() {
    let mut store = vec![valid("a")];
    assert_eq!(
        edit_element(&mut store, 0, "", "", "x", "", 0, 0),
        Err(Error::BadIndex)
    );
    assert_eq!(
        edit_element(&mut store, 2, "", "", "x", "", 0, 0),
        Err(Error::BadIndex)
    );
    assert_eq!(labels(&store), vec!["a"]);
}

#[test]
fn consuming_a_counter_code_moves_the_counter() {
    let mut store = vec![valid("t"), valid("h").with_mode(Mode::Hotp, 6, 0)];
    assert_eq!(consume_code(&mut store, 2, 0), Ok("755224".to_string()));
    assert_eq!(store[1].counter(), 1);
    assert_eq!(consume_code(&mut store, 2, 0), Ok("287082".to_string()));
    assert_eq!(store[1].counter(), 2);
    assert_eq!(consume_code(&mut store, 1, 59), Ok("287082".to_string()));
    assert_eq!(store[0].counter(), 0);
    assert_eq!(labels(&store), vec!["t", "h"]);
    assert_eq!(consume_code(&mut store, 3, 59), Err(Error::BadIndex));
    assert_eq!(consume_code(&mut store, 0, 59), Err(Error::BadIndex));
}

#[test]
fn consuming_fails_on_invalid_records_and_full_counters() {
    let mut store = vec![
        record("!", "bad"),
        valid("full").with_mode(Mode::Hotp, 6, u64::MAX),
    ];
    assert_eq!(consume_code(&mut store, 1, 59), Err(Error::ValidationError));
    assert_eq!(consume_code(&mut store, 2, 59), Err(Error::ValidationError));
    assert_eq!(store[1].counter(), u64::MAX);
}

#[test]
fn advance_counter_only_moves_counter_records() {
    let mut totp = valid("t");
    assert!(!totp.advance_counter());
    assert_eq!(totp.counter(), 0);
    let mut hotp = valid("h").with_mode(Mode::Hotp, 6, 41);
    assert!(hotp.advance_counter());
    assert_eq!(hotp.counter(), 42);
    let mut full = valid("h").with_mode(Mode::Hotp, 6, u64::MAX);
    assert!(!full.advance_counter());
    assert_eq!(full.counter(), u64::MAX);
}

#[test]
fn check_elements_messages() {
    let empty: Vec<OTPElement> = Vec::new();
    assert_eq!(
        check_elements(0, &empty),
        Err("there are no elements in your database. Type \"cotp -h\" to get help.".to_string())
    );
    let store = vec![valid("a"), valid("b")];
    assert_eq!(check_elements(0, &store), Ok(()));
    assert_eq!(check_elements(1, &store), Ok(()));
    assert_eq!(check_elements(2, &store), Err("3 is a bad index".to_string()));
    assert_eq!(
        check_elements(41, &store),
        Err("42 is a bad index".to_string())
    );
    assert_eq!(
        check_elements(u64::MAX as usize, &store),
        Err("18446744073709551616 is a bad index".to_string())
    );
}

#[test]
fn import_with_one_invalid_entry_fails_as_a_whole() {
    let mut store = vec![valid("kept")];
    let export = vec![
        valid("1"),
        valid("2"),
        record("invalid secret", "3"),
        valid("4"),
        valid("5"),
    ];
    assert_eq!(check_import(&export), Err(Error::ImportError { entry: 2, reason: ImportReason::InvalidRecord }));
    assert_eq!(
        import_into(&mut store, export),
        Err(Error::ImportError { entry: 2, reason: ImportReason::InvalidRecord })
    );
    assert_eq!(labels(&store), vec!["kept"]);
}

#[test]
fn import_names_the_first_invalid_entry() {
    let export = vec![record("?", "1"), valid("2"), record("?", "3")];
    assert_eq!(check_import(&export), Err(Error::ImportError { entry: 0, reason: ImportReason::InvalidRecord }));
}

#[test]
fn import_of_valid_entries_replaces_the_store() {
    let mut store = vec![valid("old")];
    let export = vec![valid("1"), valid("2")];
    assert_eq!(check_import(&export), Ok(()));
    assert_eq!(import_into(&mut store, export), Ok(()));
    assert_eq!(labels(&store), vec!["1", "2"]);
    assert_eq!(import_into(&mut store, Vec::new()), Ok(()));
    assert!(store.is_empty());
}

#[test]
fn text_conversions() {
    assert_eq!(to_chars("aé="), vec!['a', 'é', '=']);
    assert_eq!(from_chars(&vec!['x', 'y']), "xy");
    assert_eq!(from_chars(&to_decimal(0)), "0");
    assert_eq!(from_chars(&to_decimal(9)), "9");
    assert_eq!(from_chars(&to_decimal(10)), "10");
    assert_eq!(from_chars(&to_decimal(1203)), "1203");
}

fn no_flags() -> ImportFlags {
    ImportFlags {
        cotp: false,
        andotp: false,
        aegis: false,
        freeotp_plus: false,
        google_authenticator: false,
        authy: false,
        microsoft_authenticator: false,
        freeotp: false,
        andotp_encrypted: false,
    }
}

#[test]
fn format_is_selected_by_flag() {
    assert_eq!(select_format(&no_flags()), None);
    let mut f = no_flags();
    f.cotp = true;
    assert_eq!(select_format(&f), Some(ImportFormat::AndOtp));
    let mut f = no_flags();
    f.andotp = true;
    assert_eq!(select_format(&f), Some(ImportFormat::AndOtp));
    let mut f = no_flags();
    f.aegis = true;
    assert_eq!(select_format(&f), Some(ImportFormat::Aegis));
    let mut f = no_flags();
    f.freeotp_plus = true;
    assert_eq!(select_format(&f), Some(ImportFormat::FreeOtpPlus));
    for i in 0..4 {
        let mut f = no_flags();
        match i {
            0 => f.google_authenticator = true,
            1 => f.authy = true,
            2 => f.microsoft_authenticator = true,
            _ => f.freeotp = true,
        }
        assert_eq!(select_format(&f), Some(ImportFormat::Converted));
    }
}

#[test]
fn encrypted_backup_is_selected_last() {
    let mut f = no_flags();
    f.andotp_encrypted = true;
    assert_eq!(select_format(&f), Some(ImportFormat::AndOtpEncrypted));
    f.authy = true;
    assert_eq!(select_format(&f), Some(ImportFormat::Converted));
}

#[test]
fn earlier_flag_decides_between_two() {
    let mut f = no_flags();
    f.aegis = true;
    f.freeotp = true;
    assert_eq!(select_format(&f), Some(ImportFormat::Aegis));
    f.andotp = true;
    assert_eq!(select_format(&f), Some(ImportFormat::AndOtp));
}

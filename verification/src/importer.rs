//! Taking records over from foreign exports: all of them, or none.

use vstd::prelude::*;
use crate::error::{Error, ImportReason};
use crate::record::{valid_record, OTPElement};

verus! {

/// The formats of foreign exports that can be taken over.
#[derive(Clone, Copy, Debug, PartialEq, Eq, Structural)]
pub enum ImportFormat {
    /// A plain JSON list of records: this program's own export and andOTP's.
    AndOtp,
    /// andOTP's backup under a password.
    AndOtpEncrypted,
    /// The vault of Aegis.
    Aegis,
    /// The backup of FreeOTP+.
    FreeOtpPlus,
    /// A text of `otpauth` URIs, one per line, as made from the exports of
    /// other programs.
    Converted,
}

/// What the caller chose on the command line: one flag per source program.
#[derive(Clone, Copy, Debug)]
pub struct ImportFlags {
    pub cotp: bool,
    pub andotp: bool,
    pub aegis: bool,
    pub freeotp_plus: bool,
    pub google_authenticator: bool,
    pub authy: bool,
    pub microsoft_authenticator: bool,
    pub freeotp: bool,
    pub andotp_encrypted: bool,
}

/// The format that the flags select; where several are set, the first in the
/// order of the fields decides. The content of the export is never looked at.
pub open spec fn format_of(flags: ImportFlags) -> Option<ImportFormat> {
    if flags.cotp || flags.andotp {
        Some(ImportFormat::AndOtp)
    } else if flags.aegis {
        Some(ImportFormat::Aegis)
    } else if flags.freeotp_plus {
        Some(ImportFormat::FreeOtpPlus)
    } else if flags.google_authenticator || flags.authy || flags.microsoft_authenticator
        || flags.freeotp {
        Some(ImportFormat::Converted)
    } else if flags.andotp_encrypted {
        Some(ImportFormat::AndOtpEncrypted)
    } else {
        None
    }
}

/// Selects the format of an export by the caller's flags, or none where no
/// flag is set.
pub fn select_format(flags: &ImportFlags) -> (r: Option<ImportFormat>)
    ensures
        r == format_of(*flags),
{
    if flags.cotp || flags.andotp {
        Some(ImportFormat::AndOtp)
    } else if flags.aegis {
        Some(ImportFormat::Aegis)
    } else if flags.freeotp_plus {
        Some(ImportFormat::FreeOtpPlus)
    } else if flags.google_authenticator || flags.authy || flags.microsoft_authenticator
        || flags.freeotp {
        Some(ImportFormat::Converted)
    } else if flags.andotp_encrypted {
        Some(ImportFormat::AndOtpEncrypted)
    } else {
        None
    }
}

/// Whether `entry` is the first record of the list that is not valid.
pub open spec fn first_invalid(records: Seq<OTPElement>, entry: int) -> bool {
    &&& 0 <= entry < records.len()
    &&& !valid_record(records[entry]@)
    &&& forall|i: int| 0 <= i < entry ==> valid_record(#[trigger] records[i]@)
}

/// Whether every record of the list is valid.
pub open spec fn all_valid(records: Seq<OTPElement>) -> bool {
    forall|i: int| 0 <= i < records.len() ==> valid_record(#[trigger] records[i]@)
}

/// Checks the records of an export. One record that is not valid fails the
/// whole list, with an `ImportError` that names the first such record.
pub fn check_import(records: &Vec<OTPElement>) -> (r: Result<(), Error>)
    ensures
        match r {
            Ok(_) => all_valid(records@),
            Err(e) => exists|entry: usize|
                e == (Error::ImportError { entry, reason: ImportReason::InvalidRecord })
                    && first_invalid(records@, entry as int),
        },
{
    let mut i: usize = 0;
    while i < records.len()
        invariant
            i <= records.len(),
            forall|j: int| 0 <= j < i ==> valid_record(#[trigger] records@[j]@),
        decreases records.len() - i,
    {
        if records[i].validate().is_err() {
            assert(first_invalid(records@, i as int));
            return Err(Error::ImportError { entry: i, reason: ImportReason::InvalidRecord });
        }
        i += 1;
    }
    Ok(())
}

/// Replaces the store by the records of an export, if every one of them is
/// valid. Where one is not, the import fails with an `ImportError` that
/// names the first such record, and the store stays as it is: no record of
/// the export reaches it.
pub fn import_into(store: &mut Vec<OTPElement>, records: Vec<OTPElement>) -> (r: Result<(), Error>)
    ensures
        match r {
            Ok(_) => all_valid(records@) && final(store)@ == records@,
            Err(e) => {
                &&& final(store)@ == old(store)@
                &&& exists|entry: usize|
                    e == (Error::ImportError { entry, reason: ImportReason::InvalidRecord })
                    && first_invalid(records@, entry as int)
            },
        },
{
    match check_import(&records) {
        Ok(_) => {
            *store = records;
            Ok(())
        },
        Err(e) => Err(e),
    }
}

/// An import fails exactly where some record of the export is not valid, and
/// the record that the error names is determined by the export.
pub proof fn first_invalid_is_unique(records: Seq<OTPElement>, a: int, b: int)
    requires
        first_invalid(records, a),
        first_invalid(records, b),
    ensures
        a == b,
        !all_valid(records),
{
    if a < b {
        assert(valid_record(records[a]@));
    }
    if b < a {
        assert(valid_record(records[b]@));
    }
}

} // verus!

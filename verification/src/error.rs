//! The errors that the library returns.

use vstd::prelude::*;

verus! {

/// Why an entry of a foreign export could not be taken over.
#[derive(Clone, Copy, Debug, PartialEq, Eq, Structural)]
pub enum ImportReason {
    /// The entry, or the export as a whole, is not in the layout of its
    /// format.
    Malformed,
    /// The export does not open under the password, or was altered.
    Undecryptable,
    /// The entry was read, but the record it gives is not valid.
    InvalidRecord,
}

/// Why an operation of the library failed.
#[derive(Clone, Copy, Debug, PartialEq, Eq, Structural)]
pub enum Error {
    /// The file is missing, unreadable or unwritable.
    IoError,
    /// The authentication tag did not verify: wrong password or altered data.
    AuthenticationFailure,
    /// The machine does not give what the operation needs: the memory of a
    /// key derivation, or the instructions of a cipher.
    Unavailable,
    /// The data decrypted, but is not in the expected layout.
    Corrupt,
    /// A field of a record breaks the record's rules.
    ValidationError,
    /// A position outside of `1..=length`.
    BadIndex,
    /// An entry of a foreign export could not be taken over; `entry` is its
    /// position in the source, counted from zero (zero too where the export
    /// fails as a whole).
    ImportError { entry: usize, reason: ImportReason },
}

} // verus!

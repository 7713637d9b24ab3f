//! The store: an ordered list of records, addressed by position from 1.

use vstd::prelude::*;
use vstd::string::*;
use crate::error::Error;
use crate::otp::{code_of, current_code};
use crate::record::{edited, valid_record, Mode, OTPElement, OTPElementView};
use crate::text::{decimal, from_chars, to_decimal};

verus! {

/// Whether `position` names a record of a store of `len` records.
pub open spec fn in_store(position: usize, len: nat) -> bool {
    1 <= position <= len
}

/// Appends a record, if it is valid. An invalid record is refused with
/// `ValidationError` and the store stays as it is.
pub fn add_element(elements: &mut Vec<OTPElement>, record: OTPElement) -> (r: Result<(), Error>)
    ensures
        match r {
            Ok(_) => valid_record(record@) && final(elements)@ == old(elements)@.push(record),
            Err(e) => !valid_record(record@) && e == Error::ValidationError && final(elements)@
                == old(elements)@,
        },
{
    match record.validate() {
        Ok(_) => {
            elements.push(record);
            Ok(())
        },
        Err(_) => Err(Error::ValidationError),
    }
}

/// Removes the record at a position, counted from 1; the records behind it
/// move up by one. A position outside of the store is refused with
/// `BadIndex` and the store stays as it is.
pub fn remove_element(elements: &mut Vec<OTPElement>, position: usize) -> (r: Result<(), Error>)
    ensures
        match r {
            Ok(_) => {
                &&& in_store(position, old(elements)@.len())
                &&& final(elements)@ == old(elements)@.remove(position - 1)
            },
            Err(e) => {
                &&& !in_store(position, old(elements)@.len())
                &&& e == Error::BadIndex
                &&& final(elements)@ == old(elements)@
            },
        },
{
    if position == 0 || position > elements.len() {
        return Err(Error::BadIndex);
    }
    let _ = elements.remove(position - 1);
    Ok(())
}

/// Removes the record at a position, counted from 1, and tells whether the
/// position named a record.
pub fn remove_element_from_db(elements: &mut Vec<OTPElement>, id: usize) -> (r: bool)
    ensures
        r == in_store(id, old(elements)@.len()),
        r ==> final(elements)@ == old(elements)@.remove(id - 1),
        !r ==> final(elements)@ == old(elements)@,
{
    remove_element(elements, id).is_ok()
}

/// Edits the record at a position, counted from 1. The empty text and the
/// number zero leave a field unchanged. A position outside of the store is
/// refused with `BadIndex` and the store stays as it is.
pub fn edit_element(
    elements: &mut Vec<OTPElement>,
    position: usize,
    secret: &str,
    issuer: &str,
    label: &str,
    algorithm: &str,
    digits: u64,
    counter: u64,
) -> (r: Result<(), Error>)
    ensures
        match r {
            Ok(_) => {
                &&& in_store(position, old(elements)@.len())
                &&& final(elements)@.len() == old(elements)@.len()
                &&& final(elements)@[position - 1]@ == edited(
                    old(elements)@[position - 1]@,
                    secret@,
                    issuer@,
                    label@,
                    algorithm@,
                    digits,
                    counter,
                )
                &&& forall|j: int|
                    0 <= j < old(elements)@.len() && j != position - 1 ==> final(elements)@[j]
                        == old(elements)@[j]
            },
            Err(e) => {
                &&& !in_store(position, old(elements)@.len())
                &&& e == Error::BadIndex
                &&& final(elements)@ == old(elements)@
            },
        },
{
    if position == 0 || position > elements.len() {
        return Err(Error::BadIndex);
    }
    let mut record = elements.remove(position - 1);
    record.edit(secret, issuer, label, algorithm, digits, counter);
    elements.insert(position - 1, record);
    Ok(())
}

/// The code of the record at a position, counted from 1, at the time `now`.
/// After the code of a counter-based record was made, the record's counter
/// is one higher, so that the caller can write the store back.
///
/// Fails with `BadIndex` for a position outside of the store, and with
/// `ValidationError` for a record that is not valid or a counter that cannot
/// go higher; the store then stays as it is.
pub fn consume_code(elements: &mut Vec<OTPElement>, position: usize, now: u64) -> (r: Result<
    String,
    Error,
>)
    ensures
        match r {
            Ok(code) => {
                let before = old(elements)@[position - 1]@;
                &&& in_store(position, old(elements)@.len())
                &&& valid_record(before)
                &&& code@ == code_of(before, now)
                &&& final(elements)@.len() == old(elements)@.len()
                &&& final(elements)@[position - 1]@ == if before.mode == Mode::Hotp {
                    OTPElementView { counter: (before.counter + 1) as u64, ..before }
                } else {
                    before
                }
                &&& before.mode == Mode::Hotp ==> before.counter < u64::MAX
                &&& forall|j: int|
                    0 <= j < old(elements)@.len() && j != position - 1 ==> final(elements)@[j]
                        == old(elements)@[j]
            },
            Err(e) => {
                &&& final(elements)@ == old(elements)@
                &&& if !in_store(position, old(elements)@.len()) {
                    e == Error::BadIndex
                } else {
                    let before = old(elements)@[position - 1]@;
                    &&& e == Error::ValidationError
                    &&& !valid_record(before) || (before.mode == Mode::Hotp && before.counter
                        == u64::MAX)
                }
            },
        },
{
    if position == 0 || position > elements.len() {
        return Err(Error::BadIndex);
    }
    let is_last_hotp = elements[position - 1].mode() == Mode::Hotp && elements[position
        - 1].counter() == u64::MAX;
    if is_last_hotp {
        return Err(Error::ValidationError);
    }
    match current_code(&elements[position - 1], now) {
        Err(_) => Err(Error::ValidationError),
        Ok(code) => {
            let mut record = elements.remove(position - 1);
            let _ = record.advance_counter();
            elements.insert(position - 1, record);
            Ok(code)
        },
    }
}

/// Checks that an index, counted from 0, names a record of the list. The
/// error is a message for the user: one for an empty list, and otherwise one
/// that names the position, counted from 1.
pub fn check_elements(id: usize, elements: &Vec<OTPElement>) -> (r: Result<(), String>)
    ensures
        match r {
            Ok(_) => id < elements@.len(),
            Err(message) => id >= elements@.len() && message@ == if elements@.len() == 0 {
                "there are no elements in your database. Type \"cotp -h\" to get help."@
            } else {
                decimal((id + 1) as nat) + " is a bad index"@
            },
        },
{
    if elements.len() == 0 {
        return Err(
            String::from_str("there are no elements in your database. Type \"cotp -h\" to get help."),
        );
    }
    if id >= elements.len() {
        let number = to_decimal(id as u128 + 1);
        let mut message = from_chars(number.as_slice());
        message.append(" is a bad index");
        return Err(message);
    }
    Ok(())
}

/// One line of the dashboard: a record's position, counted from 1, what
/// names it, and its current code.
#[derive(Clone, Debug)]
pub struct CodeRow {
    pub index: usize,
    pub issuer: String,
    pub label: String,
    pub otp_code: String,
}

/// Whether `row` is the dashboard line of the record `v` at the position
/// `i`, counted from 0, at the time `now`.
pub open spec fn row_of(row: CodeRow, v: OTPElementView, i: int, now: u64) -> bool {
    &&& row.index == i + 1
    &&& row.issuer@ == v.issuer
    &&& row.label@ == v.label
    &&& row.otp_code@ == code_of(v, now)
}

/// The dashboard at the time `now`: one line per record, in the order of the
/// store. No counter moves. Fails with `ValidationError` exactly where a
/// record of the store is not valid.
pub fn read_codes(elements: &Vec<OTPElement>, now: u64) -> (r: Result<Vec<CodeRow>, Error>)
    ensures
        match r {
            Ok(rows) => {
                &&& rows@.len() == elements@.len()
                &&& forall|i: int|
                    0 <= i < elements@.len() ==> valid_record(#[trigger] elements@[i]@) && row_of(
                        rows@[i],
                        elements@[i]@,
                        i,
                        now,
                    )
            },
            Err(e) => e == Error::ValidationError && exists|i: int|
                0 <= i < elements@.len() && !valid_record(#[trigger] elements@[i]@),
        },
{
    let mut rows: Vec<CodeRow> = Vec::new();
    let mut i: usize = 0;
    while i < elements.len()
        invariant
            i <= elements.len(),
            rows@.len() == i,
            forall|j: int|
                0 <= j < i ==> valid_record(#[trigger] elements@[j]@) && row_of(
                    rows@[j],
                    elements@[j]@,
                    j,
                    now,
                ),
        decreases elements.len() - i,
    {
        match current_code(&elements[i], now) {
            Err(_) => {
                return Err(Error::ValidationError);
            },
            Ok(code) => {
                rows.push(
                    CodeRow {
                        index: i + 1,
                        issuer: elements[i].issuer(),
                        label: elements[i].label(),
                        otp_code: code,
                    },
                );
            },
        }
        i += 1;
    }
    Ok(rows)
}

} // verus!

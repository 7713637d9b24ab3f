//! The record of one managed credential, and what makes a record valid.

use vstd::prelude::*;
use crate::error::Error;
use crate::secret::{decode_key, secret_bytes, strip_padding, without_padding};
use crate::text::{from_chars, same_chars, to_chars};

verus! {

/// The hash function under the HMAC of a code.
#[derive(Clone, Copy, Debug, PartialEq, Eq, Structural)]
pub enum Algorithm {
    Sha1,
    Sha256,
    Sha512,
}

/// How the moving factor of a code is chosen, and how the code is written.
#[derive(Clone, Copy, Debug, PartialEq, Eq, Structural)]
pub enum Mode {
    Totp,
    Hotp,
    Steam,
}

/// One credential: the shared secret and the parameters of its codes.
#[derive(Clone, Debug)]
pub struct OTPElement {
    secret: String,
    label: String,
    algorithm: String,
    issuer: String,
    period: u64,
    digits: u64,
    counter: u64,
    mode: Mode,
}

/// The mathematical value of a record.
pub struct OTPElementView {
    pub secret: Seq<char>,
    pub label: Seq<char>,
    pub algorithm: Seq<char>,
    pub issuer: Seq<char>,
    pub period: u64,
    pub digits: u64,
    pub counter: u64,
    pub mode: Mode,
}

impl View for OTPElement {
    type V = OTPElementView;

    closed spec fn view(&self) -> OTPElementView {
        OTPElementView {
            secret: self.secret@,
            label: self.label@,
            algorithm: self.algorithm@,
            issuer: self.issuer@,
            period: self.period,
            digits: self.digits,
            counter: self.counter,
            mode: self.mode,
        }
    }
}

/// The algorithm that a name stands for, if it is one of the three names.
pub open spec fn algorithm_of(name: Seq<char>) -> Option<Algorithm> {
    if name == seq!['S', 'H', 'A', '1'] {
        Some(Algorithm::Sha1)
    } else if name == seq!['S', 'H', 'A', '2', '5', '6'] {
        Some(Algorithm::Sha256)
    } else if name == seq!['S', 'H', 'A', '5', '1', '2'] {
        Some(Algorithm::Sha512)
    } else {
        None
    }
}

/// The mode that a name stands for, if it is one of the three names.
pub open spec fn mode_named(name: Seq<char>) -> Option<Mode> {
    if name == seq!['T', 'O', 'T', 'P'] {
        Some(Mode::Totp)
    } else if name == seq!['H', 'O', 'T', 'P'] {
        Some(Mode::Hotp)
    } else if name == seq!['S', 'T', 'E', 'A', 'M'] {
        Some(Mode::Steam)
    } else {
        None
    }
}

/// Reads the name of a mode: `TOTP`, `HOTP` or `STEAM`.
pub fn parse_mode(name: &str) -> (r: Option<Mode>)
    ensures
        r == mode_named(name@),
{
    let v = to_chars(name);
    let totp: [char; 4] = ['T', 'O', 'T', 'P'];
    let hotp: [char; 4] = ['H', 'O', 'T', 'P'];
    let steam: [char; 5] = ['S', 'T', 'E', 'A', 'M'];
    assert(totp@ =~= seq!['T', 'O', 'T', 'P']);
    assert(hotp@ =~= seq!['H', 'O', 'T', 'P']);
    assert(steam@ =~= seq!['S', 'T', 'E', 'A', 'M']);
    if same_chars(v.as_slice(), totp.as_slice()) {
        Some(Mode::Totp)
    } else if same_chars(v.as_slice(), hotp.as_slice()) {
        Some(Mode::Hotp)
    } else if same_chars(v.as_slice(), steam.as_slice()) {
        Some(Mode::Steam)
    } else {
        None
    }
}

/// Writes the name of a mode, which `parse_mode` reads back.
pub fn mode_name(mode: Mode) -> (r: String)
    ensures
        mode_named(r@) == Some(mode),
{
    let totp: [char; 4] = ['T', 'O', 'T', 'P'];
    let hotp: [char; 4] = ['H', 'O', 'T', 'P'];
    let steam: [char; 5] = ['S', 'T', 'E', 'A', 'M'];
    assert(totp@ =~= seq!['T', 'O', 'T', 'P']);
    assert(hotp@ =~= seq!['H', 'O', 'T', 'P']);
    assert(steam@ =~= seq!['S', 'T', 'E', 'A', 'M']);
    match mode {
        Mode::Totp => from_chars(totp.as_slice()),
        Mode::Hotp => from_chars(hotp.as_slice()),
        Mode::Steam => from_chars(steam.as_slice()),
    }
}

/// Reads the name of an algorithm: `SHA1`, `SHA256` or `SHA512`.
pub fn parse_algorithm(name: &str) -> (r: Option<Algorithm>)
    ensures
        r == algorithm_of(name@),
{
    let v = to_chars(name);
    let sha1: [char; 4] = ['S', 'H', 'A', '1'];
    let sha256: [char; 6] = ['S', 'H', 'A', '2', '5', '6'];
    let sha512: [char; 6] = ['S', 'H', 'A', '5', '1', '2'];
    assert(sha1@ =~= seq!['S', 'H', 'A', '1']);
    assert(sha256@ =~= seq!['S', 'H', 'A', '2', '5', '6']);
    assert(sha512@ =~= seq!['S', 'H', 'A', '5', '1', '2']);
    if same_chars(v.as_slice(), sha1.as_slice()) {
        Some(Algorithm::Sha1)
    } else if same_chars(v.as_slice(), sha256.as_slice()) {
        Some(Algorithm::Sha256)
    } else if same_chars(v.as_slice(), sha512.as_slice()) {
        Some(Algorithm::Sha512)
    } else {
        None
    }
}

/// What holds of a record that codes can be generated from: the secret
/// decodes to a key, the algorithm is known, the codes have six to eight
/// digits, and a time-based record has a period.
pub open spec fn valid_record(v: OTPElementView) -> bool {
    &&& secret_bytes(v.secret) is Some
    &&& algorithm_of(v.algorithm) is Some
    &&& 6 <= v.digits <= 8
    &&& (v.mode != Mode::Hotp ==> v.period > 0)
}

/// A record after an edit. Each field of the edit overwrites the record's
/// field, unless it is the sentinel that leaves it unchanged: the empty text,
/// or zero for a number.
pub open spec fn edited(
    v: OTPElementView,
    secret: Seq<char>,
    issuer: Seq<char>,
    label: Seq<char>,
    algorithm: Seq<char>,
    digits: u64,
    counter: u64,
) -> OTPElementView {
    OTPElementView {
        secret: if secret.len() == 0 { v.secret } else { secret },
        issuer: if issuer.len() == 0 { v.issuer } else { issuer },
        label: if label.len() == 0 { v.label } else { label },
        algorithm: if algorithm.len() == 0 { v.algorithm } else { algorithm },
        digits: if digits == 0 { v.digits } else { digits },
        counter: if counter == 0 { v.counter } else { counter },
        period: v.period,
        mode: v.mode,
    }
}

/// An edit of the digits alone leaves the secret, the label, the issuer and
/// the algorithm as they were (and the period, the counter and the mode too).
pub proof fn edit_of_digits_keeps_other_fields(v: OTPElementView, digits: u64)
    ensures
        edited(v, Seq::empty(), Seq::empty(), Seq::empty(), Seq::empty(), digits, 0).secret
            == v.secret,
        edited(v, Seq::empty(), Seq::empty(), Seq::empty(), Seq::empty(), digits, 0).label
            == v.label,
        edited(v, Seq::empty(), Seq::empty(), Seq::empty(), Seq::empty(), digits, 0).issuer
            == v.issuer,
        edited(v, Seq::empty(), Seq::empty(), Seq::empty(), Seq::empty(), digits, 0).algorithm
            == v.algorithm,
        edited(v, Seq::empty(), Seq::empty(), Seq::empty(), Seq::empty(), digits, 0) == (
        OTPElementView { digits: if digits == 0 { v.digits } else { digits }, ..v }),
{
}

/// An edit made of sentinels alone changes nothing.
pub proof fn edit_of_sentinels_is_identity(v: OTPElementView)
    ensures
        edited(v, Seq::empty(), Seq::empty(), Seq::empty(), Seq::empty(), 0, 0) == v,
{
}

/// The name of the algorithm of a record whose source names none.
pub open spec fn default_algorithm() -> Seq<char> {
    seq!['S', 'H', 'A', '1']
}

/// The record for what a source gives, with the default for each field that
/// the source leaves out: no issuer, `SHA1`, 6 digits, a period of 30
/// seconds, a counter of 0.
pub open spec fn with_defaults(
    mode: Mode,
    secret: Seq<char>,
    label: Seq<char>,
    issuer: Option<Seq<char>>,
    algorithm: Option<Seq<char>>,
    digits: Option<u64>,
    period: Option<u64>,
    counter: Option<u64>,
) -> OTPElementView {
    OTPElementView {
        secret,
        label,
        issuer: match issuer {
            Some(i) => i,
            None => Seq::empty(),
        },
        algorithm: match algorithm {
            Some(a) => a,
            None => default_algorithm(),
        },
        digits: match digits {
            Some(d) => d,
            None => 6,
        },
        period: match period {
            Some(p) => p,
            None => 30,
        },
        counter: match counter {
            Some(c) => c,
            None => 0,
        },
        mode,
    }
}

/// The view of a text that may be absent.
pub open spec fn text_of(text: Option<String>) -> Option<Seq<char>> {
    match text {
        Some(t) => Some(t@),
        None => None,
    }
}

impl OTPElement {
    /// The record for what a source gives, with the default for each field
    /// that the source leaves out.
    pub fn from_source(
        mode: Mode,
        secret: String,
        label: String,
        issuer: Option<String>,
        algorithm: Option<String>,
        digits: Option<u64>,
        period: Option<u64>,
        counter: Option<u64>,
    ) -> (r: OTPElement)
        ensures
            r@ == with_defaults(
                mode,
                secret@,
                label@,
                text_of(issuer),
                text_of(algorithm),
                digits,
                period,
                counter,
            ),
    {
        let sha1: [char; 4] = ['S', 'H', 'A', '1'];
        assert(sha1@ =~= default_algorithm());
        OTPElement {
            secret,
            label,
            issuer: match issuer {
                Some(i) => i,
                None => String::new(),
            },
            algorithm: match algorithm {
                Some(a) => a,
                None => from_chars(sha1.as_slice()),
            },
            digits: match digits {
                Some(d) => d,
                None => 6,
            },
            period: match period {
                Some(p) => p,
                None => 30,
            },
            counter: match counter {
                Some(c) => c,
                None => 0,
            },
            mode,
        }
    }

    /// A time-based record of six digits with the given fields.
    pub fn new(secret: String, label: String, algorithm: String, issuer: String, period: u64) -> (r:
        OTPElement)
        ensures
            r@ == (OTPElementView {
                secret: secret@,
                label: label@,
                algorithm: algorithm@,
                issuer: issuer@,
                period: period,
                digits: 6,
                counter: 0,
                mode: Mode::Totp,
            }),
    {
        OTPElement { secret, label, algorithm, issuer, period, digits: 6, counter: 0, mode: Mode::Totp }
    }

    /// The same record with the given mode, number of digits and counter.
    pub fn with_mode(self, mode: Mode, digits: u64, counter: u64) -> (r: OTPElement)
        ensures
            r@ == (OTPElementView { mode: mode, digits: digits, counter: counter, ..self@ }),
    {
        OTPElement { mode, digits, counter, ..self }
    }

    /// The secret without its padding characters.
    pub fn secret(&self) -> (r: String)
        ensures
            r@ == without_padding(self@.secret),
    {
        strip_padding(self.secret.as_str())
    }

    /// The label.
    pub fn label(&self) -> (r: String)
        ensures
            r@ == self@.label,
    {
        self.label.clone()
    }

    /// The name of the algorithm.
    pub fn algorithm(&self) -> (r: String)
        ensures
            r@ == self@.algorithm,
    {
        self.algorithm.clone()
    }

    /// The issuer.
    pub fn issuer(&self) -> (r: String)
        ensures
            r@ == self@.issuer,
    {
        self.issuer.clone()
    }

    /// The seconds per step of a time-based record.
    pub fn period(&self) -> (r: u64)
        ensures
            r == self@.period,
    {
        self.period
    }

    /// The number of digits of a code.
    pub fn digits(&self) -> (r: u64)
        ensures
            r == self@.digits,
    {
        self.digits
    }

    /// The counter of a counter-based record.
    pub fn counter(&self) -> (r: u64)
        ensures
            r == self@.counter,
    {
        self.counter
    }

    /// The mode.
    pub fn mode(&self) -> (r: Mode)
        ensures
            r == self@.mode,
    {
        self.mode
    }

    /// Checks the record against the rules of a valid record.
    pub fn validate(&self) -> (r: Result<(), Error>)
        ensures
            r is Ok <==> valid_record(self@),
            r is Err ==> r == Err::<(), Error>(Error::ValidationError),
    {
        if self.digits < 6 || self.digits > 8 {
            return Err(Error::ValidationError);
        }
        if self.period == 0 && self.mode != Mode::Hotp {
            return Err(Error::ValidationError);
        }
        if parse_algorithm(self.algorithm.as_str()).is_none() {
            return Err(Error::ValidationError);
        }
        let stripped = self.secret();
        match decode_key(stripped.as_str()) {
            Some(key) => {
                let mut key = key;
                key.wipe();
                Ok(())
            },
            None => Err(Error::ValidationError),
        }
    }

    /// A copy of the record.
    pub fn duplicate(&self) -> (r: OTPElement)
        ensures
            r@ == self@,
    {
        OTPElement {
            secret: self.secret.clone(),
            label: self.label.clone(),
            algorithm: self.algorithm.clone(),
            issuer: self.issuer.clone(),
            period: self.period,
            digits: self.digits,
            counter: self.counter,
            mode: self.mode,
        }
    }

    /// Overwrites the fields for which the edit holds a value; the empty text
    /// and the number zero leave a field unchanged.
    pub fn edit(
        &mut self,
        secret: &str,
        issuer: &str,
        label: &str,
        algorithm: &str,
        digits: u64,
        counter: u64,
    )
        ensures
            final(self)@ == edited(old(self)@, secret@, issuer@, label@, algorithm@, digits, counter),
    {
        if !secret.is_empty() {
            self.secret = secret.to_owned();
        }
        if !issuer.is_empty() {
            self.issuer = issuer.to_owned();
        }
        if !label.is_empty() {
            self.label = label.to_owned();
        }
        if !algorithm.is_empty() {
            self.algorithm = algorithm.to_owned();
        }
        if digits != 0 {
            self.digits = digits;
        }
        if counter != 0 {
            self.counter = counter;
        }
    }

    /// Moves the counter of a counter-based record on by one. Returns whether
    /// it did: a record of another mode, or one whose counter is at its
    /// greatest value, stays as it is.
    pub fn advance_counter(&mut self) -> (r: bool)
        ensures
            r == (old(self)@.mode == Mode::Hotp && old(self)@.counter < u64::MAX),
            r ==> final(self)@ == (OTPElementView {
                counter: (old(self)@.counter + 1) as u64,
                ..old(self)@
            }),
            !r ==> final(self)@ == old(self)@,
    {
        if self.mode == Mode::Hotp && self.counter < u64::MAX {
            self.counter = self.counter + 1;
            true
        } else {
            false
        }
    }
}

} // verus!

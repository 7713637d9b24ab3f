//! The line-oriented export of `otpauth` URIs:
//! `otpauth://totp/issuer:label?secret=..&digits=..`, one record per line.

use vstd::prelude::*;
use vstd::slice::slice_subrange;
use crate::error::{Error, ImportReason};
use crate::record::{valid_record, Mode, OTPElement, OTPElementView};
use crate::text::{
    after, before, first_index, from_chars, parse_number, parsed_number, same_chars,
    split_at_char, to_chars,
};

verus! {

/// The scheme that every line starts with.
pub open spec fn scheme() -> Seq<char> {
    seq!['o', 't', 'p', 'a', 'u', 't', 'h', ':', '/', '/']
}

/// The mode that the authority of a URI selects.
pub open spec fn mode_of(authority: Seq<char>) -> Option<Mode> {
    if authority == seq!['t', 'o', 't', 'p'] {
        Some(Mode::Totp)
    } else if authority == seq!['h', 'o', 't', 'p'] {
        Some(Mode::Hotp)
    } else {
        None
    }
}

/// The key of the parameter `secret`.
pub open spec fn key_secret() -> Seq<char> {
    seq!['s', 'e', 'c', 'r', 'e', 't']
}

/// The key of the parameter `issuer`.
pub open spec fn key_issuer() -> Seq<char> {
    seq!['i', 's', 's', 'u', 'e', 'r']
}

/// The key of the parameter `algorithm`.
pub open spec fn key_algorithm() -> Seq<char> {
    seq!['a', 'l', 'g', 'o', 'r', 'i', 't', 'h', 'm']
}

/// The key of the parameter `digits`.
pub open spec fn key_digits() -> Seq<char> {
    seq!['d', 'i', 'g', 'i', 't', 's']
}

/// The key of the parameter `period`.
pub open spec fn key_period() -> Seq<char> {
    seq!['p', 'e', 'r', 'i', 'o', 'd']
}

/// The key of the parameter `counter`.
pub open spec fn key_counter() -> Seq<char> {
    seq!['c', 'o', 'u', 'n', 't', 'e', 'r']
}

/// The value of a parameter in one `key=value` pair, if the pair has that
/// key.
pub open spec fn pair_value(pair: Seq<char>, key: Seq<char>) -> Option<Seq<char>> {
    if before(pair, '=') == key {
        after(pair, '=')
    } else {
        None
    }
}

/// The value of a parameter in a query of pairs joined by `&`: that of the
/// first pair with the key.
pub open spec fn query_value(query: Seq<char>, key: Seq<char>) -> Option<Seq<char>>
    decreases query.len(),
{
    if pair_value(before(query, '&'), key) is Some {
        pair_value(before(query, '&'), key)
    } else if first_index(query, '&') < query.len() {
        query_value(query.subrange(first_index(query, '&') as int + 1, query.len() as int), key)
    } else {
        None
    }
}

/// A number among the parameters: the default where the key is absent, and
/// nothing where its value is no number.
pub open spec fn number_value_of(query: Seq<char>, key: Seq<char>, default: u64) -> Option<u64> {
    match query_value(query, key) {
        Some(text) => parsed_number(text),
        None => Some(default),
    }
}

/// A text among the parameters, or the default where the key is absent.
pub open spec fn text_value_of(query: Seq<char>, key: Seq<char>, default: Seq<char>) -> Seq<char> {
    match query_value(query, key) {
        Some(text) => text,
        None => default,
    }
}

/// The record that the part of a URI behind its authority describes: the
/// path is the label, or issuer and label around a colon; the query gives
/// the secret, which must be there, and the other fields, each with its
/// default: the issuer of the path, `SHA1`, 6 digits, a period of 30 and a
/// counter of 0.
pub open spec fn record_of(mode: Mode, tail: Seq<char>) -> Option<OTPElementView> {
    let path = before(tail, '?');
    let query = match after(tail, '?') {
        Some(q) => q,
        None => Seq::empty(),
    };
    let path_issuer = if after(path, ':') is Some {
        before(path, ':')
    } else {
        Seq::empty()
    };
    let label = match after(path, ':') {
        Some(l) => l,
        None => path,
    };
    match (
        query_value(query, key_secret()),
        number_value_of(query, key_digits(), 6),
        number_value_of(query, key_period(), 30),
        number_value_of(query, key_counter(), 0),
    ) {
        (Some(secret), Some(digits), Some(period), Some(counter)) => Some(
            OTPElementView {
                secret,
                label,
                issuer: text_value_of(query, key_issuer(), path_issuer),
                algorithm: text_value_of(query, key_algorithm(), seq!['S', 'H', 'A', '1']),
                period,
                digits,
                counter,
                mode,
            },
        ),
        _ => None,
    }
}

/// The record that a line describes, if it is an `otpauth` URI: the scheme,
/// the authority `totp` or `hotp`, a slash, and the rest.
pub open spec fn parsed_uri(line: Seq<char>) -> Option<OTPElementView> {
    if line.len() >= 10 && line.subrange(0, 10) == scheme() {
        let rest = line.subrange(10, line.len() as int);
        match (mode_of(before(rest, '/')), after(rest, '/')) {
            (Some(mode), Some(tail)) => record_of(mode, tail),
            _ => None,
        }
    } else {
        None
    }
}

/// Looks a key up in one pair.
fn find_in_pair<'a>(pair: &'a [char], key: &[char]) -> (r: Option<&'a [char]>)
    ensures
        match r {
            Some(t) => pair_value(pair@, key@) == Some(t@),
            None => pair_value(pair@, key@) is None,
        },
{
    let (name, value) = split_at_char(pair, '=');
    if same_chars(name, key) {
        value
    } else {
        None
    }
}

/// Looks a key up in a query.
pub fn find_param<'a>(query: &'a [char], key: &[char]) -> (r: Option<&'a [char]>)
    ensures
        match r {
            Some(t) => query_value(query@, key@) == Some(t@),
            None => query_value(query@, key@) is None,
        },
{
    let mut cur: &[char] = query;
    loop
        invariant
            query_value(query@, key@) == query_value(cur@, key@),
        decreases cur@.len(),
    {
        let (pair, rest) = split_at_char(cur, '&');
        let found = find_in_pair(pair, key);
        if found.is_some() {
            return found;
        }
        match rest {
            Some(r) => {
                cur = r;
            },
            None => {
                return None;
            },
        }
    }
}

/// Reads a number among the parameters.
fn number_param(query: &[char], key: &[char], default: u64) -> (r: Option<u64>)
    ensures
        r == number_value_of(query@, key@, default),
{
    match find_param(query, key) {
        Some(text) => parse_number(text),
        None => Some(default),
    }
}

/// Reads a text among the parameters.
fn text_param(query: &[char], key: &[char], default: &[char]) -> (r: String)
    ensures
        r@ == text_value_of(query@, key@, default@),
{
    match find_param(query, key) {
        Some(text) => from_chars(text),
        None => from_chars(default),
    }
}

/// Reads the part of a URI behind its authority.
fn parse_tail(mode: Mode, tail: &[char]) -> (r: Option<OTPElement>)
    ensures
        match r {
            Some(e) => record_of(mode, tail@) == Some(e@),
            None => record_of(mode, tail@) is None,
        },
{
    let empty: [char; 0] = [];
    let sha1: [char; 4] = ['S', 'H', 'A', '1'];
    let k_secret: [char; 6] = ['s', 'e', 'c', 'r', 'e', 't'];
    let k_issuer: [char; 6] = ['i', 's', 's', 'u', 'e', 'r'];
    let k_algorithm: [char; 9] = ['a', 'l', 'g', 'o', 'r', 'i', 't', 'h', 'm'];
    let k_digits: [char; 6] = ['d', 'i', 'g', 'i', 't', 's'];
    let k_period: [char; 6] = ['p', 'e', 'r', 'i', 'o', 'd'];
    let k_counter: [char; 7] = ['c', 'o', 'u', 'n', 't', 'e', 'r'];
    proof {
        assert(empty@ =~= Seq::<char>::empty());
        assert(sha1@ =~= seq!['S', 'H', 'A', '1']);
        assert(k_secret@ =~= key_secret());
        assert(k_issuer@ =~= key_issuer());
        assert(k_algorithm@ =~= key_algorithm());
        assert(k_digits@ =~= key_digits());
        assert(k_period@ =~= key_period());
        assert(k_counter@ =~= key_counter());
    }
    let (path, query_part) = split_at_char(tail, '?');
    let query: &[char] = match query_part {
        Some(q) => q,
        None => empty.as_slice(),
    };
    let (head, label_part) = split_at_char(path, ':');
    let (path_issuer, label): (&[char], &[char]) = match label_part {
        Some(l) => (head, l),
        None => (empty.as_slice(), path),
    };
    let secret = match find_param(query, k_secret.as_slice()) {
        Some(s) => from_chars(s),
        None => {
            return None;
        },
    };
    let digits = match number_param(query, k_digits.as_slice(), 6) {
        Some(n) => n,
        None => {
            return None;
        },
    };
    let period = match number_param(query, k_period.as_slice(), 30) {
        Some(n) => n,
        None => {
            return None;
        },
    };
    let counter = match number_param(query, k_counter.as_slice(), 0) {
        Some(n) => n,
        None => {
            return None;
        },
    };
    let issuer = text_param(query, k_issuer.as_slice(), path_issuer);
    let algorithm = text_param(query, k_algorithm.as_slice(), sha1.as_slice());
    let record = OTPElement::new(secret, from_chars(label), algorithm, issuer, period);
    Some(record.with_mode(mode, digits, counter))
}

/// Reads one line as an `otpauth` URI.
pub fn parse_uri(line: &str) -> (r: Option<OTPElement>)
    ensures
        match r {
            Some(e) => parsed_uri(line@) == Some(e@),
            None => parsed_uri(line@) is None,
        },
{
    let chars = to_chars(line);
    let prefix: [char; 10] = ['o', 't', 'p', 'a', 'u', 't', 'h', ':', '/', '/'];
    let totp: [char; 4] = ['t', 'o', 't', 'p'];
    let hotp: [char; 4] = ['h', 'o', 't', 'p'];
    proof {
        assert(prefix@ =~= scheme());
        assert(totp@ =~= seq!['t', 'o', 't', 'p']);
        assert(hotp@ =~= seq!['h', 'o', 't', 'p']);
    }
    if chars.len() < 10 {
        return None;
    }
    if !same_chars(slice_subrange(chars.as_slice(), 0, 10), prefix.as_slice()) {
        return None;
    }
    let rest = slice_subrange(chars.as_slice(), 10, chars.len());
    let (authority, tail_part) = split_at_char(rest, '/');
    let mode = if same_chars(authority, totp.as_slice()) {
        Mode::Totp
    } else if same_chars(authority, hotp.as_slice()) {
        Mode::Hotp
    } else {
        return None;
    };
    match tail_part {
        Some(tail) => parse_tail(mode, tail),
        None => None,
    }
}

/// Whether a line gives a record, and a valid one.
pub open spec fn line_imports(line: Seq<char>) -> bool {
    parsed_uri(line) is Some && valid_record(parsed_uri(line)->0)
}

/// Why a line that does not import is refused: it is no URI of the scheme,
/// or the record that it gives is not valid.
pub open spec fn refusal_of(line: Seq<char>) -> ImportReason {
    if parsed_uri(line) is None {
        ImportReason::Malformed
    } else {
        ImportReason::InvalidRecord
    }
}

/// Decodes an export of URIs, one per line. Every line must give a valid
/// record: the first that does not fails the whole export with an
/// `ImportError` that names it, and no record comes back.
pub fn decode_uris(lines: &Vec<String>) -> (r: Result<Vec<OTPElement>, Error>)
    ensures
        match r {
            Ok(records) => {
                &&& records@.len() == lines@.len()
                &&& forall|i: int|
                    0 <= i < lines@.len() ==> line_imports(#[trigger] lines@[i]@) && parsed_uri(
                        lines@[i]@,
                    ) == Some(records@[i]@)
            },
            Err(e) => exists|entry: usize|
                {
                    &&& entry < lines@.len()
                    &&& e == (Error::ImportError {
                        entry,
                        reason: refusal_of(lines@[entry as int]@),
                    })
                    &&& !line_imports(lines@[entry as int]@)
                    &&& forall|i: int| 0 <= i < entry ==> line_imports(#[trigger] lines@[i]@)
                },
        },
{
    let mut records: Vec<OTPElement> = Vec::new();
    let mut i: usize = 0;
    while i < lines.len()
        invariant
            i <= lines.len(),
            records@.len() == i,
            forall|j: int|
                0 <= j < i ==> line_imports(#[trigger] lines@[j]@) && parsed_uri(lines@[j]@)
                    == Some(records@[j]@),
        decreases lines.len() - i,
    {
        match parse_uri(lines[i].as_str()) {
            None => {
                return Err(Error::ImportError { entry: i, reason: ImportReason::Malformed });
            },
            Some(record) => {
                if record.validate().is_err() {
                    return Err(
                        Error::ImportError { entry: i, reason: ImportReason::InvalidRecord },
                    );
                }
                records.push(record);
            },
        }
        i += 1;
    }
    Ok(records)
}

/// The lines of a text: its parts between line feeds, the empty ones left
/// out.
pub open spec fn lines_of(text: Seq<char>) -> Seq<Seq<char>>
    decreases text.len(),
{
    let first = if before(text, '\n').len() == 0 {
        Seq::<Seq<char>>::empty()
    } else {
        seq![before(text, '\n')]
    };
    if first_index(text, '\n') < text.len() {
        first + lines_of(text.subrange(first_index(text, '\n') as int + 1, text.len() as int))
    } else {
        first
    }
}

/// The views of a list of strings.
pub open spec fn texts(lines: Seq<String>) -> Seq<Seq<char>> {
    Seq::new(lines.len(), |i: int| lines[i]@)
}

/// Splits a text into its lines and leaves the empty ones out.
pub fn split_lines(text: &str) -> (r: Vec<String>)
    ensures
        texts(r@) == lines_of(text@),
{
    let chars = to_chars(text);
    let mut lines: Vec<String> = Vec::new();
    let mut cur: &[char] = chars.as_slice();
    loop
        invariant
            lines_of(text@) == texts(lines@) + lines_of(cur@),
        decreases cur@.len(),
    {
        let ghost before_lines = lines@;
        let (line, rest) = split_at_char(cur, '\n');
        if line.len() > 0 {
            lines.push(from_chars(line));
            proof {
                assert(texts(lines@) =~= texts(before_lines) + seq![line@]);
            }
        }
        match rest {
            Some(r) => {
                proof {
                    let first = if line@.len() == 0 {
                        Seq::<Seq<char>>::empty()
                    } else {
                        seq![line@]
                    };
                    assert(lines_of(cur@) == first + lines_of(r@));
                    assert(texts(lines@) =~= texts(before_lines) + first);
                    assert(texts(before_lines) + (first + lines_of(r@)) =~= (texts(before_lines)
                        + first) + lines_of(r@));
                }
                cur = r;
            },
            None => {
                proof {
                    let first = if line@.len() == 0 {
                        Seq::<Seq<char>>::empty()
                    } else {
                        seq![line@]
                    };
                    assert(lines_of(cur@) == first);
                    assert(texts(lines@) =~= texts(before_lines) + first);
                }
                return lines;
            },
        }
    }
}

/// Decodes the text of an export of URIs: its lines, the empty ones left
/// out, each of which must give a valid record.
pub fn decode_uri_text(text: &str) -> (r: Result<Vec<OTPElement>, Error>)
    ensures
        match r {
            Ok(records) => {
                &&& records@.len() == lines_of(text@).len()
                &&& forall|i: int|
                    0 <= i < records@.len() ==> line_imports(#[trigger] lines_of(text@)[i])
                        && parsed_uri(lines_of(text@)[i]) == Some(records@[i]@)
            },
            Err(e) => exists|entry: usize|
                {
                    &&& entry < lines_of(text@).len()
                    &&& e == (Error::ImportError {
                        entry,
                        reason: refusal_of(lines_of(text@)[entry as int]),
                    })
                    &&& !line_imports(lines_of(text@)[entry as int])
                    &&& forall|i: int|
                        0 <= i < entry ==> line_imports(#[trigger] lines_of(text@)[i])
                },
        },
{
    let lines = split_lines(text);
    let r = decode_uris(&lines);
    proof {
        let all = lines_of(text@);
        assert(all.len() == lines@.len());
        assert forall|i: int| 0 <= i < lines@.len() implies #[trigger] all[i] == lines@[i]@ by {
            assert(texts(lines@)[i] == lines@[i]@);
        }
        match &r {
            Ok(records) => {
                assert forall|i: int| 0 <= i < records@.len() implies line_imports(
                    #[trigger] all[i],
                ) && parsed_uri(all[i]) == Some(records@[i]@) by {
                    assert(line_imports(lines@[i]@));
                }
            },
            Err(e) => {
                let entry = choose|entry: usize|
                    {
                        &&& entry < lines@.len()
                        &&& *e == (Error::ImportError {
                            entry,
                            reason: refusal_of(lines@[entry as int]@),
                        })
                        &&& !line_imports(lines@[entry as int]@)
                        &&& forall|i: int| 0 <= i < entry ==> line_imports(#[trigger] lines@[i]@)
                    };
                assert(all[entry as int] == lines@[entry as int]@);
                assert forall|i: int| 0 <= i < entry implies line_imports(#[trigger] all[i]) by {
                    assert(line_imports(lines@[i]@));
                }
            },
        }
    }
    r
}

} // verus!

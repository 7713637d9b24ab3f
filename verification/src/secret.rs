//! The shared secret of a record: its text form and the key that it encodes.

use vstd::prelude::*;
use crate::text::{from_chars, to_chars};

verus! {

/// The text without its padding characters `=`, the rest in order.
pub open spec fn without_padding(s: Seq<char>) -> Seq<char>
    decreases s.len(),
{
    if s.len() == 0 {
        Seq::empty()
    } else if s.last() == '=' {
        without_padding(s.drop_last())
    } else {
        without_padding(s.drop_last()).push(s.last())
    }
}

/// Copies the characters of `s` that are not `=`.
pub fn strip_padding(s: &str) -> (r: String)
    ensures
        r@ == without_padding(s@),
{
    let v = to_chars(s);
    let mut out: Vec<char> = Vec::new();
    let mut i: usize = 0;
    while i < v.len()
        invariant
            i <= v.len(),
            out@ == without_padding(v@.subrange(0, i as int)),
        decreases v.len() - i,
    {
        proof {
            assert(v@.subrange(0, i + 1).drop_last() =~= v@.subrange(0, i as int));
        }
        if v[i] != '=' {
            out.push(v[i]);
        }
        i += 1;
    }
    assert(v@.subrange(0, v.len() as int) =~= v@);
    from_chars(out.as_slice())
}

/// What unpadded base32 (alphabet `A`-`Z`, `2`-`7`) decodes the symbols to,
/// or `None` where they are no such encoding.
pub uninterp spec fn base32_nopad(symbols: Seq<u8>) -> Option<Seq<u8>>;

/// Decodes unpadded base32.
///
/// Trusted: calls `data_encoding::BASE32_NOPAD.decode`, a function of its
/// input alone. The contract names its result and claims nothing else. The
/// bound on the length is the one that the decoder asserts.
#[verifier::external_body]
fn base32_decode(symbols: &[u8]) -> (r: Option<Vec<u8>>)
    requires
        symbols@.len() <= usize::MAX / 8,
    ensures
        match r {
            Some(v) => base32_nopad(symbols@) == Some(v@),
            None => base32_nopad(symbols@) is None,
        },
{
    data_encoding::BASE32_NOPAD.decode(symbols).ok()
}

/// Overwrites a buffer with zeroes and empties it.
///
/// Trusted: calls `zeroize::Zeroize::zeroize` on a `Vec<u8>`, which zeroes
/// the elements and then clears the vector.
#[verifier::external_body]
pub(crate) fn wipe(buffer: &mut Vec<u8>)
    ensures
        final(buffer)@ == Seq::<u8>::empty(),
{
    zeroize::Zeroize::zeroize(buffer);
}

/// Bytes that must not stay in memory: a key, a password, a plaintext. Who
/// holds them wipes them when done.
pub struct SecretBytes {
    bytes: Vec<u8>,
}

impl View for SecretBytes {
    type V = Seq<u8>;

    closed spec fn view(&self) -> Seq<u8> {
        self.bytes@
    }
}

impl SecretBytes {
    /// Takes the bytes over.
    pub fn new(bytes: Vec<u8>) -> (r: SecretBytes)
        ensures
            r@ == bytes@,
    {
        SecretBytes { bytes }
    }

    /// The bytes.
    pub fn as_slice(&self) -> (r: &[u8])
        ensures
            r@ == self@,
    {
        self.bytes.as_slice()
    }

    /// How many bytes are held.
    pub fn len(&self) -> (r: usize)
        ensures
            r == self@.len(),
    {
        self.bytes.len()
    }

    /// Overwrites the bytes with zeroes; none is held afterwards.
    pub fn wipe(&mut self)
        ensures
            final(self)@ == Seq::<u8>::empty(),
    {
        wipe(&mut self.bytes);
    }
}

/// Whether every character is in the ASCII range.
pub open spec fn is_ascii_text(s: Seq<char>) -> bool {
    forall|i: int| 0 <= i < s.len() ==> (#[trigger] s[i] as u32) < 128
}

/// The characters as bytes, one for one.
pub open spec fn ascii_bytes(s: Seq<char>) -> Seq<u8> {
    Seq::new(s.len(), |i: int| s[i] as u8)
}

/// The key that a secret without padding encodes: its base32 decoding, where
/// the text is ASCII, short enough to decode and decodes to at least one byte.
pub open spec fn key_of(stripped: Seq<char>) -> Option<Seq<u8>> {
    if !is_ascii_text(stripped) || stripped.len() > usize::MAX / 8 {
        None
    } else {
        match base32_nopad(ascii_bytes(stripped)) {
            Some(key) => if key.len() > 0 {
                Some(key)
            } else {
                None
            },
            None => None,
        }
    }
}

/// The key that a stored secret encodes, padding ignored.
pub open spec fn secret_bytes(secret: Seq<char>) -> Option<Seq<u8>> {
    key_of(without_padding(secret))
}

/// The bytes of an ASCII text, or `None` where a character is not ASCII.
pub fn to_ascii(s: &str) -> (r: Option<Vec<u8>>)
    ensures
        match r {
            Some(b) => is_ascii_text(s@) && b@ == ascii_bytes(s@),
            None => !is_ascii_text(s@),
        },
{
    let v = to_chars(s);
    let mut out: Vec<u8> = Vec::new();
    let mut i: usize = 0;
    while i < v.len()
        invariant
            i <= v.len(),
            v@ == s@,
            out@.len() == i,
            forall|j: int| 0 <= j < i ==> (#[trigger] v@[j] as u32) < 128,
            forall|j: int| 0 <= j < i ==> #[trigger] out@[j] == v@[j] as u8,
        decreases v.len() - i,
    {
        let c: char = v[i];
        if c as u32 >= 128 {
            return None;
        }
        out.push(c as u8);
        i += 1;
    }
    assert(out@ =~= ascii_bytes(s@));
    Some(out)
}

/// Decodes a secret whose padding was stripped.
pub fn decode_key(stripped: &str) -> (r: Option<SecretBytes>)
    ensures
        match r {
            Some(key) => key_of(stripped@) == Some(key@),
            None => key_of(stripped@) is None,
        },
{
    match to_ascii(stripped) {
        None => None,
        Some(symbols) => {
            if symbols.len() > usize::MAX / 8 {
                return None;
            }
            match base32_decode(symbols.as_slice()) {
                None => None,
                Some(key) => {
                    if key.len() > 0 {
                        Some(SecretBytes::new(key))
                    } else {
                        None
                    }
                },
            }
        },
    }
}

} // verus!

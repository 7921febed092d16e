//! Counted UTF-16 strings as the kernel hands them out, and their
//! conversion to text.

use crate::bytes::{in_bounds, le_u16, le_u64, read_u16, read_u64};
use crate::errors::CoreError;
use vstd::prelude::*;
use vstd::slice::slice_subrange;

verus! {

/// The longest path, in UTF-16 code units, that a counted string may
/// hold.
pub const MAX_PATH_UNITS: usize = 32768;

/// The bytes that a counted-string header takes in a snapshot: the byte
/// length, the capacity, four bytes of padding and the buffer's address.
pub const UNICODE_STRING_SIZE: usize = 16;

/// The text that a lossy UTF-16 decoding gives for these code units: each
/// unpaired surrogate becomes U+FFFD, everything else is decoded as it
/// stands.
pub uninterp spec fn utf16_lossy_text(units: Seq<u16>) -> Seq<char>;

/// Calls `String::from_utf16_lossy`. The result is the lossy decoding of
/// exactly the units given; what that text is, unit by unit, is left to
/// the standard library.
#[verifier::external_body]
pub(crate) fn utf16_lossy(units: &[u16]) -> (text: String)
    ensures
        text@ == utf16_lossy_text(units@),
{
    String::from_utf16_lossy(units)
}

/// A counted UTF-16 string read out of a snapshot: the byte length and
/// capacity from its header, and the code units found at its buffer
/// address. `buffer` is `None` where the address was null or pointed
/// outside the snapshot.
#[derive(Debug)]
pub struct UnicodeString {
    pub length: u16,
    pub maximum_length: u16,
    pub buffer: Option<Vec<u16>>,
}

/// Conversion of a kernel string to text.
pub trait ToString {
    /// The text of `self`, or the empty string where it has none.
    fn to_string(&self) -> String;
}

/// The text of a counted string with byte length `length` whose buffer
/// holds `buffer`, or `MalformedName` for a missing buffer, an odd
/// length, a length beyond the longest path, or a buffer shorter than the
/// length.
pub open spec fn decoded_text(length: u16, buffer: Option<Seq<u16>>) -> Result<
    Seq<char>,
    CoreError,
> {
    match buffer {
        None => Err(CoreError::MalformedName),
        Some(units) => if length % 2 != 0 || length / 2 > MAX_PATH_UNITS || units.len() < length
            / 2 {
            Err(CoreError::MalformedName)
        } else {
            Ok(utf16_lossy_text(units.subrange(0, (length / 2) as int)))
        },
    }
}

/// `count` code units read from byte offset `at` on.
pub open spec fn units_at(buf: Seq<u8>, at: int, count: int) -> Seq<u16> {
    Seq::new(count as nat, |i: int| le_u16(buf, at + 2 * i) as u16)
}

/// The code units that `pointer` leads to, for a string of `length`
/// bytes, in a snapshot that starts at address `base`: nothing for a null
/// pointer or one whose units do not all lie inside the snapshot.
pub open spec fn pointee(buf: Seq<u8>, base: int, pointer: int, length: int) -> Option<Seq<u16>> {
    if pointer == 0 || pointer < base || pointer - base + 2 * (length / 2) > buf.len() {
        None
    } else {
        Some(units_at(buf, pointer - base, length / 2))
    }
}

impl UnicodeString {
    /// The code units of the buffer, if there is one.
    pub open spec fn units(self) -> Option<Seq<u16>> {
        match self.buffer {
            Some(v) => Some(v@),
            None => None,
        }
    }

    /// What `decode` gives for this string.
    pub open spec fn decoded(self) -> Result<Seq<char>, CoreError> {
        decoded_text(self.length, self.units())
    }

    /// The text of the string. A string that cannot be trusted (no buffer,
    /// an odd byte length, too long, or fewer units than announced) is
    /// reported as `MalformedName`.
    pub fn decode(&self) -> (r: Result<String, CoreError>)
        ensures
            match r {
                Ok(text) => self.decoded() == Ok::<Seq<char>, CoreError>(text@),
                Err(e) => self.decoded() == Err::<Seq<char>, CoreError>(e),
            },
    {
        match &self.buffer {
            None => Err(CoreError::MalformedName),
            Some(units) => {
                if self.length % 2 != 0 {
                    return Err(CoreError::MalformedName);
                }
                let char_count: usize = (self.length / 2) as usize;
                if char_count > MAX_PATH_UNITS || units.len() < char_count {
                    return Err(CoreError::MalformedName);
                }
                Ok(utf16_lossy(slice_subrange(units.as_slice(), 0, char_count)))
            },
        }
    }
}

impl ToString for UnicodeString {
    /// The text of the string, and the empty string where `decode` fails.
    fn to_string(&self) -> (text: String)
        ensures
            text@ == text_or_empty(self.decoded()),
    {
        match self.decode() {
            Ok(text) => text,
            Err(_) => String::new(),
        }
    }
}

/// The decoded text, or the empty text in place of a failure.
pub open spec fn text_or_empty(decoded: Result<Seq<char>, CoreError>) -> Seq<char> {
    match decoded {
        Ok(text) => text,
        Err(_) => Seq::empty(),
    }
}

/// A counted-string header lies at `at` in full.
pub open spec fn has_unicode_string(buf: Seq<u8>, at: int) -> bool {
    in_bounds(buf.len() as int, at, UNICODE_STRING_SIZE as int)
}

/// Reads the counted string whose header stands at byte offset `at` of a
/// snapshot that was filled at address `base`. The header's buffer
/// address is followed only inside the snapshot. Gives nothing if the
/// header itself does not fit.
pub fn read_unicode_string(buffer: &[u8], base: u64, at: usize) -> (r: Option<UnicodeString>)
    ensures
        !has_unicode_string(buffer@, at as int) ==> r is None,
        has_unicode_string(buffer@, at as int) ==> r is Some && r->0.length == le_u16(
            buffer@,
            at as int,
        ) && r->0.maximum_length == le_u16(buffer@, at + 2) && r->0.units() == pointee(
            buffer@,
            base as int,
            le_u64(buffer@, at + 8),
            le_u16(buffer@, at as int),
        ),
{
    let len: usize = buffer.len();
    if at > len || len - at < UNICODE_STRING_SIZE {
        return None;
    }
    let length: u16 = match read_u16(buffer, at) {
        Some(v) => v,
        None => { return None; },
    };
    let maximum_length: u16 = match read_u16(buffer, at + 2) {
        Some(v) => v,
        None => { return None; },
    };
    let pointer: u64 = match read_u64(buffer, at + 8) {
        Some(v) => v,
        None => { return None; },
    };
    let count: usize = (length / 2) as usize;
    if pointer == 0 || pointer < base || pointer - base > len as u64 {
        return Some(UnicodeString { length, maximum_length, buffer: None });
    }
    let start: usize = (pointer - base) as usize;
    if len - start < 2 * count {
        return Some(UnicodeString { length, maximum_length, buffer: None });
    }
    let mut units: Vec<u16> = Vec::new();
    let mut i: usize = 0;
    while i < count
        invariant
            i <= count,
            count <= 32767,
            start + 2 * count <= len,
            len == buffer@.len(),
            units@ == units_at(buffer@, start as int, i as int),
        decreases count - i,
    {
        let unit: u16 = match read_u16(buffer, start + 2 * i) {
            Some(v) => v,
            None => { return None; },
        };
        units.push(unit);
        assert(units@ =~= units_at(buffer@, start as int, i + 1));
        i += 1;
    }
    Some(UnicodeString { length, maximum_length, buffer: Some(units) })
}

} // verus!

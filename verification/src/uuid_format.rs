//! The canonical textual UUID format and its parser.
//!
//! A canonical UUID string is 36 characters long: five groups of
//! hexadecimal digits of lengths 8, 4, 4, 4 and 12, separated by hyphens
//! at positions 8, 13, 18 and 23.  Digits may be upper or lower case; no
//! surrounding whitespace is tolerated.

use vstd::prelude::*;

verus! {

/// Character codes: '0'..'9' are 48..57, 'a'..'f' are 97..102,
/// 'A'..'F' are 65..70.
pub open spec fn is_hex_digit(c: char) -> bool {
    ||| 48 <= c as u32 <= 57
    ||| 97 <= c as u32 <= 102
    ||| 65 <= c as u32 <= 70
}

/// Numeric value of a hexadecimal digit character.
pub open spec fn hex_digit_value(c: char) -> u8
    recommends
        is_hex_digit(c),
{
    if 48 <= c as u32 <= 57 {
        (c as u32 - 48) as u8
    } else if 97 <= c as u32 <= 102 {
        (c as u32 - 97 + 10) as u8
    } else {
        (c as u32 - 65 + 10) as u8
    }
}

/// The four positions holding the group-separating hyphens.
pub open spec fn is_separator_index(i: int) -> bool {
    i == 8 || i == 13 || i == 18 || i == 23
}

/// What the canonical format demands of the character at position `i`:
/// a hyphen at the separator positions, a hexadecimal digit elsewhere.
pub open spec fn canonical_char_at(s: Seq<char>, i: int) -> bool {
    if is_separator_index(i) {
        s[i] == '-'
    } else {
        is_hex_digit(s[i])
    }
}

/// Whether a character sequence is a canonical UUID string.
pub open spec fn is_canonical_uuid(s: Seq<char>) -> bool {
    &&& s.len() == 36
    &&& forall|i: int| 0 <= i < 36 ==> #[trigger] canonical_char_at(s, i)
}

/// Index of the d-th hexadecimal digit (0 <= d < 32) within the
/// 36-character canonical string, skipping the hyphens.
pub open spec fn digit_index(d: int) -> int {
    if d < 8 {
        d
    } else if d < 12 {
        d + 1
    } else if d < 16 {
        d + 2
    } else if d < 20 {
        d + 3
    } else {
        d + 4
    }
}

/// The j-th byte (0 <= j < 16) encoded by a canonical UUID string:
/// two consecutive hexadecimal digits, most significant first.
pub open spec fn uuid_byte(s: Seq<char>, j: int) -> u8
    recommends
        is_canonical_uuid(s),
        0 <= j < 16,
{
    (hex_digit_value(s[digit_index(2 * j)]) * 16 + hex_digit_value(s[digit_index(2 * j + 1)])) as u8
}

/// The sixteen bytes encoded by a canonical UUID string.
pub open spec fn uuid_bytes(s: Seq<char>) -> Seq<u8>
    recommends
        is_canonical_uuid(s),
{
    Seq::new(16, |j: int| uuid_byte(s, j))
}

fn is_hex_digit_exec(c: char) -> (b: bool)
    ensures
        b == is_hex_digit(c),
{
    let u: u32 = c as u32;
    (48 <= u && u <= 57) || (97 <= u && u <= 102) || (65 <= u && u <= 70)
}

fn hex_digit_value_exec(c: char) -> (v: u8)
    requires
        is_hex_digit(c),
    ensures
        v == hex_digit_value(c),
        v < 16,
{
    let u: u32 = c as u32;
    if u <= 57 {
        (u - 48) as u8
    } else if u >= 97 {
        (u - 97 + 10) as u8
    } else {
        (u - 65 + 10) as u8
    }
}

/// Whether `text` holds a canonical UUID string.
pub fn is_canonical(text: &Vec<char>) -> (b: bool)
    ensures
        b == is_canonical_uuid(text@),
{
    if text.len() != 36 {
        return false;
    }
    let mut i: usize = 0;
    while i < 36
        invariant
            0 <= i <= 36,
            text@.len() == 36,
            forall|k: int| 0 <= k < i ==> #[trigger] canonical_char_at(text@, k),
        decreases 36 - i,
    {
        let c = text[i];
        if i == 8 || i == 13 || i == 18 || i == 23 {
            if c != '-' {
                proof {
                    assert(!canonical_char_at(text@, i as int));
                }
                return false;
            }
        } else {
            if !is_hex_digit_exec(c) {
                proof {
                    assert(!canonical_char_at(text@, i as int));
                }
                return false;
            }
        }
        proof {
            assert(canonical_char_at(text@, i as int));
        }
        i += 1;
    }
    true
}

/// A parsed universally unique identifier: sixteen bytes, viewed as the
/// byte sequence its canonical string encodes.
pub struct UuidValue {
    bytes: Vec<u8>,
}

impl View for UuidValue {
    type V = Seq<u8>;

    closed spec fn view(&self) -> Seq<u8> {
        self.bytes@
    }
}

impl UuidValue {
    /// Number of bytes in the identifier.
    pub fn len(&self) -> (n: usize)
        ensures
            n == self@.len(),
    {
        self.bytes.len()
    }

    /// The i-th byte of the identifier.
    pub fn byte_at(&self, i: usize) -> (b: u8)
        requires
            i < self@.len(),
        ensures
            b == self@[i as int],
    {
        self.bytes[i]
    }

    /// The identifier as a fresh byte vector.
    pub fn to_bytes(&self) -> (r: Vec<u8>)
        ensures
            r@ == self@,
    {
        let mut r: Vec<u8> = Vec::new();
        let mut i: usize = 0;
        while i < self.bytes.len()
            invariant
                0 <= i <= self.bytes@.len(),
                r@ =~= self.bytes@.subrange(0, i as int),
            decreases self.bytes@.len() - i,
        {
            r.push(self.bytes[i]);
            i += 1;
        }
        proof {
            assert(r@ =~= self@);
        }
        r
    }
}

/// Parses a canonical UUID string into its sixteen bytes; returns
/// `None` exactly when `text` is not in the canonical format.
pub fn parse_uuid(text: &Vec<char>) -> (r: Option<UuidValue>)
    ensures
        r is Some <==> is_canonical_uuid(text@),
        r matches Some(v) ==> v@ == uuid_bytes(text@),
{
    if !is_canonical(text) {
        return None;
    }
    let mut bytes: Vec<u8> = Vec::new();
    let mut j: usize = 0;
    while j < 16
        invariant
            0 <= j <= 16,
            is_canonical_uuid(text@),
            bytes@.len() == j,
            forall|k: int| 0 <= k < j ==> #[trigger] bytes@[k] == uuid_byte(text@, k),
        decreases 16 - j,
    {
        let hi_index: usize = if j < 4 {
            2 * j
        } else if j < 6 {
            2 * j + 1
        } else if j < 8 {
            2 * j + 2
        } else if j < 10 {
            2 * j + 3
        } else {
            2 * j + 4
        };
        proof {
            assert(hi_index == digit_index(2 * j as int));
            assert(hi_index + 1 == digit_index(2 * j as int + 1));
            assert(canonical_char_at(text@, hi_index as int));
            assert(canonical_char_at(text@, hi_index as int + 1));
        }
        let hi = hex_digit_value_exec(text[hi_index]);
        let lo = hex_digit_value_exec(text[hi_index + 1]);
        bytes.push(hi * 16 + lo);
        j += 1;
    }
    proof {
        assert(bytes@ =~= uuid_bytes(text@));
    }
    Some(UuidValue { bytes })
}

} // verus!

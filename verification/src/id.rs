//! Identifiers for repos, models and monitors: 16 raw bytes, written in
//! requests and in the store as 32 lowercase hexadecimal characters.

use vstd::prelude::*;

verus! {

/// A 16-byte identifier.
pub struct Id {
    pub bytes: Vec<u8>,
}

/// `b` is an ASCII digit or a lowercase `a` to `f`.
pub open spec fn is_lower_hex_digit(b: u8) -> bool {
    (48 <= b <= 57) || (97 <= b <= 102)
}

/// Value of one hexadecimal digit character.
pub open spec fn hex_val(b: u8) -> u8
    recommends
        is_lower_hex_digit(b),
{
    if 48 <= b <= 57 {
        (b - 48) as u8
    } else {
        (b - 87) as u8
    }
}

/// Lowercase hexadecimal character of a value below 16.
pub open spec fn hex_char(v: u8) -> u8
    recommends
        v < 16,
{
    if v < 10 {
        (v + 48) as u8
    } else {
        (v + 87) as u8
    }
}

/// `s` is the text of an identifier: exactly 32 lowercase hex characters.
pub open spec fn valid_id_text(s: Seq<u8>) -> bool {
    s.len() == 32 && (forall|i: int| 0 <= i < 32 ==> is_lower_hex_digit(#[trigger] s[i]))
}

/// The 16 identifier bytes that a valid identifier text denotes.
pub open spec fn decoded_id(s: Seq<u8>) -> Seq<u8> {
    Seq::new(16, |i: int| (hex_val(s[2 * i]) * 16 + hex_val(s[2 * i + 1])) as u8)
}

/// The hexadecimal text of a byte sequence, two characters per byte.
pub open spec fn hex_text(b: Seq<u8>) -> Seq<u8> {
    Seq::new(b.len() * 2, |i: int| if i % 2 == 0 {
        hex_char(b[i / 2] / 16)
    } else {
        hex_char(b[i / 2] % 16)
    })
}

/// Executable mirror of `is_lower_hex_digit`.
fn check_lower_hex_digit(b: u8) -> (r: bool)
    ensures
        r == is_lower_hex_digit(b),
{
    (48 <= b && b <= 57) || (97 <= b && b <= 102)
}

impl Id {
    /// An identifier holds exactly 16 bytes.
    pub open spec fn wf(&self) -> bool {
        self.bytes@.len() == 16
    }

    /// Parse the 32-character lowercase hexadecimal form. Returns `None`
    /// exactly on text of the wrong length or with a character that is not
    /// a lowercase hex digit.
    pub fn parse(s: &[u8]) -> (r: Option<Id>)
        ensures
            match r {
                Some(id) => valid_id_text(s@) && id.wf() && id.bytes@ == decoded_id(s@),
                None => !valid_id_text(s@),
            },
    {
        if s.len() != 32 {
            return None;
        }
        let mut out: Vec<u8> = Vec::new();
        let mut i: usize = 0;
        while i < 16
            invariant
                s@.len() == 32,
                0 <= i <= 16,
                out@.len() == i,
                forall|j: int| 0 <= j < 2 * i ==> is_lower_hex_digit(#[trigger] s@[j]),
                forall|j: int| 0 <= j < i
                    ==> #[trigger] out@[j] == hex_val(s@[2 * j]) * 16 + hex_val(s@[2 * j + 1]),
            decreases 16 - i,
        {
            let hi: u8 = s[2 * i];
            let lo: u8 = s[2 * i + 1];
            if !check_lower_hex_digit(hi) || !check_lower_hex_digit(lo) {
                return None;
            }
            let hv: u8 = if hi <= 57 {
                hi - 48
            } else {
                hi - 87
            };
            let lv: u8 = if lo <= 57 {
                lo - 48
            } else {
                lo - 87
            };
            assert(hv == hex_val(s@[2 * i as int]) && hv < 16);
            assert(lv == hex_val(s@[2 * i as int + 1]) && lv < 16);
            out.push(hv * 16 + lv);
            i = i + 1;
        }
        let id = Id { bytes: out };
        assert(id.bytes@ =~= decoded_id(s@));
        Some(id)
    }

    /// The lowercase hexadecimal text of this identifier.
    pub fn to_hex(&self) -> (r: Vec<u8>)
        ensures
            r@ == hex_text(self.bytes@),
    {
        let n: usize = self.bytes.len();
        let mut out: Vec<u8> = Vec::new();
        let mut i: usize = 0;
        while i < n
            invariant
                n == self.bytes@.len(),
                0 <= i <= n,
                out@.len() == 2 * i,
                forall|j: int| 0 <= j < 2 * i ==> out@[j] == hex_text(self.bytes@)[j],
            decreases n - i,
        {
            let b: u8 = self.bytes[i];
            let hi: u8 = b / 16;
            let lo: u8 = b % 16;
            let hc: u8 = if hi < 10 {
                hi + 48
            } else {
                hi + 87
            };
            let lc: u8 = if lo < 10 {
                lo + 48
            } else {
                lo + 87
            };
            assert(hc == hex_char(self.bytes@[i as int] / 16));
            assert(lc == hex_char(self.bytes@[i as int] % 16));
            out.push(hc);
            out.push(lc);
            assert forall|j: int| 0 <= j < 2 * (i + 1) implies out@[j] == hex_text(self.bytes@)[j] by {
                if j == 2 * i {
                    assert(hex_text(self.bytes@)[j] == hex_char(self.bytes@[j / 2] / 16));
                } else if j == 2 * i + 1 {
                    assert(hex_text(self.bytes@)[j] == hex_char(self.bytes@[j / 2] % 16));
                }
            }
            i = i + 1;
        }
        assert(out@ =~= hex_text(self.bytes@));
        out
    }

    /// A fresh identifier holding the same bytes.
    pub fn duplicate(&self) -> (r: Id)
        ensures
            r.bytes@ == self.bytes@,
    {
        Id { bytes: vstd::slice::slice_to_vec(self.bytes.as_slice()) }
    }
}

impl PartialEq for Id {
    fn eq(&self, other: &Id) -> (r: bool) {
        crate::bytes_util::bytes_eq(self.bytes.as_slice(), other.bytes.as_slice())
    }
}

impl vstd::std_specs::cmp::PartialEqSpecImpl for Id {
    open spec fn obeys_eq_spec() -> bool {
        true
    }

    open spec fn eq_spec(&self, other: &Id) -> bool {
        self.bytes@ == other.bytes@
    }
}

/// Rendering an identifier and parsing the result gives the identifier
/// back: the hexadecimal text form loses nothing.
pub proof fn lemma_id_round_trip(b: Seq<u8>)
    requires
        b.len() == 16,
    ensures
        valid_id_text(hex_text(b)),
        decoded_id(hex_text(b)) == b,
{
    assert forall|i: int| 0 <= i < 32 implies is_lower_hex_digit(#[trigger] hex_text(b)[i]) by {
        let v = if i % 2 == 0 {
            b[i / 2] / 16
        } else {
            b[i / 2] % 16
        };
        assert(v < 16);
    }
    assert forall|i: int| 0 <= i < 16 implies decoded_id(hex_text(b))[i] == b[i] by {
        let s = hex_text(b);
        assert(s[2 * i] == hex_char(b[i] / 16));
        assert(s[2 * i + 1] == hex_char(b[i] % 16));
        assert(hex_val(hex_char(b[i] / 16)) == b[i] / 16);
        assert(hex_val(hex_char(b[i] % 16)) == b[i] % 16);
        assert(b[i] / 16 * 16 + b[i] % 16 == b[i]);
    }
    assert(decoded_id(hex_text(b)) =~= b);
}

} // verus!

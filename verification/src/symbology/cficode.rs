//! Classification of Finacial Instruments
//! https://en.wikipedia.org/wiki/ISO_10962

pub mod equity;
pub mod forwards;
pub mod futures;
pub mod options;
pub mod spot;
pub mod strategies;
pub mod swaps;

use vstd::prelude::*;

verus! {

#[derive(Debug, Clone, Copy, Hash, PartialEq, Eq, PartialOrd, Ord, Structural)]
pub enum Class {
    Equity(equity::Class),
    Debt,
    CollectiveInvestmentVehicles,
    Rights,
    Options(options::Class),
    Futures(futures::Class),
    Swaps(swaps::Class),
    UnlistedAndComplexOptions,
    Spot(spot::Class),
    Forwards(forwards::Class),
    Strategies(strategies::Class),
    Financing,
    ReferentialInstruments,
    Misc,
    NA,
}

/// The classification that the letters of a code say: the first letter is
/// the category, the later ones the category's attributes.
pub open spec fn spec_class(code: Seq<u8>) -> Class {
    if code[0] == 0x45 {
        Class::Equity(equity::spec_class(code))
    } else if code[0] == 0x44 {
        Class::Debt
    } else if code[0] == 0x43 {
        Class::CollectiveInvestmentVehicles
    } else if code[0] == 0x52 {
        Class::Rights
    } else if code[0] == 0x4F {
        Class::Options(options::spec_class(code))
    } else if code[0] == 0x46 {
        Class::Futures(futures::spec_class(code))
    } else if code[0] == 0x53 {
        Class::Swaps(swaps::spec_class(code))
    } else if code[0] == 0x48 {
        Class::UnlistedAndComplexOptions
    } else if code[0] == 0x49 {
        Class::Spot(spot::spec_class(code))
    } else if code[0] == 0x4A {
        Class::Forwards(forwards::spec_class(code))
    } else if code[0] == 0x4B {
        Class::Strategies(strategies::spec_class(code))
    } else if code[0] == 0x4C {
        Class::Financing
    } else if code[0] == 0x54 {
        Class::ReferentialInstruments
    } else if code[0] == 0x4D {
        Class::Misc
    } else {
        Class::NA
    }
}

impl From<&CfiCode> for Class {
    fn from(value: &CfiCode) -> (r: Self) {
        match value.0[0] {
            0x45 => Self::Equity(equity::Class::from(&value.0)),  // 'E'
            0x44 => Self::Debt,  // 'D'
            0x43 => Self::CollectiveInvestmentVehicles,  // 'C'
            0x52 => Self::Rights,  // 'R'
            0x4F => Self::Options(options::Class::from(&value.0)),  // 'O'
            0x46 => Self::Futures(futures::Class::from(&value.0)),  // 'F'
            0x53 => Self::Swaps(swaps::Class::from(&value.0)),  // 'S'
            0x48 => Self::UnlistedAndComplexOptions,  // 'H'
            0x49 => Self::Spot(spot::Class::from(&value.0)),  // 'I'
            0x4A => Self::Forwards(forwards::Class::from(&value.0)),  // 'J'
            0x4B => Self::Strategies(strategies::Class::from(&value.0)),  // 'K'
            0x4C => Self::Financing,  // 'L'
            0x54 => Self::ReferentialInstruments,  // 'T'
            0x4D => Self::Misc,  // 'M'
            _ => Self::NA,
        }
    }
}

impl vstd::std_specs::convert::FromSpecImpl<&CfiCode> for Class {
    open spec fn obeys_from_spec() -> bool {
        true
    }

    open spec fn from_spec(value: &CfiCode) -> Class {
        spec_class(value.0@)
    }
}

impl From<CfiCode> for Class {
    fn from(value: CfiCode) -> (r: Self) {
        Class::from(&value)
    }
}

impl vstd::std_specs::convert::FromSpecImpl<CfiCode> for Class {
    open spec fn obeys_from_spec() -> bool {
        true
    }

    open spec fn from_spec(value: CfiCode) -> Class {
        spec_class(value.0@)
    }
}

/// An ISO 10962 code: eight letters, the first the category, the second the
/// group, and the next four the attributes.
#[derive(Debug, Clone, Copy, PartialEq, Eq, PartialOrd, Ord, Hash)]
pub struct CfiCode(pub [u8; 8]);

impl Default for CfiCode {
    /// The code of unknown classification, `XXXXXXXX`.
    fn default() -> (r: Self)
        ensures
            forall|i: int| 0 <= i < 8 ==> r.0@[i] == 0x58,
    {
        let x: u8 = 0x58;  // 'X'
        CfiCode([x, x, x, x, x, x, x, x])
    }
}

/// The code whose letters are the big-endian bytes of `v`.
pub open spec fn spec_code_of_u64(v: u64) -> CfiCode {
    CfiCode(
        [
            ((v >> 56u64) & 0xff) as u8,
            ((v >> 48u64) & 0xff) as u8,
            ((v >> 40u64) & 0xff) as u8,
            ((v >> 32u64) & 0xff) as u8,
            ((v >> 24u64) & 0xff) as u8,
            ((v >> 16u64) & 0xff) as u8,
            ((v >> 8u64) & 0xff) as u8,
            (v & 0xff) as u8,
        ],
    )
}

/// The number whose big-endian bytes are the letters of `b`.
pub open spec fn spec_u64_of_code(b: Seq<u8>) -> u64 {
    ((b[0] as u64) << 56u64) | ((b[1] as u64) << 48u64) | ((b[2] as u64) << 40u64) | ((b[3] as u64) << 32u64)
        | ((b[4] as u64) << 24u64) | ((b[5] as u64) << 16u64) | ((b[6] as u64) << 8u64) | (b[7] as u64)
}

/// The code made from the first six characters of `s`: an ASCII character
/// is taken as its byte, any other leaves the default letter `X`; the last
/// two letters are always `X`.
pub open spec fn spec_code_of_str(s: Seq<char>) -> Seq<u8> {
    Seq::new(
        8,
        |i: int|
            if i < 6 && i < s.len() && (s[i] as u32) < 128 {
                s[i] as u8
            } else {
                0x58u8
            },
    )
}

/// The code made from the bytes of `b`, the positions past its end left at
/// the default letter `X`.
pub open spec fn spec_code_of_bytes(b: Seq<u8>) -> Seq<u8> {
    Seq::new(
        8,
        |i: int|
            if i < b.len() {
                b[i]
            } else {
                0x58u8
            },
    )
}

impl From<&str> for CfiCode {
    fn from(value: &str) -> (r: Self) {
        let mut t = Self::default();
        let len = value.unicode_len();
        let mut i: usize = 0;
        while i < len && i <= 5
            invariant
                len == value@.len(),
                i <= 6,
                forall|j: int| 0 <= j < 8 && (j >= i || j >= 6) ==> t.0@[j] == 0x58,
                forall|j: int| 0 <= j < i ==> t.0@[j] == spec_code_of_str(value@)[j],
            decreases len - i,
        {
            let c = value.get_char(i);
            if (c as u32) < 128 {
                t.0[i] = c as u8;
            }
            i += 1;
        }
        proof {
            broadcast use vstd::array::axiom_array_ext_equal;

            let c = spec_code_of_str(value@);
            assert(t.0 =~= [c[0], c[1], c[2], c[3], c[4], c[5], c[6], c[7]]);
        }
        t
    }
}

impl vstd::std_specs::convert::FromSpecImpl<&str> for CfiCode {
    open spec fn obeys_from_spec() -> bool {
        true
    }

    open spec fn from_spec(value: &str) -> CfiCode {
        let c = spec_code_of_str(value@);
        CfiCode([c[0], c[1], c[2], c[3], c[4], c[5], c[6], c[7]])
    }
}

impl From<&[u8]> for CfiCode {
    /// The code made from the bytes of `value`; positions past its end keep
    /// the default letter `X`.  A slice longer than eight bytes is cut to its
    /// first eight.
    fn from(value: &[u8]) -> (r: Self) {
        let mut t = Self::default();
        let mut i: usize = 0;
        while i < value.len() && i < 8
            invariant
                i <= 8,
                forall|j: int| 0 <= j < 8 && j >= i ==> t.0@[j] == 0x58,
                forall|j: int| 0 <= j < i ==> t.0@[j] == spec_code_of_bytes(value@)[j],
            decreases 8 - i,
        {
            t.0[i] = value[i];
            i += 1;
        }
        proof {
            broadcast use vstd::array::axiom_array_ext_equal;

            let c = spec_code_of_bytes(value@);
            assert(t.0 =~= [c[0], c[1], c[2], c[3], c[4], c[5], c[6], c[7]]);
        }
        t
    }
}

impl vstd::std_specs::convert::FromSpecImpl<&[u8]> for CfiCode {
    open spec fn obeys_from_spec() -> bool {
        true
    }

    open spec fn from_spec(value: &[u8]) -> CfiCode {
        let c = spec_code_of_bytes(value@);
        CfiCode([c[0], c[1], c[2], c[3], c[4], c[5], c[6], c[7]])
    }
}

impl From<u64> for CfiCode {
    /// The code whose letters are the big-endian bytes of `value`.
    fn from(value: u64) -> (r: Self) {
        CfiCode(
            [
                ((value >> 56u64) & 0xff) as u8,
                ((value >> 48u64) & 0xff) as u8,
                ((value >> 40u64) & 0xff) as u8,
                ((value >> 32u64) & 0xff) as u8,
                ((value >> 24u64) & 0xff) as u8,
                ((value >> 16u64) & 0xff) as u8,
                ((value >> 8u64) & 0xff) as u8,
                (value & 0xff) as u8,
            ],
        )
    }
}

impl vstd::std_specs::convert::FromSpecImpl<u64> for CfiCode {
    open spec fn obeys_from_spec() -> bool {
        true
    }

    open spec fn from_spec(value: u64) -> CfiCode {
        spec_code_of_u64(value)
    }
}

impl From<CfiCode> for u64 {
    /// The number whose big-endian bytes are the letters of the code.
    fn from(value: CfiCode) -> (r: u64) {
        let b = value.0;
        ((b[0] as u64) << 56u64) | ((b[1] as u64) << 48u64) | ((b[2] as u64) << 40u64) | ((
        b[3] as u64) << 32u64) | ((b[4] as u64) << 24u64) | ((b[5] as u64) << 16u64) | ((
        b[6] as u64) << 8u64) | (b[7] as u64)
    }
}

impl vstd::std_specs::convert::FromSpecImpl<CfiCode> for u64 {
    open spec fn obeys_from_spec() -> bool {
        true
    }

    open spec fn from_spec(value: CfiCode) -> u64 {
        spec_u64_of_code(value.0@)
    }
}

/// Turning a number into a code and back gives the number again.
pub proof fn law_code_u64_round_trip(v: u64)
    ensures
        spec_u64_of_code(spec_code_of_u64(v).0@) == v,
{
    let b0 = ((v >> 56u64) & 0xff) as u8;
    let b1 = ((v >> 48u64) & 0xff) as u8;
    let b2 = ((v >> 40u64) & 0xff) as u8;
    let b3 = ((v >> 32u64) & 0xff) as u8;
    let b4 = ((v >> 24u64) & 0xff) as u8;
    let b5 = ((v >> 16u64) & 0xff) as u8;
    let b6 = ((v >> 8u64) & 0xff) as u8;
    let b7 = (v & 0xff) as u8;
    assert(((b0 as u64) << 56u64) | ((b1 as u64) << 48u64) | ((b2 as u64) << 40u64) | ((
    b3 as u64) << 32u64) | ((b4 as u64) << 24u64) | ((b5 as u64) << 16u64) | ((b6 as u64)
        << 8u64) | (b7 as u64) == v) by (bit_vector)
        requires
            b0 == ((v >> 56u64) & 0xff) as u8,
            b1 == ((v >> 48u64) & 0xff) as u8,
            b2 == ((v >> 40u64) & 0xff) as u8,
            b3 == ((v >> 32u64) & 0xff) as u8,
            b4 == ((v >> 24u64) & 0xff) as u8,
            b5 == ((v >> 16u64) & 0xff) as u8,
            b6 == ((v >> 8u64) & 0xff) as u8,
            b7 == (v & 0xff) as u8,
    ;
}

/// The code read from a text (`CfiCode::from(&str)`) holds the text's first
/// six characters as their bytes where they are ASCII, the letter `X` where
/// they are not or the text is shorter, and `X` in its last two places; so
/// for an ASCII text of at most six characters it is the code of the text's
/// bytes.
pub proof fn law_code_of_str_keeps_letters(s: Seq<char>)
    ensures
        spec_code_of_str(s).len() == 8,
        forall|i: int|
            0 <= i < 6 && i < s.len() && (s[i] as u32) < 128 ==> #[trigger] spec_code_of_str(s)[i]
                == s[i] as u8,
        forall|i: int|
            0 <= i < 8 && (i >= 6 || i >= s.len()) ==> #[trigger] spec_code_of_str(s)[i] == 0x58,
        s.len() <= 6 && (forall|i: int| 0 <= i < s.len() ==> (#[trigger] s[i] as u32) < 128)
            ==> spec_code_of_str(s) == spec_code_of_bytes(s.map_values(|c: char| c as u8)),
{
    if s.len() <= 6 && (forall|i: int| 0 <= i < s.len() ==> (#[trigger] s[i] as u32) < 128) {
        assert(spec_code_of_str(s) =~= spec_code_of_bytes(s.map_values(|c: char| c as u8)));
    }
}

/// The code made from bytes (`CfiCode::from(&[u8])`) holds the first eight
/// of them in order, and the letter `X` past the end of a shorter slice.
pub proof fn law_code_of_bytes_keeps_bytes(b: Seq<u8>)
    ensures
        spec_code_of_bytes(b).len() == 8,
        forall|i: int| 0 <= i < 8 && i < b.len() ==> #[trigger] spec_code_of_bytes(b)[i] == b[i],
        forall|i: int| 0 <= i < 8 && i >= b.len() ==> #[trigger] spec_code_of_bytes(b)[i] == 0x58,
{
}

/// Turning a code into a number and back gives the code again.
pub proof fn law_u64_code_round_trip(c: CfiCode)
    ensures
        spec_code_of_u64(spec_u64_of_code(c.0@)) == c,
{
    let b = c.0;
    let v = spec_u64_of_code(b@);
    let (b0, b1, b2, b3, b4, b5, b6, b7) = (b[0], b[1], b[2], b[3], b[4], b[5], b[6], b[7]);
    assert(((v >> 56u64) & 0xff) as u8 == b0 && ((v >> 48u64) & 0xff) as u8 == b1 && ((v
        >> 40u64) & 0xff) as u8 == b2 && ((v >> 32u64) & 0xff) as u8 == b3 && ((v >> 24u64)
        & 0xff) as u8 == b4 && ((v >> 16u64) & 0xff) as u8 == b5 && ((v >> 8u64) & 0xff) as u8
        == b6 && (v & 0xff) as u8 == b7) by (bit_vector)
        requires
            v == ((b0 as u64) << 56u64) | ((b1 as u64) << 48u64) | ((b2 as u64) << 40u64) | ((
            b3 as u64) << 32u64) | ((b4 as u64) << 24u64) | ((b5 as u64) << 16u64) | ((
            b6 as u64) << 8u64) | (b7 as u64),
    ;
    assert(spec_code_of_u64(v).0 =~= c.0);
}

impl CfiCode {
    pub fn classify(&self) -> (r: Class)
        ensures
            r == spec_class(self.0@),
    {
        Class::from(self)
    }
}

/// The letter at position 0 of a code decides the class, one
/// letter for each value under ISO 10962 ('E' Equity, 'D' Debt, 'C' CollectiveInvestmentVehicles, 'R' Rights, 'O' Options, 'F' Futures, 'S' Swaps, 'H' UnlistedAndComplexOptions, 'I' Spot, 'J' Forwards, 'K' Strategies, 'L' Financing, 'T' ReferentialInstruments, 'M' Misc), and any other
/// letter gives NA.
pub proof fn law_class_letters(code: Seq<u8>)
    ensures
        (spec_class(code) is Equity) <==> code[0] == 0x45,  // 'E'
        (spec_class(code) is Debt) <==> code[0] == 0x44,  // 'D'
        (spec_class(code) is CollectiveInvestmentVehicles) <==> code[0] == 0x43,  // 'C'
        (spec_class(code) is Rights) <==> code[0] == 0x52,  // 'R'
        (spec_class(code) is Options) <==> code[0] == 0x4F,  // 'O'
        (spec_class(code) is Futures) <==> code[0] == 0x46,  // 'F'
        (spec_class(code) is Swaps) <==> code[0] == 0x53,  // 'S'
        (spec_class(code) is UnlistedAndComplexOptions) <==> code[0] == 0x48,  // 'H'
        (spec_class(code) is Spot) <==> code[0] == 0x49,  // 'I'
        (spec_class(code) is Forwards) <==> code[0] == 0x4A,  // 'J'
        (spec_class(code) is Strategies) <==> code[0] == 0x4B,  // 'K'
        (spec_class(code) is Financing) <==> code[0] == 0x4C,  // 'L'
        (spec_class(code) is ReferentialInstruments) <==> code[0] == 0x54,  // 'T'
        (spec_class(code) is Misc) <==> code[0] == 0x4D,  // 'M'
        (spec_class(code) is NA) <==> (code[0] != 0x45 && code[0] != 0x44 && code[0] != 0x43 && code[0] != 0x52 && code[0] != 0x4F && code[0] != 0x46 && code[0] != 0x53 && code[0] != 0x48 && code[0] != 0x49 && code[0] != 0x4A && code[0] != 0x4B && code[0] != 0x4C && code[0] != 0x54 && code[0] != 0x4D),
{
}

} // verus!

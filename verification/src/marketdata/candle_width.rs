//! The widths of candles, and their names.
use crate::error::Error;
use crate::strings::{owned, str_eq};
use crate::numfmt::{all_digits, digit_value, digits_value, is_digit};
use vstd::prelude::*;

verus! {

/// The period a candle covers.
#[derive(Debug, Clone, Copy, PartialEq, Eq, Structural, PartialOrd, Ord, Hash)]
pub enum CandleWidth {
    OneSecond,
    FiveSecond,
    OneMinute,
    TwoMinute,
    ThreeMinute,
    FifteenMinute,
    OneHour,
    OneDay,
}

/// The short name of a width, e.g. "15m".
pub open spec fn width_name(w: CandleWidth) -> Seq<char> {
    match w {
        CandleWidth::OneSecond => "1s"@,
        CandleWidth::FiveSecond => "5s"@,
        CandleWidth::OneMinute => "1m"@,
        CandleWidth::TwoMinute => "2m"@,
        CandleWidth::ThreeMinute => "3m"@,
        CandleWidth::FifteenMinute => "15m"@,
        CandleWidth::OneHour => "1h"@,
        CandleWidth::OneDay => "1d"@,
    }
}

/// The length of a width in seconds.
pub open spec fn width_seconds(w: CandleWidth) -> i64 {
    match w {
        CandleWidth::OneSecond => 1,
        CandleWidth::FiveSecond => 5,
        CandleWidth::OneMinute => 60,
        CandleWidth::TwoMinute => 120,
        CandleWidth::ThreeMinute => 180,
        CandleWidth::FifteenMinute => 900,
        CandleWidth::OneHour => 3600,
        CandleWidth::OneDay => 86400,
    }
}

/// Every width, shortest first.
pub open spec fn all_widths() -> Seq<CandleWidth> {
    seq![
        CandleWidth::OneSecond,
        CandleWidth::FiveSecond,
        CandleWidth::OneMinute,
        CandleWidth::TwoMinute,
        CandleWidth::ThreeMinute,
        CandleWidth::FifteenMinute,
        CandleWidth::OneHour,
        CandleWidth::OneDay,
    ]
}

/// The width a short name stands for, if any.
pub open spec fn width_of_name(s: Seq<char>) -> Option<CandleWidth> {
    if exists|w: CandleWidth| width_name(w) == s {
        Some(choose|w: CandleWidth| width_name(w) == s)
    } else {
        None
    }
}

/// The short names of the widths are pairwise distinct.
proof fn lemma_width_names_distinct()
    ensures
        forall|a: CandleWidth, b: CandleWidth| #[trigger]
            width_name(a) == #[trigger] width_name(b) ==> a == b,
{
    reveal_strlit("1s");
    reveal_strlit("5s");
    reveal_strlit("1m");
    reveal_strlit("2m");
    reveal_strlit("3m");
    reveal_strlit("15m");
    reveal_strlit("1h");
    reveal_strlit("1d");
    assert forall|a: CandleWidth, b: CandleWidth| #[trigger]
        width_name(a) == #[trigger] width_name(b) implies a == b by {
        if a != b {
            let x = width_name(a);
            let y = width_name(b);
            if x.len() == y.len() {
                assert(x[0] != y[0] || x[1] != y[1]);
            }
        }
    }
}

impl CandleWidth {
    pub fn all() -> (r: Vec<Self>)
        ensures
            r@ == all_widths(),
    {
        vec![
            CandleWidth::OneSecond,
            CandleWidth::FiveSecond,
            CandleWidth::OneMinute,
            CandleWidth::TwoMinute,
            CandleWidth::ThreeMinute,
            CandleWidth::FifteenMinute,
            CandleWidth::OneHour,
            CandleWidth::OneDay,
        ]
    }

    pub fn as_str(&self) -> (r: &'static str)
        ensures
            r@ == width_name(*self),
    {
        match self {
            CandleWidth::OneSecond => "1s",
            CandleWidth::FiveSecond => "5s",
            CandleWidth::OneMinute => "1m",
            CandleWidth::TwoMinute => "2m",
            CandleWidth::ThreeMinute => "3m",
            CandleWidth::FifteenMinute => "15m",
            CandleWidth::OneHour => "1h",
            CandleWidth::OneDay => "1d",
        }
    }

    pub fn as_seconds(&self) -> (r: i64)
        ensures
            r == width_seconds(*self),
    {
        match self {
            CandleWidth::OneSecond => 1,
            CandleWidth::FiveSecond => 5,
            CandleWidth::OneMinute => 60,
            CandleWidth::TwoMinute => 120,
            CandleWidth::ThreeMinute => 180,
            CandleWidth::FifteenMinute => 900,
            CandleWidth::OneHour => 3600,
            CandleWidth::OneDay => 86400,
        }
    }

    /// Reads a short name, e.g. "15m"; any other string is refused.
    pub fn parse(s: &str) -> (r: Result<Self, Error>)
        ensures
            match width_of_name(s@) {
                Some(w) => r == Ok::<CandleWidth, Error>(w),
                None => r matches Err(Error::InvalidCandleWidth(t)) && t@ == s@,
            },
    {
        proof {
            lemma_width_names_distinct();
        }
        let all = Self::all();
        let mut i: usize = 0;
        while i < all.len()
            invariant
                all@ == all_widths(),
                i <= all@.len(),
                forall|j: int| 0 <= j < i ==> width_name(#[trigger] all@[j]) != s@,
            decreases all.len() - i,
        {
            let w = all[i];
            if str_eq(s, w.as_str()) {
                proof {
                    lemma_width_names_distinct();
                    let c = choose|c: CandleWidth| width_name(c) == s@;
                    assert(width_name(c) == width_name(w));
                }
                return Ok(w);
            }
            i += 1;
        }
        proof {
            assert forall|w: CandleWidth| width_name(w) != s@ by {
                match w {
                    CandleWidth::OneSecond => assert(all@[0] == w),
                    CandleWidth::FiveSecond => assert(all@[1] == w),
                    CandleWidth::OneMinute => assert(all@[2] == w),
                    CandleWidth::TwoMinute => assert(all@[3] == w),
                    CandleWidth::ThreeMinute => assert(all@[4] == w),
                    CandleWidth::FifteenMinute => assert(all@[5] == w),
                    CandleWidth::OneHour => assert(all@[6] == w),
                    CandleWidth::OneDay => assert(all@[7] == w),
                }
            }
        }
        Err(Error::InvalidCandleWidth(owned(s)))
    }
}

impl std::str::FromStr for CandleWidth {
    type Err = Error;

    fn from_str(s: &str) -> (r: Result<Self, Error>)
        ensures
            match width_of_name(s@) {
                Some(w) => r == Ok::<CandleWidth, Error>(w),
                None => r matches Err(Error::InvalidCandleWidth(t)) && t@ == s@,
            },
    {
        Self::parse(s)
    }
}

/// Every width's short name reads back as that width.
pub proof fn law_width_name_round_trip(w: CandleWidth)
    ensures
        width_of_name(width_name(w)) == Some(w),
{
    lemma_width_names_distinct();
    let c = choose|c: CandleWidth| width_name(c) == width_name(w);
    assert(width_name(c) == width_name(w));
}

/// `all` lists every width exactly once.
pub proof fn law_all_widths_complete(w: CandleWidth)
    ensures
        all_widths().contains(w),
        forall|i: int, j: int|
            0 <= i < j < all_widths().len() ==> all_widths()[i] != all_widths()[j],
{
    match w {
        CandleWidth::OneSecond => assert(all_widths()[0] == w),
        CandleWidth::FiveSecond => assert(all_widths()[1] == w),
        CandleWidth::OneMinute => assert(all_widths()[2] == w),
        CandleWidth::TwoMinute => assert(all_widths()[3] == w),
        CandleWidth::ThreeMinute => assert(all_widths()[4] == w),
        CandleWidth::FifteenMinute => assert(all_widths()[5] == w),
        CandleWidth::OneHour => assert(all_widths()[6] == w),
        CandleWidth::OneDay => assert(all_widths()[7] == w),
    }
}

/// The seconds in one of the unit a short name ends in: 's' for seconds,
/// 'm' for minutes, 'h' for hours and 'd' for days.
pub open spec fn unit_seconds(c: char) -> Option<int> {
    if c == 's' {
        Some(1)
    } else if c == 'm' {
        Some(60)
    } else if c == 'h' {
        Some(3600)
    } else if c == 'd' {
        Some(86400)
    } else {
        None
    }
}

/// A width lasts what its short name says: the name is a count in decimal
/// digits followed by a unit letter, and the width's length in seconds is
/// the count times the seconds in the unit (e.g. "15m" is 900 seconds).
pub proof fn law_seconds_agree_with_name(w: CandleWidth)
    ensures
        ({
            let name = width_name(w);
            &&& name.len() >= 2
            &&& all_digits(name.drop_last())
            &&& unit_seconds(name.last()) is Some
            &&& width_seconds(w) as int == digits_value(name.drop_last()) * unit_seconds(
                name.last(),
            ).unwrap()
        }),
{
    reveal_strlit("1s");
    reveal_strlit("5s");
    reveal_strlit("1m");
    reveal_strlit("2m");
    reveal_strlit("3m");
    reveal_strlit("15m");
    reveal_strlit("1h");
    reveal_strlit("1d");
    let name = width_name(w);
    let count = name.drop_last();
    assert(name.last() == name[name.len() - 1]);
    if name.len() == 2 {
        assert(count.len() == 1 && count[0] == name[0]);
        assert(count.drop_last().len() == 0);
        assert(digits_value(count.drop_last()) == 0);
        assert(count.last() == count[0]);
        assert(digits_value(count) == digit_value(name[0]));
        assert(is_digit(count[0]));
        assert forall|i: int| 0 <= i < count.len() implies is_digit(#[trigger] count[i]) by {}
    } else {
        assert(count.len() == 2 && count[0] == name[0] && count[1] == name[1]);
        assert(count.drop_last().len() == 1 && count.drop_last()[0] == name[0]);
        assert(count.drop_last().drop_last().len() == 0);
        assert(digits_value(count.drop_last().drop_last()) == 0);
        assert(count.drop_last().last() == name[0]);
        assert(count.last() == name[1]);
        assert(digits_value(count.drop_last()) == digit_value(name[0]));
        assert(digits_value(count) == digit_value(name[0]) * 10 + digit_value(name[1]));
        assert(is_digit(count[0]) && is_digit(count[1]));
        assert forall|i: int| 0 <= i < count.len() implies is_digit(#[trigger] count[i]) by {}
    }
    match w {
        CandleWidth::FifteenMinute => {
            assert(name[0] == '1' && name[1] == '5' && name[2] == 'm');
            assert(digit_value('1') == 1 && digit_value('5') == 5);
            assert(digits_value(count) == 15);
            assert(name.last() == 'm');
        },
        CandleWidth::OneSecond => {
            assert(name[0] == '1' && name.last() == 's');
            assert(digits_value(count) == 1);
        },
        CandleWidth::FiveSecond => {
            assert(name[0] == '5' && name.last() == 's');
            assert(digits_value(count) == 5);
        },
        CandleWidth::OneMinute => {
            assert(name[0] == '1' && name.last() == 'm');
            assert(digits_value(count) == 1);
        },
        CandleWidth::TwoMinute => {
            assert(name[0] == '2' && name.last() == 'm');
            assert(digits_value(count) == 2);
        },
        CandleWidth::ThreeMinute => {
            assert(name[0] == '3' && name.last() == 'm');
            assert(digits_value(count) == 3);
        },
        CandleWidth::OneHour => {
            assert(name[0] == '1' && name.last() == 'h');
            assert(digits_value(count) == 1);
        },
        CandleWidth::OneDay => {
            assert(name[0] == '1' && name.last() == 'd');
            assert(digits_value(count) == 1);
        },
    }
}

} // verus!

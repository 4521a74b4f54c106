//! Order ids: a sequence id (a uuid) and a number in that sequence.
use crate::error::Error;
use crate::numfmt::{
    decimal_digits, format_u64, law_u64_text_round_trip, lemma_decimal_digits, parse_u64,
    spec_parse_u64,
};
use crate::strings::{
    join_with, lemma_find_char_absent, lemma_find_char_bound, owned, split_once, split_once_char,
};
use vstd::prelude::*;

verus! {

/// The value a uuid's text stands for, as `uuid::Uuid::parse_str` reads it
/// (hyphenated, simple, braced or urn form), taken as a 128-bit number.
pub uninterp spec fn uuid_text_value(s: Seq<char>) -> Option<u128>;

/// The lower-case hexadecimal digit for `d`, for `0 <= d < 16`.
pub open spec fn hex_char(d: int) -> char {
    if d < 10 {
        (48 + d) as char
    } else {
        (87 + d) as char
    }
}

/// The last `n` hexadecimal digits of `v`, zero-padded, most significant
/// first.
pub open spec fn hex_digits(v: nat, n: nat) -> Seq<char>
    decreases n,
{
    if n == 0 {
        Seq::empty()
    } else {
        hex_digits(v / 16, (n - 1) as nat).push(hex_char((v % 16) as int))
    }
}

/// The hyphenated lower-case form of a uuid, e.g.
/// "67e55044-10b1-426f-9247-bb680e5fe0c8": its 32 hexadecimal digits in
/// groups of 8, 4, 4, 4 and 12.
pub open spec fn uuid_hyphenated(v: u128) -> Seq<char> {
    let h = hex_digits(v as nat, 32);
    h.subrange(0, 8) + seq!['-'] + h.subrange(8, 12) + seq!['-'] + h.subrange(12, 16) + seq!['-']
        + h.subrange(16, 20) + seq!['-'] + h.subrange(20, 32)
}

/// `uuid::Uuid::parse_str`: the uuid a text stands for, as a 128-bit
/// number (`Uuid::as_u128`).  The result is named; the forms the parser
/// accepts are its own.
#[verifier::external_body]
fn uuid_parse(s: &str) -> (r: Option<u128>)
    ensures
        r == uuid_text_value(s@),
{
    match uuid::Uuid::parse_str(s) {
        Ok(u) => Some(u.as_u128()),
        Err(_) => None,
    }
}

/// `Display` of `uuid::Uuid` (`Uuid::from_u128`): the hyphenated
/// lower-case form, which `Uuid::parse_str` reads back as the same uuid.
#[verifier::external_body]
pub(crate) fn uuid_to_string(v: u128) -> (r: String)
    ensures
        r@ == uuid_hyphenated(v),
        uuid_text_value(r@) == Some(v),
{
    uuid::Uuid::from_u128(v).to_string()
}

/// An order id.  A nil (zero) sequence id is written as the number alone.
#[derive(Debug, Clone, Copy, Hash, PartialEq, Eq, Structural, PartialOrd, Ord)]
pub struct OrderId {
    /// The sequence's uuid, as a 128-bit number.
    pub seqid: u128,
    pub seqno: u64,
}

/// The text of an order id: the number alone where the sequence id is nil,
/// else the sequence id's hyphenated form, ':' and the number.
pub open spec fn order_id_text(id: OrderId) -> Seq<char> {
    if id.seqid == 0 {
        decimal_digits(id.seqno as nat)
    } else {
        uuid_hyphenated(id.seqid) + seq![':'] + decimal_digits(id.seqno as nat)
    }
}

/// What reading an order id's text gives: a uuid and a number around the
/// first ':', or a number alone for the nil sequence.  `None` where a part
/// does not read.
pub open spec fn spec_parse_order_id(s: Seq<char>) -> Option<OrderId> {
    match split_once(s, ':') {
        Some(parts) => match (uuid_text_value(parts.0), spec_parse_u64(parts.1)) {
            (Some(seqid), Some(seqno)) => Some(OrderId { seqid, seqno }),
            _ => None,
        },
        None => match spec_parse_u64(s) {
            Some(seqno) => Some(OrderId { seqid: 0, seqno }),
            None => None,
        },
    }
}

impl OrderId {
    /// The order id with the nil sequence id.
    pub fn nil(seqno: u64) -> (r: Self)
        ensures
            r == (OrderId { seqid: 0, seqno }),
    {
        OrderId { seqid: 0, seqno }
    }

    /// The id as text, which reads back as the same id.
    pub fn to_string(&self) -> (r: String)
        ensures
            r@ == order_id_text(*self),
            self.seqid != 0 ==> uuid_text_value(uuid_hyphenated(self.seqid)) == Some(self.seqid),
            spec_parse_order_id(r@) == Some(*self),
    {
        if self.seqid == 0 {
            let r = format_u64(self.seqno);
            proof {
                law_order_id_round_trip(*self);
            }
            r
        } else {
            let u = uuid_to_string(self.seqid);
            let n = format_u64(self.seqno);
            let r = join_with(u.as_str(), ':', n.as_str());
            proof {
                law_order_id_round_trip(*self);
            }
            r
        }
    }

    /// Reads an id from its text.
    pub fn parse(s: &str) -> (r: Result<Self, Error>)
        ensures
            match spec_parse_order_id(s@) {
                Some(id) => r == Ok::<OrderId, Error>(id),
                None => r matches Err(Error::InvalidOrderId(t)) && t@ == s@,
            },
    {
        match split_once_char(s, ':') {
            Some(parts) => {
                let seqid = uuid_parse(parts.0.as_str());
                let seqno = parse_u64(parts.1.as_str());
                match (seqid, seqno) {
                    (Some(seqid), Some(seqno)) => Ok(OrderId { seqid, seqno }),
                    _ => Err(Error::InvalidOrderId(owned(s))),
                }
            },
            None => match parse_u64(s) {
                Some(seqno) => Ok(OrderId { seqid: 0, seqno }),
                None => Err(Error::InvalidOrderId(owned(s))),
            },
        }
    }
}

impl std::str::FromStr for OrderId {
    type Err = Error;

    fn from_str(s: &str) -> (r: Result<Self, Error>)
        ensures
            match spec_parse_order_id(s@) {
                Some(id) => r == Ok::<OrderId, Error>(id),
                None => r matches Err(Error::InvalidOrderId(t)) && t@ == s@,
            },
    {
        Self::parse(s)
    }
}

/// `hex_digits(v, n)` has `n` digits.
proof fn lemma_hex_digits_len(v: nat, n: nat)
    ensures
        hex_digits(v, n).len() == n,
    decreases n,
{
    if n > 0 {
        lemma_hex_digits_len(v / 16, (n - 1) as nat);
    }
}

/// No hexadecimal digit is a ':'.
proof fn lemma_hex_digits_no_colon(v: nat, n: nat)
    ensures
        !hex_digits(v, n).contains(':'),
    decreases n,
{
    if n > 0 {
        lemma_hex_digits_no_colon(v / 16, (n - 1) as nat);
        let h = hex_digits(v, n);
        let d = (v % 16) as int;
        assert(hex_char(d) != ':');
        assert forall|i: int| 0 <= i < h.len() implies h[i] != ':' by {
            if i < h.len() - 1 {
                assert(h[i] == hex_digits(v / 16, (n - 1) as nat)[i]);
            }
        }
    }
}

/// An order id written as text and read back gives the id again (given
/// that the uuid parser reads its own hyphenated form back, which
/// `uuid_to_string` states of every uuid it writes).
pub proof fn law_order_id_round_trip(id: OrderId)
    requires
        id.seqid != 0 ==> uuid_text_value(uuid_hyphenated(id.seqid)) == Some(id.seqid),
    ensures
        spec_parse_order_id(order_id_text(id)) == Some(id),
{
    let digits = decimal_digits(id.seqno as nat);
    lemma_decimal_digits(id.seqno as nat);
    law_u64_text_round_trip(id.seqno);
    assert forall|i: int| 0 <= i < digits.len() implies digits[i] != ':' by {
        assert(crate::numfmt::is_digit(digits[i]));
    }
    if id.seqid == 0 {
        lemma_find_char_absent(digits, ':');
    } else {
        let u = uuid_hyphenated(id.seqid);
        let h = hex_digits(id.seqid as nat, 32);
        lemma_hex_digits_no_colon(id.seqid as nat, 32);
        lemma_hex_digits_len(id.seqid as nat, 32);
        assert forall|i: int| 0 <= i < u.len() implies u[i] != ':' by {
            if u[i] == ':' {
                assert(h.contains(':')) by {
                    if i < 8 {
                        assert(h[i] == u[i]);
                    } else if 9 <= i < 13 {
                        assert(h[i - 1] == u[i]);
                    } else if 14 <= i < 18 {
                        assert(h[i - 2] == u[i]);
                    } else if 19 <= i < 23 {
                        assert(h[i - 3] == u[i]);
                    } else if 24 <= i {
                        assert(h[i - 4] == u[i]);
                    }
                }
            }
        }
        let text = u + seq![':'] + digits;
        assert(text[u.len() as int] == ':');
        assert forall|j: int| 0 <= j < u.len() implies text[j] != ':' by {
            assert(text[j] == u[j]);
        }
        lemma_find_char_bound(text, ':', u.len() as int);
        assert(text.subrange(0, u.len() as int) =~= u);
        assert(text.subrange(u.len() + 1int, text.len() as int) =~= digits);
    }
}

} // verus!

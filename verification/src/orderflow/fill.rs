//! The kinds of fill.
use vstd::prelude::*;

verus! {

#[derive(Debug, Clone, Copy, Hash, PartialEq, Eq, Structural)]
pub enum FillKind {
    Normal,
    Reversal,
    Correction,
}

/// The number that stands for a fill kind on the wire.
pub open spec fn fill_kind_code(k: FillKind) -> u8 {
    match k {
        FillKind::Normal => 0,
        FillKind::Reversal => 1,
        FillKind::Correction => 2,
    }
}

impl FillKind {
    /// The kind's number on the wire.
    pub fn as_u8(&self) -> (r: u8)
        ensures
            r == fill_kind_code(*self),
    {
        match self {
            FillKind::Normal => 0,
            FillKind::Reversal => 1,
            FillKind::Correction => 2,
        }
    }

    /// The kind a wire number stands for, if any.
    pub fn from_u8(n: u8) -> (r: Option<Self>)
        ensures
            r matches Some(k) ==> fill_kind_code(k) == n,
            r is None ==> forall|k: FillKind| fill_kind_code(k) != n,
    {
        match n {
            0 => Some(FillKind::Normal),
            1 => Some(FillKind::Reversal),
            2 => Some(FillKind::Correction),
            _ => None,
        }
    }
}

} // verus!

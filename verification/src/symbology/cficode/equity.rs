//! Equities (CFI category E): voting rights, ownership, payment, form and the other attributes.
use vstd::prelude::*;

verus! {

#[derive(Debug, Clone, Copy, Hash, PartialEq, Eq, PartialOrd, Ord, Structural)]
pub enum Voting {
    Voting,
    NonVoting,
    Restricted,
    EnhancedVoting,
    NA,
}

/// The voting that the letter of the code says.
pub open spec fn spec_voting(code: Seq<u8>) -> Voting {
    if code[2] == 0x56 {
        Voting::Voting
    } else if code[2] == 0x4E {
        Voting::NonVoting
    } else if code[2] == 0x52 {
        Voting::Restricted
    } else if code[2] == 0x45 {
        Voting::EnhancedVoting
    } else {
        Voting::NA
    }
}

impl From<&[u8; 8]> for Voting {
    fn from(value: &[u8; 8]) -> (r: Self) {
        match value[2] {
            0x56 => Self::Voting,  // 'V'
            0x4E => Self::NonVoting,  // 'N'
            0x52 => Self::Restricted,  // 'R'
            0x45 => Self::EnhancedVoting,  // 'E'
            _ => Self::NA,
        }
    }
}

impl vstd::std_specs::convert::FromSpecImpl<&[u8; 8]> for Voting {
    open spec fn obeys_from_spec() -> bool {
        true
    }

    open spec fn from_spec(value: &[u8; 8]) -> Voting {
        spec_voting(value@)
    }
}

#[derive(Debug, Clone, Copy, Hash, PartialEq, Eq, PartialOrd, Ord, Structural)]
pub enum Ownership {
    Restrictions,
    Free,
    NA,
}

/// The ownership that the letter of the code says.
pub open spec fn spec_ownership(code: Seq<u8>) -> Ownership {
    if code[3] == 0x54 {
        Ownership::Restrictions
    } else if code[3] == 0x55 {
        Ownership::Free
    } else {
        Ownership::NA
    }
}

impl From<&[u8; 8]> for Ownership {
    fn from(value: &[u8; 8]) -> (r: Self) {
        match value[3] {
            0x54 => Self::Restrictions,  // 'T'
            0x55 => Self::Free,  // 'U'
            _ => Self::NA,
        }
    }
}

impl vstd::std_specs::convert::FromSpecImpl<&[u8; 8]> for Ownership {
    open spec fn obeys_from_spec() -> bool {
        true
    }

    open spec fn from_spec(value: &[u8; 8]) -> Ownership {
        spec_ownership(value@)
    }
}

#[derive(Debug, Clone, Copy, Hash, PartialEq, Eq, PartialOrd, Ord, Structural)]
pub enum Payment {
    FullyPaid,
    NilPaid,
    PartlyPaid,
    NA,
}

/// The payment that the letter of the code says.
pub open spec fn spec_payment(code: Seq<u8>) -> Payment {
    if code[4] == 0x46 {
        Payment::FullyPaid
    } else if code[4] == 0x4F {
        Payment::NilPaid
    } else if code[4] == 0x50 {
        Payment::PartlyPaid
    } else {
        Payment::NA
    }
}

impl From<&[u8; 8]> for Payment {
    fn from(value: &[u8; 8]) -> (r: Self) {
        match value[4] {
            0x46 => Self::FullyPaid,  // 'F'
            0x4F => Self::NilPaid,  // 'O'
            0x50 => Self::PartlyPaid,  // 'P'
            _ => Self::NA,
        }
    }
}

impl vstd::std_specs::convert::FromSpecImpl<&[u8; 8]> for Payment {
    open spec fn obeys_from_spec() -> bool {
        true
    }

    open spec fn from_spec(value: &[u8; 8]) -> Payment {
        spec_payment(value@)
    }
}

#[derive(Debug, Clone, Copy, Hash, PartialEq, Eq, PartialOrd, Ord, Structural)]
pub enum Form {
    Bearer,
    Registered,
    BearerOrRegistered,
    BearerDepositoryReceipt,
    RegisteredDepositoryReceipt,
    Others,
    NA,
}

/// The form that the letter of the code says.
pub open spec fn spec_form(code: Seq<u8>) -> Form {
    if code[5] == 0x42 {
        Form::Bearer
    } else if code[5] == 0x52 {
        Form::Registered
    } else if code[5] == 0x4E {
        Form::BearerOrRegistered
    } else if code[5] == 0x4D {
        Form::Others
    } else if code[5] == 0x5A {
        Form::BearerDepositoryReceipt
    } else if code[5] == 0x41 {
        Form::RegisteredDepositoryReceipt
    } else {
        Form::NA
    }
}

impl From<&[u8; 8]> for Form {
    fn from(value: &[u8; 8]) -> (r: Self) {
        match value[5] {
            0x42 => Self::Bearer,  // 'B'
            0x52 => Self::Registered,  // 'R'
            0x4E => Self::BearerOrRegistered,  // 'N'
            0x4D => Self::Others,  // 'M'
            0x5A => Self::BearerDepositoryReceipt,  // 'Z'
            0x41 => Self::RegisteredDepositoryReceipt,  // 'A'
            _ => Self::NA,
        }
    }
}

impl vstd::std_specs::convert::FromSpecImpl<&[u8; 8]> for Form {
    open spec fn obeys_from_spec() -> bool {
        true
    }

    open spec fn from_spec(value: &[u8; 8]) -> Form {
        spec_form(value@)
    }
}

#[derive(Debug, Clone, Copy, Hash, PartialEq, Eq, PartialOrd, Ord, Structural)]
pub enum Redemption {
    Redeemable,
    Extendible,
    Exchangeable,
    RedeemableOrExtendible,
    RedeemableOrExchangable,
    RedeemableOrExchangableOrExtendible,
    Perpetual,
    NA,
}

/// The redemption that the letter of the code says.
pub open spec fn spec_redemption(code: Seq<u8>) -> Redemption {
    if code[3] == 0x52 {
        Redemption::Redeemable
    } else if code[3] == 0x45 {
        Redemption::Extendible
    } else if code[3] == 0x54 {
        Redemption::RedeemableOrExtendible
    } else if code[3] == 0x47 {
        Redemption::Exchangeable
    } else if code[3] == 0x41 {
        Redemption::RedeemableOrExchangableOrExtendible
    } else if code[3] == 0x43 {
        Redemption::RedeemableOrExchangable
    } else if code[3] == 0x4E {
        Redemption::Perpetual
    } else {
        Redemption::NA
    }
}

impl From<&[u8; 8]> for Redemption {
    fn from(value: &[u8; 8]) -> (r: Self) {
        match value[3] {
            0x52 => Self::Redeemable,  // 'R'
            0x45 => Self::Extendible,  // 'E'
            0x54 => Self::RedeemableOrExtendible,  // 'T'
            0x47 => Self::Exchangeable,  // 'G'
            0x41 => Self::RedeemableOrExchangableOrExtendible,  // 'A'
            0x43 => Self::RedeemableOrExchangable,  // 'C'
            0x4E => Self::Perpetual,  // 'N'
            _ => Self::NA,
        }
    }
}

impl vstd::std_specs::convert::FromSpecImpl<&[u8; 8]> for Redemption {
    open spec fn obeys_from_spec() -> bool {
        true
    }

    open spec fn from_spec(value: &[u8; 8]) -> Redemption {
        spec_redemption(value@)
    }
}

#[derive(Debug, Clone, Copy, Hash, PartialEq, Eq, PartialOrd, Ord, Structural)]
pub enum Income {
    FixedRate,
    CumulativeFixedRate,
    Participating,
    CumulativeParticipating,
    AdjustableOrVariableRate,
    NormalRate,
    AuctionRate,
    Dividends,
    NA,
}

/// The income that the letter of the code says.
pub open spec fn spec_income(code: Seq<u8>) -> Income {
    if code[4] == 0x46 {
        Income::FixedRate
    } else if code[4] == 0x43 {
        Income::CumulativeFixedRate
    } else if code[4] == 0x50 {
        Income::Participating
    } else if code[4] == 0x51 {
        Income::CumulativeParticipating
    } else if code[4] == 0x41 {
        Income::AdjustableOrVariableRate
    } else if code[4] == 0x4E {
        Income::NormalRate
    } else if code[4] == 0x55 {
        Income::AuctionRate
    } else if code[4] == 0x44 {
        Income::Dividends
    } else {
        Income::NA
    }
}

impl From<&[u8; 8]> for Income {
    fn from(value: &[u8; 8]) -> (r: Self) {
        match value[4] {
            0x46 => Self::FixedRate,  // 'F'
            0x43 => Self::CumulativeFixedRate,  // 'C'
            0x50 => Self::Participating,  // 'P'
            0x51 => Self::CumulativeParticipating,  // 'Q'
            0x41 => Self::AdjustableOrVariableRate,  // 'A'
            0x4E => Self::NormalRate,  // 'N'
            0x55 => Self::AuctionRate,  // 'U'
            0x44 => Self::Dividends,  // 'D'
            _ => Self::NA,
        }
    }
}

impl vstd::std_specs::convert::FromSpecImpl<&[u8; 8]> for Income {
    open spec fn obeys_from_spec() -> bool {
        true
    }

    open spec fn from_spec(value: &[u8; 8]) -> Income {
        spec_income(value@)
    }
}

#[derive(Debug, Clone, Copy, Hash, PartialEq, Eq, PartialOrd, Ord, Structural)]
pub enum DepositoryRedemption {
    Redeemable,
    Perpetual,
    Convertible,
    ConvertibleRedeemable,
    NA,
}

/// The depository redemption that the letter of the code says.
pub open spec fn spec_depository_redemption(code: Seq<u8>) -> DepositoryRedemption {
    if code[3] == 0x52 {
        DepositoryRedemption::Redeemable
    } else if code[3] == 0x4E {
        DepositoryRedemption::Perpetual
    } else if code[3] == 0x42 {
        DepositoryRedemption::Convertible
    } else if code[3] == 0x44 {
        DepositoryRedemption::ConvertibleRedeemable
    } else {
        DepositoryRedemption::NA
    }
}

impl From<&[u8; 8]> for DepositoryRedemption {
    fn from(value: &[u8; 8]) -> (r: Self) {
        match value[3] {
            0x52 => Self::Redeemable,  // 'R'
            0x4E => Self::Perpetual,  // 'N'
            0x42 => Self::Convertible,  // 'B'
            0x44 => Self::ConvertibleRedeemable,  // 'D'
            _ => Self::NA,
        }
    }
}

impl vstd::std_specs::convert::FromSpecImpl<&[u8; 8]> for DepositoryRedemption {
    open spec fn obeys_from_spec() -> bool {
        true
    }

    open spec fn from_spec(value: &[u8; 8]) -> DepositoryRedemption {
        spec_depository_redemption(value@)
    }
}

#[derive(Debug, Clone, Copy, Hash, PartialEq, Eq, PartialOrd, Ord, Structural)]
pub enum Dependency {
    Common,
    Preferred,
    CommonConvertible,
    PreferredConvertible,
    LimitedPartnershipUnits,
    Misc,
    NA,
}

/// The dependency that the letter of the code says.
pub open spec fn spec_dependency(code: Seq<u8>) -> Dependency {
    if code[2] == 0x53 {
        Dependency::Common
    } else if code[2] == 0x50 {
        Dependency::Preferred
    } else if code[2] == 0x43 {
        Dependency::CommonConvertible
    } else if code[2] == 0x46 {
        Dependency::PreferredConvertible
    } else if code[2] == 0x4C {
        Dependency::LimitedPartnershipUnits
    } else if code[2] == 0x4D {
        Dependency::Misc
    } else {
        Dependency::NA
    }
}

impl From<&[u8; 8]> for Dependency {
    fn from(value: &[u8; 8]) -> (r: Self) {
        match value[2] {
            0x53 => Self::Common,  // 'S'
            0x50 => Self::Preferred,  // 'P'
            0x43 => Self::CommonConvertible,  // 'C'
            0x46 => Self::PreferredConvertible,  // 'F'
            0x4C => Self::LimitedPartnershipUnits,  // 'L'
            0x4D => Self::Misc,  // 'M'
            _ => Self::NA,
        }
    }
}

impl vstd::std_specs::convert::FromSpecImpl<&[u8; 8]> for Dependency {
    open spec fn obeys_from_spec() -> bool {
        true
    }

    open spec fn from_spec(value: &[u8; 8]) -> Dependency {
        spec_dependency(value@)
    }
}

#[derive(Debug, Clone, Copy, Hash, PartialEq, Eq, PartialOrd, Ord, Structural)]
pub struct CommonAttrs {
    pub voting: Voting,
    pub ownership: Ownership,
    pub payment: Payment,
    pub form: Form,
}

/// The attributes that the code letters stand for.
pub open spec fn spec_common_attrs(code: Seq<u8>) -> CommonAttrs {
    CommonAttrs {
        voting: spec_voting(code),
        ownership: spec_ownership(code),
        payment: spec_payment(code),
        form: spec_form(code),
    }
}

impl From<&[u8; 8]> for CommonAttrs {
    fn from(value: &[u8; 8]) -> (r: Self) {
        Self {
            voting: Voting::from(value),
            ownership: Ownership::from(value),
            payment: Payment::from(value),
            form: Form::from(value),
        }
    }
}

impl vstd::std_specs::convert::FromSpecImpl<&[u8; 8]> for CommonAttrs {
    open spec fn obeys_from_spec() -> bool {
        true
    }

    open spec fn from_spec(value: &[u8; 8]) -> CommonAttrs {
        spec_common_attrs(value@)
    }
}

#[derive(Debug, Clone, Copy, Hash, PartialEq, Eq, PartialOrd, Ord, Structural)]
pub struct PreferredAttrs {
    pub voting: Voting,
    pub redemption: Redemption,
    pub income: Income,
    pub form: Form,
}

/// The attributes that the code letters stand for.
pub open spec fn spec_preferred_attrs(code: Seq<u8>) -> PreferredAttrs {
    PreferredAttrs {
        voting: spec_voting(code),
        redemption: spec_redemption(code),
        income: spec_income(code),
        form: spec_form(code),
    }
}

impl From<&[u8; 8]> for PreferredAttrs {
    fn from(value: &[u8; 8]) -> (r: Self) {
        Self {
            voting: Voting::from(value),
            redemption: Redemption::from(value),
            income: Income::from(value),
            form: Form::from(value),
        }
    }
}

impl vstd::std_specs::convert::FromSpecImpl<&[u8; 8]> for PreferredAttrs {
    open spec fn obeys_from_spec() -> bool {
        true
    }

    open spec fn from_spec(value: &[u8; 8]) -> PreferredAttrs {
        spec_preferred_attrs(value@)
    }
}

#[derive(Debug, Clone, Copy, Hash, PartialEq, Eq, PartialOrd, Ord, Structural)]
pub struct DepositoryReceiptAttrs {
    pub instrument_dependency: Dependency,
    pub redemption: DepositoryRedemption,
    pub income: Income,
    pub form: Form,
}

/// The attributes that the code letters stand for.
pub open spec fn spec_depository_receipt_attrs(code: Seq<u8>) -> DepositoryReceiptAttrs {
    DepositoryReceiptAttrs {
        instrument_dependency: spec_dependency(code),
        redemption: spec_depository_redemption(code),
        income: spec_income(code),
        form: spec_form(code),
    }
}

impl From<&[u8; 8]> for DepositoryReceiptAttrs {
    fn from(value: &[u8; 8]) -> (r: Self) {
        Self {
            instrument_dependency: Dependency::from(value),
            redemption: DepositoryRedemption::from(value),
            income: Income::from(value),
            form: Form::from(value),
        }
    }
}

impl vstd::std_specs::convert::FromSpecImpl<&[u8; 8]> for DepositoryReceiptAttrs {
    open spec fn obeys_from_spec() -> bool {
        true
    }

    open spec fn from_spec(value: &[u8; 8]) -> DepositoryReceiptAttrs {
        spec_depository_receipt_attrs(value@)
    }
}

#[derive(Debug, Clone, Copy, Hash, PartialEq, Eq, PartialOrd, Ord, Structural)]
pub enum StructuredType {
    TrackerCertificate,
    OutperformingCertificate,
    BonusCertificate,
    OutperformanceBonusCertificate,
    TwinWinCertificate,
    Other,
    NA,
}

/// The structured type that the letter of the code says.
pub open spec fn spec_structured_type(code: Seq<u8>) -> StructuredType {
    if code[2] == 0x41 {
        StructuredType::TrackerCertificate
    } else if code[2] == 0x42 {
        StructuredType::OutperformingCertificate
    } else if code[2] == 0x43 {
        StructuredType::BonusCertificate
    } else if code[2] == 0x44 {
        StructuredType::OutperformanceBonusCertificate
    } else if code[2] == 0x45 {
        StructuredType::TwinWinCertificate
    } else if code[2] == 0x4D {
        StructuredType::Other
    } else {
        StructuredType::NA
    }
}

impl From<&[u8; 8]> for StructuredType {
    fn from(value: &[u8; 8]) -> (r: Self) {
        match value[2] {
            0x41 => Self::TrackerCertificate,  // 'A'
            0x42 => Self::OutperformingCertificate,  // 'B'
            0x43 => Self::BonusCertificate,  // 'C'
            0x44 => Self::OutperformanceBonusCertificate,  // 'D'
            0x45 => Self::TwinWinCertificate,  // 'E'
            0x4D => Self::Other,  // 'M'
            _ => Self::NA,
        }
    }
}

impl vstd::std_specs::convert::FromSpecImpl<&[u8; 8]> for StructuredType {
    open spec fn obeys_from_spec() -> bool {
        true
    }

    open spec fn from_spec(value: &[u8; 8]) -> StructuredType {
        spec_structured_type(value@)
    }
}

#[derive(Debug, Clone, Copy, Hash, PartialEq, Eq, PartialOrd, Ord, Structural)]
pub enum StructuredPayment {
    DividendPayments,
    NoPayments,
    Other,
    NA,
}

/// The structured payment that the letter of the code says.
pub open spec fn spec_structured_payment(code: Seq<u8>) -> StructuredPayment {
    if code[3] == 0x44 {
        StructuredPayment::DividendPayments
    } else if code[3] == 0x59 {
        StructuredPayment::NoPayments
    } else if code[3] == 0x4D {
        StructuredPayment::Other
    } else {
        StructuredPayment::NA
    }
}

impl From<&[u8; 8]> for StructuredPayment {
    fn from(value: &[u8; 8]) -> (r: Self) {
        match value[3] {
            0x44 => Self::DividendPayments,  // 'D'
            0x59 => Self::NoPayments,  // 'Y'
            0x4D => Self::Other,  // 'M'
            _ => Self::NA,
        }
    }
}

impl vstd::std_specs::convert::FromSpecImpl<&[u8; 8]> for StructuredPayment {
    open spec fn obeys_from_spec() -> bool {
        true
    }

    open spec fn from_spec(value: &[u8; 8]) -> StructuredPayment {
        spec_structured_payment(value@)
    }
}

#[derive(Debug, Clone, Copy, Hash, PartialEq, Eq, PartialOrd, Ord, Structural)]
pub enum StructuredRepayment {
    Cash,
    Physical,
    ElectAtSettlement,
    Other,
    NA,
}

/// The structured repayment that the letter of the code says.
pub open spec fn spec_structured_repayment(code: Seq<u8>) -> StructuredRepayment {
    if code[4] == 0x46 {
        StructuredRepayment::Cash
    } else if code[4] == 0x56 {
        StructuredRepayment::Physical
    } else if code[4] == 0x45 {
        StructuredRepayment::ElectAtSettlement
    } else if code[4] == 0x4D {
        StructuredRepayment::Other
    } else {
        StructuredRepayment::NA
    }
}

impl From<&[u8; 8]> for StructuredRepayment {
    fn from(value: &[u8; 8]) -> (r: Self) {
        match value[4] {
            0x46 => Self::Cash,  // 'F'
            0x56 => Self::Physical,  // 'V'
            0x45 => Self::ElectAtSettlement,  // 'E'
            0x4D => Self::Other,  // 'M'
            _ => Self::NA,
        }
    }
}

impl vstd::std_specs::convert::FromSpecImpl<&[u8; 8]> for StructuredRepayment {
    open spec fn obeys_from_spec() -> bool {
        true
    }

    open spec fn from_spec(value: &[u8; 8]) -> StructuredRepayment {
        spec_structured_repayment(value@)
    }
}

#[derive(Debug, Clone, Copy, Hash, PartialEq, Eq, PartialOrd, Ord, Structural)]
pub enum StructuredUnderlying {
    Baskets,
    Equities,
    DebtInstruments,
    Derivatives,
    Commodities,
    Currencies,
    Indices,
    InterestRates,
    Others,
    NA,
}

/// The structured underlying that the letter of the code says.
pub open spec fn spec_structured_underlying(code: Seq<u8>) -> StructuredUnderlying {
    if code[5] == 0x42 {
        StructuredUnderlying::Baskets
    } else if code[5] == 0x53 {
        StructuredUnderlying::Equities
    } else if code[5] == 0x44 {
        StructuredUnderlying::DebtInstruments
    } else if code[5] == 0x47 {
        StructuredUnderlying::Derivatives
    } else if code[5] == 0x54 {
        StructuredUnderlying::Commodities
    } else if code[5] == 0x43 {
        StructuredUnderlying::Currencies
    } else if code[5] == 0x49 {
        StructuredUnderlying::Indices
    } else if code[5] == 0x4E {
        StructuredUnderlying::InterestRates
    } else if code[5] == 0x4D {
        StructuredUnderlying::Others
    } else {
        StructuredUnderlying::NA
    }
}

impl From<&[u8; 8]> for StructuredUnderlying {
    fn from(value: &[u8; 8]) -> (r: Self) {
        match value[5] {
            0x42 => Self::Baskets,  // 'B'
            0x53 => Self::Equities,  // 'S'
            0x44 => Self::DebtInstruments,  // 'D'
            0x47 => Self::Derivatives,  // 'G'
            0x54 => Self::Commodities,  // 'T'
            0x43 => Self::Currencies,  // 'C'
            0x49 => Self::Indices,  // 'I'
            0x4E => Self::InterestRates,  // 'N'
            0x4D => Self::Others,  // 'M'
            _ => Self::NA,
        }
    }
}

impl vstd::std_specs::convert::FromSpecImpl<&[u8; 8]> for StructuredUnderlying {
    open spec fn obeys_from_spec() -> bool {
        true
    }

    open spec fn from_spec(value: &[u8; 8]) -> StructuredUnderlying {
        spec_structured_underlying(value@)
    }
}

#[derive(Debug, Clone, Copy, Hash, PartialEq, Eq, PartialOrd, Ord, Structural)]
pub struct StructuredAttrs {
    pub structured_type: StructuredType,
    pub payment: StructuredPayment,
    pub repayment: StructuredRepayment,
    pub underlying: StructuredUnderlying,
}

/// The attributes that the code letters stand for.
pub open spec fn spec_structured_attrs(code: Seq<u8>) -> StructuredAttrs {
    StructuredAttrs {
        structured_type: spec_structured_type(code),
        payment: spec_structured_payment(code),
        repayment: spec_structured_repayment(code),
        underlying: spec_structured_underlying(code),
    }
}

impl From<&[u8; 8]> for StructuredAttrs {
    fn from(value: &[u8; 8]) -> (r: Self) {
        Self {
            structured_type: StructuredType::from(value),
            payment: StructuredPayment::from(value),
            repayment: StructuredRepayment::from(value),
            underlying: StructuredUnderlying::from(value),
        }
    }
}

impl vstd::std_specs::convert::FromSpecImpl<&[u8; 8]> for StructuredAttrs {
    open spec fn obeys_from_spec() -> bool {
        true
    }

    open spec fn from_spec(value: &[u8; 8]) -> StructuredAttrs {
        spec_structured_attrs(value@)
    }
}

#[derive(Debug, Clone, Copy, Hash, PartialEq, Eq, PartialOrd, Ord, Structural)]
pub enum ClosedOpen {
    Closed,
    Open,
    NA,
}

/// The closed open that the letter of the code says.
pub open spec fn spec_closed_open(code: Seq<u8>) -> ClosedOpen {
    if code[2] == 0x43 {
        ClosedOpen::Closed
    } else if code[2] == 0x4F {
        ClosedOpen::Open
    } else {
        ClosedOpen::NA
    }
}

impl From<&[u8; 8]> for ClosedOpen {
    fn from(value: &[u8; 8]) -> (r: Self) {
        match value[2] {
            0x43 => Self::Closed,  // 'C'
            0x4F => Self::Open,  // 'O'
            _ => Self::NA,
        }
    }
}

impl vstd::std_specs::convert::FromSpecImpl<&[u8; 8]> for ClosedOpen {
    open spec fn obeys_from_spec() -> bool {
        true
    }

    open spec fn from_spec(value: &[u8; 8]) -> ClosedOpen {
        spec_closed_open(value@)
    }
}

#[derive(Debug, Clone, Copy, Hash, PartialEq, Eq, PartialOrd, Ord, Structural)]
pub enum UnitsDistPolicy {
    IncomeFunds,
    GrowthFunds,
    MixedFunds,
    NA,
}

/// The units dist policy that the letter of the code says.
pub open spec fn spec_units_dist_policy(code: Seq<u8>) -> UnitsDistPolicy {
    if code[3] == 0x49 {
        UnitsDistPolicy::IncomeFunds
    } else if code[3] == 0x47 {
        UnitsDistPolicy::GrowthFunds
    } else if code[3] == 0x4D {
        UnitsDistPolicy::MixedFunds
    } else {
        UnitsDistPolicy::NA
    }
}

impl From<&[u8; 8]> for UnitsDistPolicy {
    fn from(value: &[u8; 8]) -> (r: Self) {
        match value[3] {
            0x49 => Self::IncomeFunds,  // 'I'
            0x47 => Self::GrowthFunds,  // 'G'
            0x4D => Self::MixedFunds,  // 'M'
            _ => Self::NA,
        }
    }
}

impl vstd::std_specs::convert::FromSpecImpl<&[u8; 8]> for UnitsDistPolicy {
    open spec fn obeys_from_spec() -> bool {
        true
    }

    open spec fn from_spec(value: &[u8; 8]) -> UnitsDistPolicy {
        spec_units_dist_policy(value@)
    }
}

#[derive(Debug, Clone, Copy, Hash, PartialEq, Eq, PartialOrd, Ord, Structural)]
pub enum UnitsAssets {
    RealEstate,
    Securities,
    MixedGeneral,
    Commodities,
    Derivitives,
    NA,
}

/// The units assets that the letter of the code says.
pub open spec fn spec_units_assets(code: Seq<u8>) -> UnitsAssets {
    if code[4] == 0x52 {
        UnitsAssets::RealEstate
    } else if code[4] == 0x53 {
        UnitsAssets::Securities
    } else if code[4] == 0x4D {
        UnitsAssets::MixedGeneral
    } else if code[4] == 0x43 {
        UnitsAssets::Commodities
    } else if code[4] == 0x44 {
        UnitsAssets::Derivitives
    } else {
        UnitsAssets::NA
    }
}

impl From<&[u8; 8]> for UnitsAssets {
    fn from(value: &[u8; 8]) -> (r: Self) {
        match value[4] {
            0x52 => Self::RealEstate,  // 'R'
            0x53 => Self::Securities,  // 'S'
            0x4D => Self::MixedGeneral,  // 'M'
            0x43 => Self::Commodities,  // 'C'
            0x44 => Self::Derivitives,  // 'D'
            _ => Self::NA,
        }
    }
}

impl vstd::std_specs::convert::FromSpecImpl<&[u8; 8]> for UnitsAssets {
    open spec fn obeys_from_spec() -> bool {
        true
    }

    open spec fn from_spec(value: &[u8; 8]) -> UnitsAssets {
        spec_units_assets(value@)
    }
}

#[derive(Debug, Clone, Copy, Hash, PartialEq, Eq, PartialOrd, Ord, Structural)]
pub struct UnitsAttrs {
    pub closed_open: ClosedOpen,
    pub distribution_policy: UnitsDistPolicy,
    pub assets: UnitsAssets,
    pub form: Form,
}

/// The attributes that the code letters stand for.
pub open spec fn spec_units_attrs(code: Seq<u8>) -> UnitsAttrs {
    UnitsAttrs {
        closed_open: spec_closed_open(code),
        distribution_policy: spec_units_dist_policy(code),
        assets: spec_units_assets(code),
        form: spec_form(code),
    }
}

impl From<&[u8; 8]> for UnitsAttrs {
    fn from(value: &[u8; 8]) -> (r: Self) {
        Self {
            closed_open: ClosedOpen::from(value),
            distribution_policy: UnitsDistPolicy::from(value),
            assets: UnitsAssets::from(value),
            form: Form::from(value),
        }
    }
}

impl vstd::std_specs::convert::FromSpecImpl<&[u8; 8]> for UnitsAttrs {
    open spec fn obeys_from_spec() -> bool {
        true
    }

    open spec fn from_spec(value: &[u8; 8]) -> UnitsAttrs {
        spec_units_attrs(value@)
    }
}

#[derive(Debug, Clone, Copy, Hash, PartialEq, Eq, PartialOrd, Ord, Structural)]
pub enum Class {
    Common(CommonAttrs),
    Preferred(PreferredAttrs),
    Convertible(CommonAttrs),
    PreferredConvertible(PreferredAttrs),
    LimitedPartnershipUnits(CommonAttrs),
    DepositoryReceipts(DepositoryReceiptAttrs),
    StructuredInstruments(StructuredAttrs),
    PreferenceShares(PreferredAttrs),
    PreferenceConvertibleShares(PreferredAttrs),
    Units(UnitsAttrs),
    Misc(Form),
    NA,
}

/// The class that the letter of the code says.
pub open spec fn spec_class(code: Seq<u8>) -> Class {
    if code[1] == 0x53 {
        Class::Common(spec_common_attrs(code))
    } else if code[1] == 0x50 {
        Class::Preferred(spec_preferred_attrs(code))
    } else if code[1] == 0x43 {
        Class::Convertible(spec_common_attrs(code))
    } else if code[1] == 0x46 {
        Class::PreferredConvertible(spec_preferred_attrs(code))
    } else if code[1] == 0x4C {
        Class::LimitedPartnershipUnits(spec_common_attrs(code))
    } else if code[1] == 0x44 {
        Class::DepositoryReceipts(spec_depository_receipt_attrs(code))
    } else if code[1] == 0x59 {
        Class::StructuredInstruments(spec_structured_attrs(code))
    } else if code[1] == 0x52 {
        Class::PreferenceShares(spec_preferred_attrs(code))
    } else if code[1] == 0x56 {
        Class::PreferenceConvertibleShares(spec_preferred_attrs(code))
    } else if code[1] == 0x55 {
        Class::Units(spec_units_attrs(code))
    } else if code[1] == 0x4D {
        Class::Misc(spec_form(code))
    } else {
        Class::NA
    }
}

impl From<&[u8; 8]> for Class {
    fn from(value: &[u8; 8]) -> (r: Self) {
        match value[1] {
            0x53 => Self::Common(CommonAttrs::from(value)),  // 'S'
            0x50 => Self::Preferred(PreferredAttrs::from(value)),  // 'P'
            0x43 => Self::Convertible(CommonAttrs::from(value)),  // 'C'
            0x46 => Self::PreferredConvertible(PreferredAttrs::from(value)),  // 'F'
            0x4C => Self::LimitedPartnershipUnits(CommonAttrs::from(value)),  // 'L'
            0x44 => Self::DepositoryReceipts(DepositoryReceiptAttrs::from(value)),  // 'D'
            0x59 => Self::StructuredInstruments(StructuredAttrs::from(value)),  // 'Y'
            0x52 => Self::PreferenceShares(PreferredAttrs::from(value)),  // 'R'
            0x56 => Self::PreferenceConvertibleShares(PreferredAttrs::from(value)),  // 'V'
            0x55 => Self::Units(UnitsAttrs::from(value)),  // 'U'
            0x4D => Self::Misc(Form::from(value)),  // 'M'
            _ => Self::NA,
        }
    }
}

impl vstd::std_specs::convert::FromSpecImpl<&[u8; 8]> for Class {
    open spec fn obeys_from_spec() -> bool {
        true
    }

    open spec fn from_spec(value: &[u8; 8]) -> Class {
        spec_class(value@)
    }
}

/// The letter at position 2 of a code decides the voting, one
/// letter for each value under ISO 10962 ('V' Voting, 'N' NonVoting, 'R' Restricted, 'E' EnhancedVoting), and any other
/// letter gives NA.
pub proof fn law_voting_letters(code: Seq<u8>)
    ensures
        (spec_voting(code) is Voting) <==> code[2] == 0x56,  // 'V'
        (spec_voting(code) is NonVoting) <==> code[2] == 0x4E,  // 'N'
        (spec_voting(code) is Restricted) <==> code[2] == 0x52,  // 'R'
        (spec_voting(code) is EnhancedVoting) <==> code[2] == 0x45,  // 'E'
        (spec_voting(code) is NA) <==> (code[2] != 0x56 && code[2] != 0x4E && code[2] != 0x52 && code[2] != 0x45),
{
}

/// The letter at position 3 of a code decides the ownership, one
/// letter for each value under ISO 10962 ('T' Restrictions, 'U' Free), and any other
/// letter gives NA.
pub proof fn law_ownership_letters(code: Seq<u8>)
    ensures
        (spec_ownership(code) is Restrictions) <==> code[3] == 0x54,  // 'T'
        (spec_ownership(code) is Free) <==> code[3] == 0x55,  // 'U'
        (spec_ownership(code) is NA) <==> (code[3] != 0x54 && code[3] != 0x55),
{
}

/// The letter at position 4 of a code decides the payment, one
/// letter for each value under ISO 10962 ('F' FullyPaid, 'O' NilPaid, 'P' PartlyPaid), and any other
/// letter gives NA.
pub proof fn law_payment_letters(code: Seq<u8>)
    ensures
        (spec_payment(code) is FullyPaid) <==> code[4] == 0x46,  // 'F'
        (spec_payment(code) is NilPaid) <==> code[4] == 0x4F,  // 'O'
        (spec_payment(code) is PartlyPaid) <==> code[4] == 0x50,  // 'P'
        (spec_payment(code) is NA) <==> (code[4] != 0x46 && code[4] != 0x4F && code[4] != 0x50),
{
}

/// The letter at position 5 of a code decides the form, one
/// letter for each value under ISO 10962 ('B' Bearer, 'R' Registered, 'N' BearerOrRegistered, 'M' Others, 'Z' BearerDepositoryReceipt, 'A' RegisteredDepositoryReceipt), and any other
/// letter gives NA.
pub proof fn law_form_letters(code: Seq<u8>)
    ensures
        (spec_form(code) is Bearer) <==> code[5] == 0x42,  // 'B'
        (spec_form(code) is Registered) <==> code[5] == 0x52,  // 'R'
        (spec_form(code) is BearerOrRegistered) <==> code[5] == 0x4E,  // 'N'
        (spec_form(code) is Others) <==> code[5] == 0x4D,  // 'M'
        (spec_form(code) is BearerDepositoryReceipt) <==> code[5] == 0x5A,  // 'Z'
        (spec_form(code) is RegisteredDepositoryReceipt) <==> code[5] == 0x41,  // 'A'
        (spec_form(code) is NA) <==> (code[5] != 0x42 && code[5] != 0x52 && code[5] != 0x4E && code[5] != 0x4D && code[5] != 0x5A && code[5] != 0x41),
{
}

/// The letter at position 3 of a code decides the redemption, one
/// letter for each value under ISO 10962 ('R' Redeemable, 'E' Extendible, 'T' RedeemableOrExtendible, 'G' Exchangeable, 'A' RedeemableOrExchangableOrExtendible, 'C' RedeemableOrExchangable, 'N' Perpetual), and any other
/// letter gives NA.
pub proof fn law_redemption_letters(code: Seq<u8>)
    ensures
        (spec_redemption(code) is Redeemable) <==> code[3] == 0x52,  // 'R'
        (spec_redemption(code) is Extendible) <==> code[3] == 0x45,  // 'E'
        (spec_redemption(code) is RedeemableOrExtendible) <==> code[3] == 0x54,  // 'T'
        (spec_redemption(code) is Exchangeable) <==> code[3] == 0x47,  // 'G'
        (spec_redemption(code) is RedeemableOrExchangableOrExtendible) <==> code[3] == 0x41,  // 'A'
        (spec_redemption(code) is RedeemableOrExchangable) <==> code[3] == 0x43,  // 'C'
        (spec_redemption(code) is Perpetual) <==> code[3] == 0x4E,  // 'N'
        (spec_redemption(code) is NA) <==> (code[3] != 0x52 && code[3] != 0x45 && code[3] != 0x54 && code[3] != 0x47 && code[3] != 0x41 && code[3] != 0x43 && code[3] != 0x4E),
{
}

/// The letter at position 4 of a code decides the income, one
/// letter for each value under ISO 10962 ('F' FixedRate, 'C' CumulativeFixedRate, 'P' Participating, 'Q' CumulativeParticipating, 'A' AdjustableOrVariableRate, 'N' NormalRate, 'U' AuctionRate, 'D' Dividends), and any other
/// letter gives NA.
pub proof fn law_income_letters(code: Seq<u8>)
    ensures
        (spec_income(code) is FixedRate) <==> code[4] == 0x46,  // 'F'
        (spec_income(code) is CumulativeFixedRate) <==> code[4] == 0x43,  // 'C'
        (spec_income(code) is Participating) <==> code[4] == 0x50,  // 'P'
        (spec_income(code) is CumulativeParticipating) <==> code[4] == 0x51,  // 'Q'
        (spec_income(code) is AdjustableOrVariableRate) <==> code[4] == 0x41,  // 'A'
        (spec_income(code) is NormalRate) <==> code[4] == 0x4E,  // 'N'
        (spec_income(code) is AuctionRate) <==> code[4] == 0x55,  // 'U'
        (spec_income(code) is Dividends) <==> code[4] == 0x44,  // 'D'
        (spec_income(code) is NA) <==> (code[4] != 0x46 && code[4] != 0x43 && code[4] != 0x50 && code[4] != 0x51 && code[4] != 0x41 && code[4] != 0x4E && code[4] != 0x55 && code[4] != 0x44),
{
}

/// The letter at position 3 of a code decides the depository redemption, one
/// letter for each value under ISO 10962 ('R' Redeemable, 'N' Perpetual, 'B' Convertible, 'D' ConvertibleRedeemable), and any other
/// letter gives NA.
pub proof fn law_depository_redemption_letters(code: Seq<u8>)
    ensures
        (spec_depository_redemption(code) is Redeemable) <==> code[3] == 0x52,  // 'R'
        (spec_depository_redemption(code) is Perpetual) <==> code[3] == 0x4E,  // 'N'
        (spec_depository_redemption(code) is Convertible) <==> code[3] == 0x42,  // 'B'
        (spec_depository_redemption(code) is ConvertibleRedeemable) <==> code[3] == 0x44,  // 'D'
        (spec_depository_redemption(code) is NA) <==> (code[3] != 0x52 && code[3] != 0x4E && code[3] != 0x42 && code[3] != 0x44),
{
}

/// The letter at position 2 of a code decides the dependency, one
/// letter for each value under ISO 10962 ('S' Common, 'P' Preferred, 'C' CommonConvertible, 'F' PreferredConvertible, 'L' LimitedPartnershipUnits, 'M' Misc), and any other
/// letter gives NA.
pub proof fn law_dependency_letters(code: Seq<u8>)
    ensures
        (spec_dependency(code) is Common) <==> code[2] == 0x53,  // 'S'
        (spec_dependency(code) is Preferred) <==> code[2] == 0x50,  // 'P'
        (spec_dependency(code) is CommonConvertible) <==> code[2] == 0x43,  // 'C'
        (spec_dependency(code) is PreferredConvertible) <==> code[2] == 0x46,  // 'F'
        (spec_dependency(code) is LimitedPartnershipUnits) <==> code[2] == 0x4C,  // 'L'
        (spec_dependency(code) is Misc) <==> code[2] == 0x4D,  // 'M'
        (spec_dependency(code) is NA) <==> (code[2] != 0x53 && code[2] != 0x50 && code[2] != 0x43 && code[2] != 0x46 && code[2] != 0x4C && code[2] != 0x4D),
{
}

/// The letter at position 2 of a code decides the structured type, one
/// letter for each value under ISO 10962 ('A' TrackerCertificate, 'B' OutperformingCertificate, 'C' BonusCertificate, 'D' OutperformanceBonusCertificate, 'E' TwinWinCertificate, 'M' Other), and any other
/// letter gives NA.
pub proof fn law_structured_type_letters(code: Seq<u8>)
    ensures
        (spec_structured_type(code) is TrackerCertificate) <==> code[2] == 0x41,  // 'A'
        (spec_structured_type(code) is OutperformingCertificate) <==> code[2] == 0x42,  // 'B'
        (spec_structured_type(code) is BonusCertificate) <==> code[2] == 0x43,  // 'C'
        (spec_structured_type(code) is OutperformanceBonusCertificate) <==> code[2] == 0x44,  // 'D'
        (spec_structured_type(code) is TwinWinCertificate) <==> code[2] == 0x45,  // 'E'
        (spec_structured_type(code) is Other) <==> code[2] == 0x4D,  // 'M'
        (spec_structured_type(code) is NA) <==> (code[2] != 0x41 && code[2] != 0x42 && code[2] != 0x43 && code[2] != 0x44 && code[2] != 0x45 && code[2] != 0x4D),
{
}

/// The letter at position 3 of a code decides the structured payment, one
/// letter for each value under ISO 10962 ('D' DividendPayments, 'Y' NoPayments, 'M' Other), and any other
/// letter gives NA.
pub proof fn law_structured_payment_letters(code: Seq<u8>)
    ensures
        (spec_structured_payment(code) is DividendPayments) <==> code[3] == 0x44,  // 'D'
        (spec_structured_payment(code) is NoPayments) <==> code[3] == 0x59,  // 'Y'
        (spec_structured_payment(code) is Other) <==> code[3] == 0x4D,  // 'M'
        (spec_structured_payment(code) is NA) <==> (code[3] != 0x44 && code[3] != 0x59 && code[3] != 0x4D),
{
}

/// The letter at position 4 of a code decides the structured repayment, one
/// letter for each value under ISO 10962 ('F' Cash, 'V' Physical, 'E' ElectAtSettlement, 'M' Other), and any other
/// letter gives NA.
pub proof fn law_structured_repayment_letters(code: Seq<u8>)
    ensures
        (spec_structured_repayment(code) is Cash) <==> code[4] == 0x46,  // 'F'
        (spec_structured_repayment(code) is Physical) <==> code[4] == 0x56,  // 'V'
        (spec_structured_repayment(code) is ElectAtSettlement) <==> code[4] == 0x45,  // 'E'
        (spec_structured_repayment(code) is Other) <==> code[4] == 0x4D,  // 'M'
        (spec_structured_repayment(code) is NA) <==> (code[4] != 0x46 && code[4] != 0x56 && code[4] != 0x45 && code[4] != 0x4D),
{
}

/// The letter at position 5 of a code decides the structured underlying, one
/// letter for each value under ISO 10962 ('B' Baskets, 'S' Equities, 'D' DebtInstruments, 'G' Derivatives, 'T' Commodities, 'C' Currencies, 'I' Indices, 'N' InterestRates, 'M' Others), and any other
/// letter gives NA.
pub proof fn law_structured_underlying_letters(code: Seq<u8>)
    ensures
        (spec_structured_underlying(code) is Baskets) <==> code[5] == 0x42,  // 'B'
        (spec_structured_underlying(code) is Equities) <==> code[5] == 0x53,  // 'S'
        (spec_structured_underlying(code) is DebtInstruments) <==> code[5] == 0x44,  // 'D'
        (spec_structured_underlying(code) is Derivatives) <==> code[5] == 0x47,  // 'G'
        (spec_structured_underlying(code) is Commodities) <==> code[5] == 0x54,  // 'T'
        (spec_structured_underlying(code) is Currencies) <==> code[5] == 0x43,  // 'C'
        (spec_structured_underlying(code) is Indices) <==> code[5] == 0x49,  // 'I'
        (spec_structured_underlying(code) is InterestRates) <==> code[5] == 0x4E,  // 'N'
        (spec_structured_underlying(code) is Others) <==> code[5] == 0x4D,  // 'M'
        (spec_structured_underlying(code) is NA) <==> (code[5] != 0x42 && code[5] != 0x53 && code[5] != 0x44 && code[5] != 0x47 && code[5] != 0x54 && code[5] != 0x43 && code[5] != 0x49 && code[5] != 0x4E && code[5] != 0x4D),
{
}

/// The letter at position 2 of a code decides the closed open, one
/// letter for each value under ISO 10962 ('C' Closed, 'O' Open), and any other
/// letter gives NA.
pub proof fn law_closed_open_letters(code: Seq<u8>)
    ensures
        (spec_closed_open(code) is Closed) <==> code[2] == 0x43,  // 'C'
        (spec_closed_open(code) is Open) <==> code[2] == 0x4F,  // 'O'
        (spec_closed_open(code) is NA) <==> (code[2] != 0x43 && code[2] != 0x4F),
{
}

/// The letter at position 3 of a code decides the units dist policy, one
/// letter for each value under ISO 10962 ('I' IncomeFunds, 'G' GrowthFunds, 'M' MixedFunds), and any other
/// letter gives NA.
pub proof fn law_units_dist_policy_letters(code: Seq<u8>)
    ensures
        (spec_units_dist_policy(code) is IncomeFunds) <==> code[3] == 0x49,  // 'I'
        (spec_units_dist_policy(code) is GrowthFunds) <==> code[3] == 0x47,  // 'G'
        (spec_units_dist_policy(code) is MixedFunds) <==> code[3] == 0x4D,  // 'M'
        (spec_units_dist_policy(code) is NA) <==> (code[3] != 0x49 && code[3] != 0x47 && code[3] != 0x4D),
{
}

/// The letter at position 4 of a code decides the units assets, one
/// letter for each value under ISO 10962 ('R' RealEstate, 'S' Securities, 'M' MixedGeneral, 'C' Commodities, 'D' Derivitives), and any other
/// letter gives NA.
pub proof fn law_units_assets_letters(code: Seq<u8>)
    ensures
        (spec_units_assets(code) is RealEstate) <==> code[4] == 0x52,  // 'R'
        (spec_units_assets(code) is Securities) <==> code[4] == 0x53,  // 'S'
        (spec_units_assets(code) is MixedGeneral) <==> code[4] == 0x4D,  // 'M'
        (spec_units_assets(code) is Commodities) <==> code[4] == 0x43,  // 'C'
        (spec_units_assets(code) is Derivitives) <==> code[4] == 0x44,  // 'D'
        (spec_units_assets(code) is NA) <==> (code[4] != 0x52 && code[4] != 0x53 && code[4] != 0x4D && code[4] != 0x43 && code[4] != 0x44),
{
}

/// The letter at position 1 of a code decides the class, one
/// letter for each value under ISO 10962 ('S' Common, 'P' Preferred, 'C' Convertible, 'F' PreferredConvertible, 'L' LimitedPartnershipUnits, 'D' DepositoryReceipts, 'Y' StructuredInstruments, 'R' PreferenceShares, 'V' PreferenceConvertibleShares, 'U' Units, 'M' Misc), and any other
/// letter gives NA.
pub proof fn law_class_letters(code: Seq<u8>)
    ensures
        (spec_class(code) is Common) <==> code[1] == 0x53,  // 'S'
        (spec_class(code) is Preferred) <==> code[1] == 0x50,  // 'P'
        (spec_class(code) is Convertible) <==> code[1] == 0x43,  // 'C'
        (spec_class(code) is PreferredConvertible) <==> code[1] == 0x46,  // 'F'
        (spec_class(code) is LimitedPartnershipUnits) <==> code[1] == 0x4C,  // 'L'
        (spec_class(code) is DepositoryReceipts) <==> code[1] == 0x44,  // 'D'
        (spec_class(code) is StructuredInstruments) <==> code[1] == 0x59,  // 'Y'
        (spec_class(code) is PreferenceShares) <==> code[1] == 0x52,  // 'R'
        (spec_class(code) is PreferenceConvertibleShares) <==> code[1] == 0x56,  // 'V'
        (spec_class(code) is Units) <==> code[1] == 0x55,  // 'U'
        (spec_class(code) is Misc) <==> code[1] == 0x4D,  // 'M'
        (spec_class(code) is NA) <==> (code[1] != 0x53 && code[1] != 0x50 && code[1] != 0x43 && code[1] != 0x46 && code[1] != 0x4C && code[1] != 0x44 && code[1] != 0x59 && code[1] != 0x52 && code[1] != 0x56 && code[1] != 0x55 && code[1] != 0x4D),
{
}

} // verus!

//! Closed enumerations of the protocol, with their wire-code tables.
//!
//! Every enumeration decoder is total over its table and rejects any code
//! outside it: `from_code` returns `None` exactly on the bytes that the
//! table does not list, so an unrecognized wire byte can never be mistaken
//! for a default variant.  Each table also has an encoder (`spec_code`),
//! used by the ghost frame builder, and a proof that decoding the code of a
//! variant gives that variant back.

use vstd::prelude::*;

verus! {

/// System event codes (tag `S` bodies).
#[derive(Debug, Clone, Copy, PartialEq, Eq, Structural)]
pub enum EventCode {
    StartOfMessages,
    StartOfSystemHours,
    StartOfMarketHours,
    EndOfMarketHours,
    EndOfSystemHours,
    EndOfMessages,
}

impl EventCode {
    pub open spec fn spec_from_code(b: u8) -> Option<EventCode> {
        if b == 0x4f {  // 'O'
            Some(EventCode::StartOfMessages)
        } else if b == 0x53 {  // 'S'
            Some(EventCode::StartOfSystemHours)
        } else if b == 0x51 {  // 'Q'
            Some(EventCode::StartOfMarketHours)
        } else if b == 0x4d {  // 'M'
            Some(EventCode::EndOfMarketHours)
        } else if b == 0x45 {  // 'E'
            Some(EventCode::EndOfSystemHours)
        } else if b == 0x43 {  // 'C'
            Some(EventCode::EndOfMessages)
        } else {
            None
        }
    }

    pub open spec fn spec_code(self) -> u8 {
        match self {
            EventCode::StartOfMessages => 0x4f,
            EventCode::StartOfSystemHours => 0x53,
            EventCode::StartOfMarketHours => 0x51,
            EventCode::EndOfMarketHours => 0x4d,
            EventCode::EndOfSystemHours => 0x45,
            EventCode::EndOfMessages => 0x43,
        }
    }

    /// Decodes a wire byte; `None` on every byte outside the table.
    pub fn from_code(b: u8) -> (r: Option<EventCode>)
        ensures
            r == Self::spec_from_code(b),
    {
        if b == 0x4f {
            Some(EventCode::StartOfMessages)
        } else if b == 0x53 {
            Some(EventCode::StartOfSystemHours)
        } else if b == 0x51 {
            Some(EventCode::StartOfMarketHours)
        } else if b == 0x4d {
            Some(EventCode::EndOfMarketHours)
        } else if b == 0x45 {
            Some(EventCode::EndOfSystemHours)
        } else if b == 0x43 {
            Some(EventCode::EndOfMessages)
        } else {
            None
        }
    }

    pub proof fn lemma_code_roundtrip(self)
        ensures
            Self::spec_from_code(self.spec_code()) == Some(self),
    {
    }
}

/// Listing market of an instrument (stock directory).
#[derive(Debug, Clone, Copy, PartialEq, Eq, Structural)]
pub enum MarketCategory {
    NasdaqGlobalSelect,
    NasdaqGlobalMarket,
    NasdaqCapitalMarket,
    Nyse,
    NyseMkt,
    NyseArca,
    BatsZExchange,
    InvestorsExchange,
    Unavailable,
}

impl MarketCategory {
    pub open spec fn spec_from_code(b: u8) -> Option<MarketCategory> {
        if b == 0x51 {  // 'Q'
            Some(MarketCategory::NasdaqGlobalSelect)
        } else if b == 0x47 {  // 'G'
            Some(MarketCategory::NasdaqGlobalMarket)
        } else if b == 0x53 {  // 'S'
            Some(MarketCategory::NasdaqCapitalMarket)
        } else if b == 0x4e {  // 'N'
            Some(MarketCategory::Nyse)
        } else if b == 0x41 {  // 'A'
            Some(MarketCategory::NyseMkt)
        } else if b == 0x50 {  // 'P'
            Some(MarketCategory::NyseArca)
        } else if b == 0x5a {  // 'Z'
            Some(MarketCategory::BatsZExchange)
        } else if b == 0x56 {  // 'V'
            Some(MarketCategory::InvestorsExchange)
        } else if b == 0x20 {  // ' '
            Some(MarketCategory::Unavailable)
        } else {
            None
        }
    }

    pub open spec fn spec_code(self) -> u8 {
        match self {
            MarketCategory::NasdaqGlobalSelect => 0x51,
            MarketCategory::NasdaqGlobalMarket => 0x47,
            MarketCategory::NasdaqCapitalMarket => 0x53,
            MarketCategory::Nyse => 0x4e,
            MarketCategory::NyseMkt => 0x41,
            MarketCategory::NyseArca => 0x50,
            MarketCategory::BatsZExchange => 0x5a,
            MarketCategory::InvestorsExchange => 0x56,
            MarketCategory::Unavailable => 0x20,
        }
    }

    /// Decodes a wire byte; `None` on every byte outside the table.
    pub fn from_code(b: u8) -> (r: Option<MarketCategory>)
        ensures
            r == Self::spec_from_code(b),
    {
        if b == 0x51 {
            Some(MarketCategory::NasdaqGlobalSelect)
        } else if b == 0x47 {
            Some(MarketCategory::NasdaqGlobalMarket)
        } else if b == 0x53 {
            Some(MarketCategory::NasdaqCapitalMarket)
        } else if b == 0x4e {
            Some(MarketCategory::Nyse)
        } else if b == 0x41 {
            Some(MarketCategory::NyseMkt)
        } else if b == 0x50 {
            Some(MarketCategory::NyseArca)
        } else if b == 0x5a {
            Some(MarketCategory::BatsZExchange)
        } else if b == 0x56 {
            Some(MarketCategory::InvestorsExchange)
        } else if b == 0x20 {
            Some(MarketCategory::Unavailable)
        } else {
            None
        }
    }

    pub proof fn lemma_code_roundtrip(self)
        ensures
            Self::spec_from_code(self.spec_code()) == Some(self),
    {
    }
}

/// Financial status indicator of an instrument (stock directory).
#[derive(Debug, Clone, Copy, PartialEq, Eq, Structural)]
pub enum FinancialStatus {
    Normal,
    Deficient,
    Delinquent,
    Bankrupt,
    Suspended,
    DeficientBankrupt,
    DeficientDelinquent,
    DelinquentBankrupt,
    DeficientDelinquentBankrupt,
    EtpSuspended,
    Unavailable,
}

impl FinancialStatus {
    pub open spec fn spec_from_code(b: u8) -> Option<FinancialStatus> {
        if b == 0x4e {  // 'N'
            Some(FinancialStatus::Normal)
        } else if b == 0x44 {  // 'D'
            Some(FinancialStatus::Deficient)
        } else if b == 0x45 {  // 'E'
            Some(FinancialStatus::Delinquent)
        } else if b == 0x51 {  // 'Q'
            Some(FinancialStatus::Bankrupt)
        } else if b == 0x53 {  // 'S'
            Some(FinancialStatus::Suspended)
        } else if b == 0x47 {  // 'G'
            Some(FinancialStatus::DeficientBankrupt)
        } else if b == 0x48 {  // 'H'
            Some(FinancialStatus::DeficientDelinquent)
        } else if b == 0x4a {  // 'J'
            Some(FinancialStatus::DelinquentBankrupt)
        } else if b == 0x4b {  // 'K'
            Some(FinancialStatus::DeficientDelinquentBankrupt)
        } else if b == 0x43 {  // 'C'
            Some(FinancialStatus::EtpSuspended)
        } else if b == 0x20 {  // ' '
            Some(FinancialStatus::Unavailable)
        } else {
            None
        }
    }

    pub open spec fn spec_code(self) -> u8 {
        match self {
            FinancialStatus::Normal => 0x4e,
            FinancialStatus::Deficient => 0x44,
            FinancialStatus::Delinquent => 0x45,
            FinancialStatus::Bankrupt => 0x51,
            FinancialStatus::Suspended => 0x53,
            FinancialStatus::DeficientBankrupt => 0x47,
            FinancialStatus::DeficientDelinquent => 0x48,
            FinancialStatus::DelinquentBankrupt => 0x4a,
            FinancialStatus::DeficientDelinquentBankrupt => 0x4b,
            FinancialStatus::EtpSuspended => 0x43,
            FinancialStatus::Unavailable => 0x20,
        }
    }

    /// Decodes a wire byte; `None` on every byte outside the table.
    pub fn from_code(b: u8) -> (r: Option<FinancialStatus>)
        ensures
            r == Self::spec_from_code(b),
    {
        if b == 0x4e {
            Some(FinancialStatus::Normal)
        } else if b == 0x44 {
            Some(FinancialStatus::Deficient)
        } else if b == 0x45 {
            Some(FinancialStatus::Delinquent)
        } else if b == 0x51 {
            Some(FinancialStatus::Bankrupt)
        } else if b == 0x53 {
            Some(FinancialStatus::Suspended)
        } else if b == 0x47 {
            Some(FinancialStatus::DeficientBankrupt)
        } else if b == 0x48 {
            Some(FinancialStatus::DeficientDelinquent)
        } else if b == 0x4a {
            Some(FinancialStatus::DelinquentBankrupt)
        } else if b == 0x4b {
            Some(FinancialStatus::DeficientDelinquentBankrupt)
        } else if b == 0x43 {
            Some(FinancialStatus::EtpSuspended)
        } else if b == 0x20 {
            Some(FinancialStatus::Unavailable)
        } else {
            None
        }
    }

    pub proof fn lemma_code_roundtrip(self)
        ensures
            Self::spec_from_code(self.spec_code()) == Some(self),
    {
    }
}

/// Issue classification of an instrument (stock directory).
#[derive(Debug, Clone, Copy, PartialEq, Eq, Structural)]
pub enum IssueClassification {
    AmericanDepositaryShare,
    Bond,
    CommonStock,
    DepositoryReceipt,
    A144,
    LimitedPartnership,
    Notes,
    OrdinaryShare,
    PreferredStock,
    OtherSecurities,
    Right,
    SharesOfBeneficialInterest,
    ConvertibleDebenture,
    Unit,
    UnitsPerBenifInt,
    Warrant,
}

impl IssueClassification {
    pub open spec fn spec_from_code(b: u8) -> Option<IssueClassification> {
        if b == 0x41 {  // 'A'
            Some(IssueClassification::AmericanDepositaryShare)
        } else if b == 0x42 {  // 'B'
            Some(IssueClassification::Bond)
        } else if b == 0x43 {  // 'C'
            Some(IssueClassification::CommonStock)
        } else if b == 0x46 {  // 'F'
            Some(IssueClassification::DepositoryReceipt)
        } else if b == 0x49 {  // 'I'
            Some(IssueClassification::A144)
        } else if b == 0x4c {  // 'L'
            Some(IssueClassification::LimitedPartnership)
        } else if b == 0x4e {  // 'N'
            Some(IssueClassification::Notes)
        } else if b == 0x4f {  // 'O'
            Some(IssueClassification::OrdinaryShare)
        } else if b == 0x50 {  // 'P'
            Some(IssueClassification::PreferredStock)
        } else if b == 0x51 {  // 'Q'
            Some(IssueClassification::OtherSecurities)
        } else if b == 0x52 {  // 'R'
            Some(IssueClassification::Right)
        } else if b == 0x53 {  // 'S'
            Some(IssueClassification::SharesOfBeneficialInterest)
        } else if b == 0x54 {  // 'T'
            Some(IssueClassification::ConvertibleDebenture)
        } else if b == 0x55 {  // 'U'
            Some(IssueClassification::Unit)
        } else if b == 0x56 {  // 'V'
            Some(IssueClassification::UnitsPerBenifInt)
        } else if b == 0x57 {  // 'W'
            Some(IssueClassification::Warrant)
        } else {
            None
        }
    }

    pub open spec fn spec_code(self) -> u8 {
        match self {
            IssueClassification::AmericanDepositaryShare => 0x41,
            IssueClassification::Bond => 0x42,
            IssueClassification::CommonStock => 0x43,
            IssueClassification::DepositoryReceipt => 0x46,
            IssueClassification::A144 => 0x49,
            IssueClassification::LimitedPartnership => 0x4c,
            IssueClassification::Notes => 0x4e,
            IssueClassification::OrdinaryShare => 0x4f,
            IssueClassification::PreferredStock => 0x50,
            IssueClassification::OtherSecurities => 0x51,
            IssueClassification::Right => 0x52,
            IssueClassification::SharesOfBeneficialInterest => 0x53,
            IssueClassification::ConvertibleDebenture => 0x54,
            IssueClassification::Unit => 0x55,
            IssueClassification::UnitsPerBenifInt => 0x56,
            IssueClassification::Warrant => 0x57,
        }
    }

    /// Decodes a wire byte; `None` on every byte outside the table.
    pub fn from_code(b: u8) -> (r: Option<IssueClassification>)
        ensures
            r == Self::spec_from_code(b),
    {
        if b == 0x41 {
            Some(IssueClassification::AmericanDepositaryShare)
        } else if b == 0x42 {
            Some(IssueClassification::Bond)
        } else if b == 0x43 {
            Some(IssueClassification::CommonStock)
        } else if b == 0x46 {
            Some(IssueClassification::DepositoryReceipt)
        } else if b == 0x49 {
            Some(IssueClassification::A144)
        } else if b == 0x4c {
            Some(IssueClassification::LimitedPartnership)
        } else if b == 0x4e {
            Some(IssueClassification::Notes)
        } else if b == 0x4f {
            Some(IssueClassification::OrdinaryShare)
        } else if b == 0x50 {
            Some(IssueClassification::PreferredStock)
        } else if b == 0x51 {
            Some(IssueClassification::OtherSecurities)
        } else if b == 0x52 {
            Some(IssueClassification::Right)
        } else if b == 0x53 {
            Some(IssueClassification::SharesOfBeneficialInterest)
        } else if b == 0x54 {
            Some(IssueClassification::ConvertibleDebenture)
        } else if b == 0x55 {
            Some(IssueClassification::Unit)
        } else if b == 0x56 {
            Some(IssueClassification::UnitsPerBenifInt)
        } else if b == 0x57 {
            Some(IssueClassification::Warrant)
        } else {
            None
        }
    }

    pub proof fn lemma_code_roundtrip(self)
        ensures
            Self::spec_from_code(self.spec_code()) == Some(self),
    {
    }
}

/// Issue sub-type of an instrument (stock directory); two-byte wire code.
#[derive(Debug, Clone, Copy, PartialEq, Eq, Structural)]
pub enum IssueSubType {
    PreferredTrustSecurities,
    AlphaIndexETNs,
    IndexBasedDerivative,
    CommonShares,
    CommodityBasedTrustShares,
    CommodityFuturesTrustShares,
    CommodityLinkedSecurities,
    CommodityIndexTrustShares,
    CollateralizedMortgageObligation,
    CurrencyTrustShares,
    CommodityCurrencyLinkedSecurities,
    CurrencyWarrants,
    GlobalDepositaryShares,
    ETFPortfolioDepositaryReceipt,
    EquityGoldShares,
    ETNEquityIndexLinkedSecurities,
    ExchangeTradedManagedFunds,
    ExchangeTradedNotes,
    EquityUnits,
    Holdrs,
    ETNFixedIncomeLinkedSecurities,
    ETNFuturesLinkedSecurities,
    GlobalShares,
    ETFIndexFundShares,
    InterestRate,
    IndexWarrant,
    IndexLinkedExchangeableNotes,
    CorporateBackedTrustSecurity,
    ContingentLitigationRight,
    Llc,
    EquityBasedDerivative,
    ManagedFundShares,
    ETNMultiFactorIndexLinkedSecurities,
    ManagedTrustSecurities,
    NYRegistryShares,
    OpenEndedMutualFund,
    PrivatelyHeldSecurity,
    PoisonPill,
    PartnershipUnits,
    ClosedEndFunds,
    RegS,
    CommodityRedeemableCommodityLinkedSecurities,
    ETNRedeemableFuturesLinkedSecurities,
    REIT,
    CommodityRedeemableCurrencyLinkedSecurities,
    Seed,
    SpotRateClosing,
    SpotRateIntraday,
    TrackingStock,
    TrustCertificates,
    TrustUnits,
    Portal,
    ContingentValueRight,
    TrustIssuedReceipts,
    WorldCurrencyOption,
    Trust,
    Other,
    NotApplicable,
}

impl IssueSubType {
    pub open spec fn spec_from_code(b0: u8, b1: u8) -> Option<IssueSubType> {
        if b0 == 0x41 && b1 == 0x20 {  // "A "
            Some(IssueSubType::PreferredTrustSecurities)
        } else if b0 == 0x41 && b1 == 0x49 {  // "AI"
            Some(IssueSubType::AlphaIndexETNs)
        } else if b0 == 0x42 && b1 == 0x20 {  // "B "
            Some(IssueSubType::IndexBasedDerivative)
        } else if b0 == 0x43 && b1 == 0x20 {  // "C "
            Some(IssueSubType::CommonShares)
        } else if b0 == 0x43 && b1 == 0x42 {  // "CB"
            Some(IssueSubType::CommodityBasedTrustShares)
        } else if b0 == 0x43 && b1 == 0x46 {  // "CF"
            Some(IssueSubType::CommodityFuturesTrustShares)
        } else if b0 == 0x43 && b1 == 0x4c {  // "CL"
            Some(IssueSubType::CommodityLinkedSecurities)
        } else if b0 == 0x43 && b1 == 0x4d {  // "CM"
            Some(IssueSubType::CommodityIndexTrustShares)
        } else if b0 == 0x43 && b1 == 0x4f {  // "CO"
            Some(IssueSubType::CollateralizedMortgageObligation)
        } else if b0 == 0x43 && b1 == 0x54 {  // "CT"
            Some(IssueSubType::CurrencyTrustShares)
        } else if b0 == 0x43 && b1 == 0x55 {  // "CU"
            Some(IssueSubType::CommodityCurrencyLinkedSecurities)
        } else if b0 == 0x43 && b1 == 0x57 {  // "CW"
            Some(IssueSubType::CurrencyWarrants)
        } else if b0 == 0x44 && b1 == 0x20 {  // "D "
            Some(IssueSubType::GlobalDepositaryShares)
        } else if b0 == 0x45 && b1 == 0x20 {  // "E "
            Some(IssueSubType::ETFPortfolioDepositaryReceipt)
        } else if b0 == 0x45 && b1 == 0x47 {  // "EG"
            Some(IssueSubType::EquityGoldShares)
        } else if b0 == 0x45 && b1 == 0x49 {  // "EI"
            Some(IssueSubType::ETNEquityIndexLinkedSecurities)
        } else if b0 == 0x45 && b1 == 0x4d {  // "EM"
            Some(IssueSubType::ExchangeTradedManagedFunds)
        } else if b0 == 0x45 && b1 == 0x4e {  // "EN"
            Some(IssueSubType::ExchangeTradedNotes)
        } else if b0 == 0x45 && b1 == 0x55 {  // "EU"
            Some(IssueSubType::EquityUnits)
        } else if b0 == 0x46 && b1 == 0x20 {  // "F "
            Some(IssueSubType::Holdrs)
        } else if b0 == 0x46 && b1 == 0x49 {  // "FI"
            Some(IssueSubType::ETNFixedIncomeLinkedSecurities)
        } else if b0 == 0x46 && b1 == 0x4c {  // "FL"
            Some(IssueSubType::ETNFuturesLinkedSecurities)
        } else if b0 == 0x47 && b1 == 0x20 {  // "G "
            Some(IssueSubType::GlobalShares)
        } else if b0 == 0x49 && b1 == 0x20 {  // "I "
            Some(IssueSubType::ETFIndexFundShares)
        } else if b0 == 0x49 && b1 == 0x52 {  // "IR"
            Some(IssueSubType::InterestRate)
        } else if b0 == 0x49 && b1 == 0x57 {  // "IW"
            Some(IssueSubType::IndexWarrant)
        } else if b0 == 0x49 && b1 == 0x58 {  // "IX"
            Some(IssueSubType::IndexLinkedExchangeableNotes)
        } else if b0 == 0x4a && b1 == 0x20 {  // "J "
            Some(IssueSubType::CorporateBackedTrustSecurity)
        } else if b0 == 0x4c && b1 == 0x20 {  // "L "
            Some(IssueSubType::ContingentLitigationRight)
        } else if b0 == 0x4c && b1 == 0x4c {  // "LL"
            Some(IssueSubType::Llc)
        } else if b0 == 0x4d && b1 == 0x20 {  // "M "
            Some(IssueSubType::EquityBasedDerivative)
        } else if b0 == 0x4d && b1 == 0x46 {  // "MF"
            Some(IssueSubType::ManagedFundShares)
        } else if b0 == 0x4d && b1 == 0x4c {  // "ML"
            Some(IssueSubType::ETNMultiFactorIndexLinkedSecurities)
        } else if b0 == 0x4d && b1 == 0x54 {  // "MT"
            Some(IssueSubType::ManagedTrustSecurities)
        } else if b0 == 0x4e && b1 == 0x20 {  // "N "
            Some(IssueSubType::NYRegistryShares)
        } else if b0 == 0x4f && b1 == 0x20 {  // "O "
            Some(IssueSubType::OpenEndedMutualFund)
        } else if b0 == 0x50 && b1 == 0x20 {  // "P "
            Some(IssueSubType::PrivatelyHeldSecurity)
        } else if b0 == 0x50 && b1 == 0x50 {  // "PP"
            Some(IssueSubType::PoisonPill)
        } else if b0 == 0x50 && b1 == 0x55 {  // "PU"
            Some(IssueSubType::PartnershipUnits)
        } else if b0 == 0x51 && b1 == 0x20 {  // "Q "
            Some(IssueSubType::ClosedEndFunds)
        } else if b0 == 0x52 && b1 == 0x20 {  // "R "
            Some(IssueSubType::RegS)
        } else if b0 == 0x52 && b1 == 0x43 {  // "RC"
            Some(IssueSubType::CommodityRedeemableCommodityLinkedSecurities)
        } else if b0 == 0x52 && b1 == 0x46 {  // "RF"
            Some(IssueSubType::ETNRedeemableFuturesLinkedSecurities)
        } else if b0 == 0x52 && b1 == 0x54 {  // "RT"
            Some(IssueSubType::REIT)
        } else if b0 == 0x52 && b1 == 0x55 {  // "RU"
            Some(IssueSubType::CommodityRedeemableCurrencyLinkedSecurities)
        } else if b0 == 0x53 && b1 == 0x20 {  // "S "
            Some(IssueSubType::Seed)
        } else if b0 == 0x53 && b1 == 0x43 {  // "SC"
            Some(IssueSubType::SpotRateClosing)
        } else if b0 == 0x53 && b1 == 0x49 {  // "SI"
            Some(IssueSubType::SpotRateIntraday)
        } else if b0 == 0x54 && b1 == 0x20 {  // "T "
            Some(IssueSubType::TrackingStock)
        } else if b0 == 0x54 && b1 == 0x43 {  // "TC"
            Some(IssueSubType::TrustCertificates)
        } else if b0 == 0x54 && b1 == 0x55 {  // "TU"
            Some(IssueSubType::TrustUnits)
        } else if b0 == 0x55 && b1 == 0x20 {  // "U "
            Some(IssueSubType::Portal)
        } else if b0 == 0x56 && b1 == 0x20 {  // "V "
            Some(IssueSubType::ContingentValueRight)
        } else if b0 == 0x57 && b1 == 0x20 {  // "W "
            Some(IssueSubType::TrustIssuedReceipts)
        } else if b0 == 0x57 && b1 == 0x43 {  // "WC"
            Some(IssueSubType::WorldCurrencyOption)
        } else if b0 == 0x58 && b1 == 0x20 {  // "X "
            Some(IssueSubType::Trust)
        } else if b0 == 0x59 && b1 == 0x20 {  // "Y "
            Some(IssueSubType::Other)
        } else if b0 == 0x5a && b1 == 0x20 {  // "Z "
            Some(IssueSubType::NotApplicable)
        } else {
            None
        }
    }

    pub open spec fn spec_code(self) -> (u8, u8) {
        match self {
            IssueSubType::PreferredTrustSecurities => (0x41, 0x20),
            IssueSubType::AlphaIndexETNs => (0x41, 0x49),
            IssueSubType::IndexBasedDerivative => (0x42, 0x20),
            IssueSubType::CommonShares => (0x43, 0x20),
            IssueSubType::CommodityBasedTrustShares => (0x43, 0x42),
            IssueSubType::CommodityFuturesTrustShares => (0x43, 0x46),
            IssueSubType::CommodityLinkedSecurities => (0x43, 0x4c),
            IssueSubType::CommodityIndexTrustShares => (0x43, 0x4d),
            IssueSubType::CollateralizedMortgageObligation => (0x43, 0x4f),
            IssueSubType::CurrencyTrustShares => (0x43, 0x54),
            IssueSubType::CommodityCurrencyLinkedSecurities => (0x43, 0x55),
            IssueSubType::CurrencyWarrants => (0x43, 0x57),
            IssueSubType::GlobalDepositaryShares => (0x44, 0x20),
            IssueSubType::ETFPortfolioDepositaryReceipt => (0x45, 0x20),
            IssueSubType::EquityGoldShares => (0x45, 0x47),
            IssueSubType::ETNEquityIndexLinkedSecurities => (0x45, 0x49),
            IssueSubType::ExchangeTradedManagedFunds => (0x45, 0x4d),
            IssueSubType::ExchangeTradedNotes => (0x45, 0x4e),
            IssueSubType::EquityUnits => (0x45, 0x55),
            IssueSubType::Holdrs => (0x46, 0x20),
            IssueSubType::ETNFixedIncomeLinkedSecurities => (0x46, 0x49),
            IssueSubType::ETNFuturesLinkedSecurities => (0x46, 0x4c),
            IssueSubType::GlobalShares => (0x47, 0x20),
            IssueSubType::ETFIndexFundShares => (0x49, 0x20),
            IssueSubType::InterestRate => (0x49, 0x52),
            IssueSubType::IndexWarrant => (0x49, 0x57),
            IssueSubType::IndexLinkedExchangeableNotes => (0x49, 0x58),
            IssueSubType::CorporateBackedTrustSecurity => (0x4a, 0x20),
            IssueSubType::ContingentLitigationRight => (0x4c, 0x20),
            IssueSubType::Llc => (0x4c, 0x4c),
            IssueSubType::EquityBasedDerivative => (0x4d, 0x20),
            IssueSubType::ManagedFundShares => (0x4d, 0x46),
            IssueSubType::ETNMultiFactorIndexLinkedSecurities => (0x4d, 0x4c),
            IssueSubType::ManagedTrustSecurities => (0x4d, 0x54),
            IssueSubType::NYRegistryShares => (0x4e, 0x20),
            IssueSubType::OpenEndedMutualFund => (0x4f, 0x20),
            IssueSubType::PrivatelyHeldSecurity => (0x50, 0x20),
            IssueSubType::PoisonPill => (0x50, 0x50),
            IssueSubType::PartnershipUnits => (0x50, 0x55),
            IssueSubType::ClosedEndFunds => (0x51, 0x20),
            IssueSubType::RegS => (0x52, 0x20),
            IssueSubType::CommodityRedeemableCommodityLinkedSecurities => (0x52, 0x43),
            IssueSubType::ETNRedeemableFuturesLinkedSecurities => (0x52, 0x46),
            IssueSubType::REIT => (0x52, 0x54),
            IssueSubType::CommodityRedeemableCurrencyLinkedSecurities => (0x52, 0x55),
            IssueSubType::Seed => (0x53, 0x20),
            IssueSubType::SpotRateClosing => (0x53, 0x43),
            IssueSubType::SpotRateIntraday => (0x53, 0x49),
            IssueSubType::TrackingStock => (0x54, 0x20),
            IssueSubType::TrustCertificates => (0x54, 0x43),
            IssueSubType::TrustUnits => (0x54, 0x55),
            IssueSubType::Portal => (0x55, 0x20),
            IssueSubType::ContingentValueRight => (0x56, 0x20),
            IssueSubType::TrustIssuedReceipts => (0x57, 0x20),
            IssueSubType::WorldCurrencyOption => (0x57, 0x43),
            IssueSubType::Trust => (0x58, 0x20),
            IssueSubType::Other => (0x59, 0x20),
            IssueSubType::NotApplicable => (0x5a, 0x20),
        }
    }

    /// Decodes a two-byte wire code; `None` on every pair outside the table.
    pub fn from_code(b0: u8, b1: u8) -> (r: Option<IssueSubType>)
        ensures
            r == Self::spec_from_code(b0, b1),
    {
        if b0 == 0x41 && b1 == 0x20 {
            Some(IssueSubType::PreferredTrustSecurities)
        } else if b0 == 0x41 && b1 == 0x49 {
            Some(IssueSubType::AlphaIndexETNs)
        } else if b0 == 0x42 && b1 == 0x20 {
            Some(IssueSubType::IndexBasedDerivative)
        } else if b0 == 0x43 && b1 == 0x20 {
            Some(IssueSubType::CommonShares)
        } else if b0 == 0x43 && b1 == 0x42 {
            Some(IssueSubType::CommodityBasedTrustShares)
        } else if b0 == 0x43 && b1 == 0x46 {
            Some(IssueSubType::CommodityFuturesTrustShares)
        } else if b0 == 0x43 && b1 == 0x4c {
            Some(IssueSubType::CommodityLinkedSecurities)
        } else if b0 == 0x43 && b1 == 0x4d {
            Some(IssueSubType::CommodityIndexTrustShares)
        } else if b0 == 0x43 && b1 == 0x4f {
            Some(IssueSubType::CollateralizedMortgageObligation)
        } else if b0 == 0x43 && b1 == 0x54 {
            Some(IssueSubType::CurrencyTrustShares)
        } else if b0 == 0x43 && b1 == 0x55 {
            Some(IssueSubType::CommodityCurrencyLinkedSecurities)
        } else if b0 == 0x43 && b1 == 0x57 {
            Some(IssueSubType::CurrencyWarrants)
        } else if b0 == 0x44 && b1 == 0x20 {
            Some(IssueSubType::GlobalDepositaryShares)
        } else if b0 == 0x45 && b1 == 0x20 {
            Some(IssueSubType::ETFPortfolioDepositaryReceipt)
        } else if b0 == 0x45 && b1 == 0x47 {
            Some(IssueSubType::EquityGoldShares)
        } else if b0 == 0x45 && b1 == 0x49 {
            Some(IssueSubType::ETNEquityIndexLinkedSecurities)
        } else if b0 == 0x45 && b1 == 0x4d {
            Some(IssueSubType::ExchangeTradedManagedFunds)
        } else if b0 == 0x45 && b1 == 0x4e {
            Some(IssueSubType::ExchangeTradedNotes)
        } else if b0 == 0x45 && b1 == 0x55 {
            Some(IssueSubType::EquityUnits)
        } else if b0 == 0x46 && b1 == 0x20 {
            Some(IssueSubType::Holdrs)
        } else if b0 == 0x46 && b1 == 0x49 {
            Some(IssueSubType::ETNFixedIncomeLinkedSecurities)
        } else if b0 == 0x46 && b1 == 0x4c {
            Some(IssueSubType::ETNFuturesLinkedSecurities)
        } else if b0 == 0x47 && b1 == 0x20 {
            Some(IssueSubType::GlobalShares)
        } else if b0 == 0x49 && b1 == 0x20 {
            Some(IssueSubType::ETFIndexFundShares)
        } else if b0 == 0x49 && b1 == 0x52 {
            Some(IssueSubType::InterestRate)
        } else if b0 == 0x49 && b1 == 0x57 {
            Some(IssueSubType::IndexWarrant)
        } else if b0 == 0x49 && b1 == 0x58 {
            Some(IssueSubType::IndexLinkedExchangeableNotes)
        } else if b0 == 0x4a && b1 == 0x20 {
            Some(IssueSubType::CorporateBackedTrustSecurity)
        } else if b0 == 0x4c && b1 == 0x20 {
            Some(IssueSubType::ContingentLitigationRight)
        } else if b0 == 0x4c && b1 == 0x4c {
            Some(IssueSubType::Llc)
        } else if b0 == 0x4d && b1 == 0x20 {
            Some(IssueSubType::EquityBasedDerivative)
        } else if b0 == 0x4d && b1 == 0x46 {
            Some(IssueSubType::ManagedFundShares)
        } else if b0 == 0x4d && b1 == 0x4c {
            Some(IssueSubType::ETNMultiFactorIndexLinkedSecurities)
        } else if b0 == 0x4d && b1 == 0x54 {
            Some(IssueSubType::ManagedTrustSecurities)
        } else if b0 == 0x4e && b1 == 0x20 {
            Some(IssueSubType::NYRegistryShares)
        } else if b0 == 0x4f && b1 == 0x20 {
            Some(IssueSubType::OpenEndedMutualFund)
        } else if b0 == 0x50 && b1 == 0x20 {
            Some(IssueSubType::PrivatelyHeldSecurity)
        } else if b0 == 0x50 && b1 == 0x50 {
            Some(IssueSubType::PoisonPill)
        } else if b0 == 0x50 && b1 == 0x55 {
            Some(IssueSubType::PartnershipUnits)
        } else if b0 == 0x51 && b1 == 0x20 {
            Some(IssueSubType::ClosedEndFunds)
        } else if b0 == 0x52 && b1 == 0x20 {
            Some(IssueSubType::RegS)
        } else if b0 == 0x52 && b1 == 0x43 {
            Some(IssueSubType::CommodityRedeemableCommodityLinkedSecurities)
        } else if b0 == 0x52 && b1 == 0x46 {
            Some(IssueSubType::ETNRedeemableFuturesLinkedSecurities)
        } else if b0 == 0x52 && b1 == 0x54 {
            Some(IssueSubType::REIT)
        } else if b0 == 0x52 && b1 == 0x55 {
            Some(IssueSubType::CommodityRedeemableCurrencyLinkedSecurities)
        } else if b0 == 0x53 && b1 == 0x20 {
            Some(IssueSubType::Seed)
        } else if b0 == 0x53 && b1 == 0x43 {
            Some(IssueSubType::SpotRateClosing)
        } else if b0 == 0x53 && b1 == 0x49 {
            Some(IssueSubType::SpotRateIntraday)
        } else if b0 == 0x54 && b1 == 0x20 {
            Some(IssueSubType::TrackingStock)
        } else if b0 == 0x54 && b1 == 0x43 {
            Some(IssueSubType::TrustCertificates)
        } else if b0 == 0x54 && b1 == 0x55 {
            Some(IssueSubType::TrustUnits)
        } else if b0 == 0x55 && b1 == 0x20 {
            Some(IssueSubType::Portal)
        } else if b0 == 0x56 && b1 == 0x20 {
            Some(IssueSubType::ContingentValueRight)
        } else if b0 == 0x57 && b1 == 0x20 {
            Some(IssueSubType::TrustIssuedReceipts)
        } else if b0 == 0x57 && b1 == 0x43 {
            Some(IssueSubType::WorldCurrencyOption)
        } else if b0 == 0x58 && b1 == 0x20 {
            Some(IssueSubType::Trust)
        } else if b0 == 0x59 && b1 == 0x20 {
            Some(IssueSubType::Other)
        } else if b0 == 0x5a && b1 == 0x20 {
            Some(IssueSubType::NotApplicable)
        } else {
            None
        }
    }

    pub proof fn lemma_code_roundtrip(self)
        ensures
            Self::spec_from_code(self.spec_code().0, self.spec_code().1) == Some(self),
    {
    }
}

/// Limit Up/Limit Down reference-price tier.
#[derive(Debug, Clone, Copy, PartialEq, Eq, Structural)]
pub enum LuldRefPriceTier {
    Tier1,
    Tier2,
    Na,
}

impl LuldRefPriceTier {
    pub open spec fn spec_from_code(b: u8) -> Option<LuldRefPriceTier> {
        if b == 0x20 {  // ' '
            Some(LuldRefPriceTier::Na)
        } else if b == 0x31 {  // '1'
            Some(LuldRefPriceTier::Tier1)
        } else if b == 0x32 {  // '2'
            Some(LuldRefPriceTier::Tier2)
        } else {
            None
        }
    }

    pub open spec fn spec_code(self) -> u8 {
        match self {
            LuldRefPriceTier::Na => 0x20,
            LuldRefPriceTier::Tier1 => 0x31,
            LuldRefPriceTier::Tier2 => 0x32,
        }
    }

    /// Decodes a wire byte; `None` on every byte outside the table.
    pub fn from_code(b: u8) -> (r: Option<LuldRefPriceTier>)
        ensures
            r == Self::spec_from_code(b),
    {
        if b == 0x20 {
            Some(LuldRefPriceTier::Na)
        } else if b == 0x31 {
            Some(LuldRefPriceTier::Tier1)
        } else if b == 0x32 {
            Some(LuldRefPriceTier::Tier2)
        } else {
            None
        }
    }

    pub proof fn lemma_code_roundtrip(self)
        ensures
            Self::spec_from_code(self.spec_code()) == Some(self),
    {
    }
}

/// Market-maker mode (participant position).
#[derive(Debug, Clone, Copy, PartialEq, Eq, Structural)]
pub enum MarketMakerMode {
    Normal,
    Passive,
    Syndicate,
    Presyndicate,
    Penalty,
}

impl MarketMakerMode {
    pub open spec fn spec_from_code(b: u8) -> Option<MarketMakerMode> {
        if b == 0x4e {  // 'N'
            Some(MarketMakerMode::Normal)
        } else if b == 0x50 {  // 'P'
            Some(MarketMakerMode::Passive)
        } else if b == 0x53 {  // 'S'
            Some(MarketMakerMode::Syndicate)
        } else if b == 0x52 {  // 'R'
            Some(MarketMakerMode::Presyndicate)
        } else if b == 0x4c {  // 'L'
            Some(MarketMakerMode::Penalty)
        } else {
            None
        }
    }

    pub open spec fn spec_code(self) -> u8 {
        match self {
            MarketMakerMode::Normal => 0x4e,
            MarketMakerMode::Passive => 0x50,
            MarketMakerMode::Syndicate => 0x53,
            MarketMakerMode::Presyndicate => 0x52,
            MarketMakerMode::Penalty => 0x4c,
        }
    }

    /// Decodes a wire byte; `None` on every byte outside the table.
    pub fn from_code(b: u8) -> (r: Option<MarketMakerMode>)
        ensures
            r == Self::spec_from_code(b),
    {
        if b == 0x4e {
            Some(MarketMakerMode::Normal)
        } else if b == 0x50 {
            Some(MarketMakerMode::Passive)
        } else if b == 0x53 {
            Some(MarketMakerMode::Syndicate)
        } else if b == 0x52 {
            Some(MarketMakerMode::Presyndicate)
        } else if b == 0x4c {
            Some(MarketMakerMode::Penalty)
        } else {
            None
        }
    }

    pub proof fn lemma_code_roundtrip(self)
        ensures
            Self::spec_from_code(self.spec_code()) == Some(self),
    {
    }
}

/// Market-participant state (participant position).
#[derive(Debug, Clone, Copy, PartialEq, Eq, Structural)]
pub enum MarketParticipantState {
    Active,
    Excused,
    Withdrawn,
    Suspended,
    Deleted,
}

impl MarketParticipantState {
    pub open spec fn spec_from_code(b: u8) -> Option<MarketParticipantState> {
        if b == 0x41 {  // 'A'
            Some(MarketParticipantState::Active)
        } else if b == 0x45 {  // 'E'
            Some(MarketParticipantState::Excused)
        } else if b == 0x57 {  // 'W'
            Some(MarketParticipantState::Withdrawn)
        } else if b == 0x53 {  // 'S'
            Some(MarketParticipantState::Suspended)
        } else if b == 0x44 {  // 'D'
            Some(MarketParticipantState::Deleted)
        } else {
            None
        }
    }

    pub open spec fn spec_code(self) -> u8 {
        match self {
            MarketParticipantState::Active => 0x41,
            MarketParticipantState::Excused => 0x45,
            MarketParticipantState::Withdrawn => 0x57,
            MarketParticipantState::Suspended => 0x53,
            MarketParticipantState::Deleted => 0x44,
        }
    }

    /// Decodes a wire byte; `None` on every byte outside the table.
    pub fn from_code(b: u8) -> (r: Option<MarketParticipantState>)
        ensures
            r == Self::spec_from_code(b),
    {
        if b == 0x41 {
            Some(MarketParticipantState::Active)
        } else if b == 0x45 {
            Some(MarketParticipantState::Excused)
        } else if b == 0x57 {
            Some(MarketParticipantState::Withdrawn)
        } else if b == 0x53 {
            Some(MarketParticipantState::Suspended)
        } else if b == 0x44 {
            Some(MarketParticipantState::Deleted)
        } else {
            None
        }
    }

    pub proof fn lemma_code_roundtrip(self)
        ensures
            Self::spec_from_code(self.spec_code()) == Some(self),
    {
    }
}

/// Reg SHO short-sale restriction action.
#[derive(Debug, Clone, Copy, PartialEq, Eq, Structural)]
pub enum RegShoAction {
    NoPriceTest,
    Intraday,
    Extant,
}

impl RegShoAction {
    pub open spec fn spec_from_code(b: u8) -> Option<RegShoAction> {
        if b == 0x30 {  // '0'
            Some(RegShoAction::NoPriceTest)
        } else if b == 0x31 {  // '1'
            Some(RegShoAction::Intraday)
        } else if b == 0x32 {  // '2'
            Some(RegShoAction::Extant)
        } else {
            None
        }
    }

    pub open spec fn spec_code(self) -> u8 {
        match self {
            RegShoAction::NoPriceTest => 0x30,
            RegShoAction::Intraday => 0x31,
            RegShoAction::Extant => 0x32,
        }
    }

    /// Decodes a wire byte; `None` on every byte outside the table.
    pub fn from_code(b: u8) -> (r: Option<RegShoAction>)
        ensures
            r == Self::spec_from_code(b),
    {
        if b == 0x30 {
            Some(RegShoAction::NoPriceTest)
        } else if b == 0x31 {
            Some(RegShoAction::Intraday)
        } else if b == 0x32 {
            Some(RegShoAction::Extant)
        } else {
            None
        }
    }

    pub proof fn lemma_code_roundtrip(self)
        ensures
            Self::spec_from_code(self.spec_code()) == Some(self),
    {
    }
}

/// Trading state of an instrument (trading action).
#[derive(Debug, Clone, Copy, PartialEq, Eq, Structural)]
pub enum TradingState {
    Halted,
    Paused,
    QuotationOnly,
    Trading,
}

impl TradingState {
    pub open spec fn spec_from_code(b: u8) -> Option<TradingState> {
        if b == 0x48 {  // 'H'
            Some(TradingState::Halted)
        } else if b == 0x50 {  // 'P'
            Some(TradingState::Paused)
        } else if b == 0x51 {  // 'Q'
            Some(TradingState::QuotationOnly)
        } else if b == 0x54 {  // 'T'
            Some(TradingState::Trading)
        } else {
            None
        }
    }

    pub open spec fn spec_code(self) -> u8 {
        match self {
            TradingState::Halted => 0x48,
            TradingState::Paused => 0x50,
            TradingState::QuotationOnly => 0x51,
            TradingState::Trading => 0x54,
        }
    }

    /// Decodes a wire byte; `None` on every byte outside the table.
    pub fn from_code(b: u8) -> (r: Option<TradingState>)
        ensures
            r == Self::spec_from_code(b),
    {
        if b == 0x48 {
            Some(TradingState::Halted)
        } else if b == 0x50 {
            Some(TradingState::Paused)
        } else if b == 0x51 {
            Some(TradingState::QuotationOnly)
        } else if b == 0x54 {
            Some(TradingState::Trading)
        } else {
            None
        }
    }

    pub proof fn lemma_code_roundtrip(self)
        ensures
            Self::spec_from_code(self.spec_code()) == Some(self),
    {
    }
}

/// Side of an order.
#[derive(Debug, Clone, Copy, PartialEq, Eq, Structural)]
pub enum Side {
    Buy,
    Sell,
}

impl Side {
    pub open spec fn spec_from_code(b: u8) -> Option<Side> {
        if b == 0x42 {  // 'B'
            Some(Side::Buy)
        } else if b == 0x53 {  // 'S'
            Some(Side::Sell)
        } else {
            None
        }
    }

    pub open spec fn spec_code(self) -> u8 {
        match self {
            Side::Buy => 0x42,
            Side::Sell => 0x53,
        }
    }

    /// Decodes a wire byte; `None` on every byte outside the table.
    pub fn from_code(b: u8) -> (r: Option<Side>)
        ensures
            r == Self::spec_from_code(b),
    {
        if b == 0x42 {
            Some(Side::Buy)
        } else if b == 0x53 {
            Some(Side::Sell)
        } else {
            None
        }
    }

    pub proof fn lemma_code_roundtrip(self)
        ensures
            Self::spec_from_code(self.spec_code()) == Some(self),
    {
    }
}

/// Direction of an auction imbalance.
#[derive(Debug, Clone, Copy, PartialEq, Eq, Structural)]
pub enum ImbalanceDirection {
    Buy,
    Sell,
    NoImbalance,
    InsufficientOrders,
}

impl ImbalanceDirection {
    pub open spec fn spec_from_code(b: u8) -> Option<ImbalanceDirection> {
        if b == 0x42 {  // 'B'
            Some(ImbalanceDirection::Buy)
        } else if b == 0x53 {  // 'S'
            Some(ImbalanceDirection::Sell)
        } else if b == 0x4e {  // 'N'
            Some(ImbalanceDirection::NoImbalance)
        } else if b == 0x4f {  // 'O'
            Some(ImbalanceDirection::InsufficientOrders)
        } else {
            None
        }
    }

    pub open spec fn spec_code(self) -> u8 {
        match self {
            ImbalanceDirection::Buy => 0x42,
            ImbalanceDirection::Sell => 0x53,
            ImbalanceDirection::NoImbalance => 0x4e,
            ImbalanceDirection::InsufficientOrders => 0x4f,
        }
    }

    /// Decodes a wire byte; `None` on every byte outside the table.
    pub fn from_code(b: u8) -> (r: Option<ImbalanceDirection>)
        ensures
            r == Self::spec_from_code(b),
    {
        if b == 0x42 {
            Some(ImbalanceDirection::Buy)
        } else if b == 0x53 {
            Some(ImbalanceDirection::Sell)
        } else if b == 0x4e {
            Some(ImbalanceDirection::NoImbalance)
        } else if b == 0x4f {
            Some(ImbalanceDirection::InsufficientOrders)
        } else {
            None
        }
    }

    pub proof fn lemma_code_roundtrip(self)
        ensures
            Self::spec_from_code(self.spec_code()) == Some(self),
    {
    }
}

/// Kind of auction cross.
#[derive(Debug, Clone, Copy, PartialEq, Eq, Structural)]
pub enum CrossType {
    Opening,
    Closing,
    IpoOrHalted,
    Intraday,
    ExtendedTradingClose,
}

impl CrossType {
    /// The full table, as used by cross-trade messages.
    pub open spec fn spec_from_code(b: u8) -> Option<CrossType> {
        if b == 0x4f {  // 'O'
            Some(CrossType::Opening)
        } else if b == 0x43 {  // 'C'
            Some(CrossType::Closing)
        } else if b == 0x48 {  // 'H'
            Some(CrossType::IpoOrHalted)
        } else if b == 0x49 {  // 'I'
            Some(CrossType::Intraday)
        } else if b == 0x41 {  // 'A'
            Some(CrossType::ExtendedTradingClose)
        } else {
            None
        }
    }

    /// The restricted table of imbalance-indicator messages, which never
    /// carry an intraday cross.
    pub open spec fn spec_from_code_imbalance(b: u8) -> Option<CrossType> {
        if b == 0x49 {  // 'I'
            None
        } else {
            Self::spec_from_code(b)
        }
    }

    pub open spec fn spec_code(self) -> u8 {
        match self {
            CrossType::Opening => 0x4f,
            CrossType::Closing => 0x43,
            CrossType::IpoOrHalted => 0x48,
            CrossType::Intraday => 0x49,
            CrossType::ExtendedTradingClose => 0x41,
        }
    }

    /// Decodes a wire byte; `None` on every byte outside the table.
    pub fn from_code(b: u8) -> (r: Option<CrossType>)
        ensures
            r == Self::spec_from_code(b),
    {
        if b == 0x4f {
            Some(CrossType::Opening)
        } else if b == 0x43 {
            Some(CrossType::Closing)
        } else if b == 0x48 {
            Some(CrossType::IpoOrHalted)
        } else if b == 0x49 {
            Some(CrossType::Intraday)
        } else if b == 0x41 {
            Some(CrossType::ExtendedTradingClose)
        } else {
            None
        }
    }

    /// Decodes a wire byte of an imbalance indicator; `None` on every byte
    /// outside the restricted table.
    pub fn from_code_imbalance(b: u8) -> (r: Option<CrossType>)
        ensures
            r == Self::spec_from_code_imbalance(b),
    {
        if b == 0x49 {
            None
        } else {
            Self::from_code(b)
        }
    }

    pub proof fn lemma_code_roundtrip(self)
        ensures
            Self::spec_from_code(self.spec_code()) == Some(self),
    {
    }
}

/// Qualifier of an IPO quotation release.
#[derive(Debug, Clone, Copy, PartialEq, Eq, Structural)]
pub enum IpoReleaseQualifier {
    Anticipated,
    Cancelled,
}

impl IpoReleaseQualifier {
    pub open spec fn spec_from_code(b: u8) -> Option<IpoReleaseQualifier> {
        if b == 0x41 {  // 'A'
            Some(IpoReleaseQualifier::Anticipated)
        } else if b == 0x43 {  // 'C'
            Some(IpoReleaseQualifier::Cancelled)
        } else {
            None
        }
    }

    pub open spec fn spec_code(self) -> u8 {
        match self {
            IpoReleaseQualifier::Anticipated => 0x41,
            IpoReleaseQualifier::Cancelled => 0x43,
        }
    }

    /// Decodes a wire byte; `None` on every byte outside the table.
    pub fn from_code(b: u8) -> (r: Option<IpoReleaseQualifier>)
        ensures
            r == Self::spec_from_code(b),
    {
        if b == 0x41 {
            Some(IpoReleaseQualifier::Anticipated)
        } else if b == 0x43 {
            Some(IpoReleaseQualifier::Cancelled)
        } else {
            None
        }
    }

    pub proof fn lemma_code_roundtrip(self)
        ensures
            Self::spec_from_code(self.spec_code()) == Some(self),
    {
    }
}

/// Market-wide circuit-breaker level that was breached.
#[derive(Debug, Clone, Copy, PartialEq, Eq, Structural)]
pub enum LevelBreached {
    L1,
    L2,
    L3,
}

impl LevelBreached {
    pub open spec fn spec_from_code(b: u8) -> Option<LevelBreached> {
        if b == 0x31 {  // '1'
            Some(LevelBreached::L1)
        } else if b == 0x32 {  // '2'
            Some(LevelBreached::L2)
        } else if b == 0x33 {  // '3'
            Some(LevelBreached::L3)
        } else {
            None
        }
    }

    pub open spec fn spec_code(self) -> u8 {
        match self {
            LevelBreached::L1 => 0x31,
            LevelBreached::L2 => 0x32,
            LevelBreached::L3 => 0x33,
        }
    }

    /// Decodes a wire byte; `None` on every byte outside the table.
    pub fn from_code(b: u8) -> (r: Option<LevelBreached>)
        ensures
            r == Self::spec_from_code(b),
    {
        if b == 0x31 {
            Some(LevelBreached::L1)
        } else if b == 0x32 {
            Some(LevelBreached::L2)
        } else if b == 0x33 {
            Some(LevelBreached::L3)
        } else {
            None
        }
    }

    pub proof fn lemma_code_roundtrip(self)
        ensures
            Self::spec_from_code(self.spec_code()) == Some(self),
    {
    }
}

/// Retail price-improvement interest.
#[derive(Debug, Clone, Copy, PartialEq, Eq, Structural)]
pub enum InterestFlag {
    RPIAvailableBuySide,
    RPIAvailableSellSide,
    RPIAvailableBothSides,
    RPINoneAvailable,
}

impl InterestFlag {
    pub open spec fn spec_from_code(b: u8) -> Option<InterestFlag> {
        if b == 0x42 {  // 'B'
            Some(InterestFlag::RPIAvailableBuySide)
        } else if b == 0x53 {  // 'S'
            Some(InterestFlag::RPIAvailableSellSide)
        } else if b == 0x41 {  // 'A'
            Some(InterestFlag::RPIAvailableBothSides)
        } else if b == 0x4e {  // 'N'
            Some(InterestFlag::RPINoneAvailable)
        } else {
            None
        }
    }

    pub open spec fn spec_code(self) -> u8 {
        match self {
            InterestFlag::RPIAvailableBuySide => 0x42,
            InterestFlag::RPIAvailableSellSide => 0x53,
            InterestFlag::RPIAvailableBothSides => 0x41,
            InterestFlag::RPINoneAvailable => 0x4e,
        }
    }

    /// Decodes a wire byte; `None` on every byte outside the table.
    pub fn from_code(b: u8) -> (r: Option<InterestFlag>)
        ensures
            r == Self::spec_from_code(b),
    {
        if b == 0x42 {
            Some(InterestFlag::RPIAvailableBuySide)
        } else if b == 0x53 {
            Some(InterestFlag::RPIAvailableSellSide)
        } else if b == 0x41 {
            Some(InterestFlag::RPIAvailableBothSides)
        } else if b == 0x4e {
            Some(InterestFlag::RPINoneAvailable)
        } else {
            None
        }
    }

    pub proof fn lemma_code_roundtrip(self)
        ensures
            Self::spec_from_code(self.spec_code()) == Some(self),
    {
    }
}

} // verus!

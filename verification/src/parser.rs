//! The message catalog and the frame dispatcher.
//!
//! A frame is a two-byte big-endian length prefix, a tag byte, a common
//! header (stock locate, tracking number, 48-bit timestamp) and a body
//! whose layout the tag determines.  Each catalog entry decodes one body
//! layout; `parse_message` reads the prefix and the header and dispatches
//! on the tag.  The spec functions beside the decoders are the wire-format
//! definition: every decoder's contract equates its result with them.
//!
//! A decoder returns `Incomplete` when the window holds too few bytes for
//! the frame — that is a control signal, not an error — and `Fail` when
//! the bytes cannot belong to a well-formed frame: an unknown tag, an
//! enumeration code outside its table, or non-ASCII text.

use vstd::prelude::*;
use crate::enums::{
    EventCode, MarketCategory, FinancialStatus, IssueClassification, IssueSubType,
    LuldRefPriceTier, MarketMakerMode, MarketParticipantState, RegShoAction, TradingState,
    Side, ImbalanceDirection, CrossType, IpoReleaseQualifier, LevelBreached, InterestFlag,
};
use crate::text::{ArrayString4, ArrayString8};
use crate::price::{Price4, Price8};
use crate::errors::ParseErrorKind;
use vstd::pervasive::unreached;
use crate::fields::{
    spec_be_u16, spec_be_u32, spec_be_u48, spec_be_u64, spec_bool_code, spec_maybe_bool_code,
    spec_etp_flag_code, spec_authenticity_code, spec_text4, spec_text8, be_u16, be_u32, be_u48,
    be_u64, char2bool, maybe_char2bool, parse_etp_flag, parse_authenticity, mpid, stock,
};

verus! {

/// Length of the frame prefix plus tag plus common header: two bytes of
/// length, one tag byte, two of stock locate, two of tracking number and
/// six of timestamp.
pub const HEADER_LEN: usize = 13;

/// One decoded message: the common header and the tag-specific body.
#[derive(Debug, Clone, PartialEq)]
pub struct Message {
    /// Message type tag.
    pub tag: u8,
    /// Integer identifying the underlying instrument, assigned per session.
    pub stock_locate: u16,
    /// Exchange-internal tracking number.
    pub tracking_number: u16,
    /// Nanoseconds since midnight (48 significant bits on the wire).
    pub timestamp: u64,
    /// Body of one of the supported message types.
    pub body: Body,
}

/// The tag-specific message body.
#[derive(Debug, Clone, PartialEq)]
pub enum Body {
    AddOrder(AddOrder),
    Breach(LevelBreached),
    BrokenTrade { match_number: u64 },
    CrossTrade(CrossTrade),
    DeleteOrder { reference: u64 },
    Imbalance(ImbalanceIndicator),
    IpoQuotingPeriod(IpoQuotingPeriod),
    LULDAuctionCollar {
        stock: ArrayString8,
        ref_price: Price4,
        upper_price: Price4,
        lower_price: Price4,
        extension: u32,
    },
    MwcbDeclineLevel { level1: Price8, level2: Price8, level3: Price8 },
    NonCrossTrade(NonCrossTrade),
    OrderCancelled { reference: u64, cancelled: u32 },
    OrderExecuted { reference: u64, executed: u32, match_number: u64 },
    OrderExecutedWithPrice {
        reference: u64,
        executed: u32,
        match_number: u64,
        printable: bool,
        price: Price4,
    },
    ParticipantPosition(MarketParticipantPosition),
    RegShoRestriction { stock: ArrayString8, action: RegShoAction },
    ReplaceOrder(ReplaceOrder),
    StockDirectory(StockDirectory),
    SystemEvent { event: EventCode },
    TradingAction { stock: ArrayString8, trading_state: TradingState, reason: ArrayString4 },
    RetailPriceImprovementIndicator(RetailPriceImprovementIndicator),
}

/// Body of a stock-directory message (tag `R`).
#[derive(Debug, Clone, PartialEq)]
pub struct StockDirectory {
    pub stock: ArrayString8,
    pub market_category: MarketCategory,
    pub financial_status: FinancialStatus,
    pub round_lot_size: u32,
    pub round_lots_only: bool,
    pub issue_classification: IssueClassification,
    pub issue_subtype: IssueSubType,
    pub authenticity: bool,
    pub short_sale_threshold: Option<bool>,
    pub ipo_flag: Option<bool>,
    pub luld_ref_price_tier: LuldRefPriceTier,
    pub etp_flag: Option<bool>,
    pub etp_leverage_factor: u32,
    pub inverse_indicator: bool,
}

/// Body of a market-participant position message (tag `L`).
#[derive(Debug, Clone, PartialEq, Eq)]
pub struct MarketParticipantPosition {
    pub mpid: ArrayString4,
    pub stock: ArrayString8,
    pub primary_market_maker: bool,
    pub market_maker_mode: MarketMakerMode,
    pub market_participant_state: MarketParticipantState,
}

/// Body of an add-order message (tags `A` and `F`); `mpid` is present
/// exactly for the attributed form (`F`).
#[derive(Debug, Clone, PartialEq)]
pub struct AddOrder {
    pub reference: u64,
    pub side: Side,
    pub shares: u32,
    pub stock: ArrayString8,
    pub price: Price4,
    pub mpid: Option<ArrayString4>,
}

/// Body of an order-replace message (tag `U`).
#[derive(Debug, Clone, PartialEq)]
pub struct ReplaceOrder {
    pub old_reference: u64,
    pub new_reference: u64,
    pub shares: u32,
    pub price: Price4,
}

/// Body of an imbalance-indicator message (tag `I`).
#[derive(Debug, Clone, PartialEq)]
pub struct ImbalanceIndicator {
    pub paired_shares: u64,
    pub imbalance_shares: u64,
    pub imbalance_direction: ImbalanceDirection,
    pub stock: ArrayString8,
    pub far_price: Price4,
    pub near_price: Price4,
    pub current_ref_price: Price4,
    pub cross_type: CrossType,
    /// The raw price-variation byte, kept verbatim.
    pub price_variation_indicator: u8,
}

/// Body of a cross-trade message (tag `Q`).
#[derive(Debug, Clone, PartialEq)]
pub struct CrossTrade {
    pub shares: u64,
    pub stock: ArrayString8,
    pub cross_price: Price4,
    pub match_number: u64,
    pub cross_type: CrossType,
}

/// Body of a retail price-improvement indicator message (tag `N`).
#[derive(Debug, Clone, PartialEq)]
pub struct RetailPriceImprovementIndicator {
    pub stock: ArrayString8,
    pub interest_flag: InterestFlag,
}

/// Body of a non-cross trade message (tag `P`).
#[derive(Debug, Clone, PartialEq)]
pub struct NonCrossTrade {
    pub reference: u64,
    pub side: Side,
    pub shares: u32,
    pub stock: ArrayString8,
    pub price: Price4,
    pub match_number: u64,
}

/// Body of an IPO quoting-period update (tag `K`).
#[derive(Debug, Clone, PartialEq)]
pub struct IpoQuotingPeriod {
    pub stock: ArrayString8,
    pub release_time: u32,
    pub release_qualifier: IpoReleaseQualifier,
    pub price: Price4,
}

/// Outcome of one decode attempt on a byte window.
#[derive(Debug, Clone, PartialEq)]
pub enum ParseOutcome<T> {
    /// The window holds too few bytes; refill and retry.
    Incomplete,
    /// The bytes cannot belong to a well-formed frame.
    Fail(ParseErrorKind),
    /// A value was decoded from the first `used` bytes of the window.
    Done { value: T, used: usize },
}

/// Lifts a body decode result into an outcome that consumed `used` bytes.
pub open spec fn spec_outcome<T>(res: Result<T, ParseErrorKind>, used: usize) -> ParseOutcome<T> {
    match res {
        Ok(value) => ParseOutcome::Done { value, used },
        Err(k) => ParseOutcome::Fail(k),
    }
}

/// Body length of each catalog entry, `None` for a tag outside the
/// catalog.  The body is everything after the length prefix, the tag and
/// the common header.
pub open spec fn spec_body_len(tag: u8) -> Option<usize> {
    if tag == 0x41 {  // 'A'  add order
        Some(25usize)
    } else if tag == 0x42 {  // 'B'  broken trade
        Some(8usize)
    } else if tag == 0x43 {  // 'C'  order executed with price
        Some(25usize)
    } else if tag == 0x44 {  // 'D'  order deleted
        Some(8usize)
    } else if tag == 0x45 {  // 'E'  order executed
        Some(20usize)
    } else if tag == 0x46 {  // 'F'  add order with attribution
        Some(29usize)
    } else if tag == 0x48 {  // 'H'  trading action
        Some(14usize)
    } else if tag == 0x49 {  // 'I'  imbalance indicator
        Some(39usize)
    } else if tag == 0x4a {  // 'J'  LULD auction collar
        Some(24usize)
    } else if tag == 0x4b {  // 'K'  IPO quoting period
        Some(17usize)
    } else if tag == 0x4c {  // 'L'  participant position
        Some(15usize)
    } else if tag == 0x4e {  // 'N'  retail price improvement
        Some(9usize)
    } else if tag == 0x50 {  // 'P'  non-cross trade
        Some(33usize)
    } else if tag == 0x51 {  // 'Q'  cross trade
        Some(29usize)
    } else if tag == 0x52 {  // 'R'  stock directory
        Some(28usize)
    } else if tag == 0x53 {  // 'S'  system event
        Some(1usize)
    } else if tag == 0x55 {  // 'U'  order replaced
        Some(24usize)
    } else if tag == 0x56 {  // 'V'  MWCB decline level
        Some(24usize)
    } else if tag == 0x57 {  // 'W'  MWCB level breach
        Some(1usize)
    } else if tag == 0x58 {  // 'X'  order cancelled
        Some(12usize)
    } else if tag == 0x59 {  // 'Y'  Reg SHO restriction
        Some(9usize)
    } else {
        None
    }
}

/// The catalog's body length for a tag; `None` marks an unknown tag.
pub fn body_len(tag: u8) -> (r: Option<usize>)
    ensures
        r == spec_body_len(tag),
{
    if tag == 0x41 {
        Some(25)
    } else if tag == 0x42 {
        Some(8)
    } else if tag == 0x43 {
        Some(25)
    } else if tag == 0x44 {
        Some(8)
    } else if tag == 0x45 {
        Some(20)
    } else if tag == 0x46 {
        Some(29)
    } else if tag == 0x48 {
        Some(14)
    } else if tag == 0x49 {
        Some(39)
    } else if tag == 0x4a {
        Some(24)
    } else if tag == 0x4b {
        Some(17)
    } else if tag == 0x4c {
        Some(15)
    } else if tag == 0x4e {
        Some(9)
    } else if tag == 0x50 {
        Some(33)
    } else if tag == 0x51 {
        Some(29)
    } else if tag == 0x52 {
        Some(28)
    } else if tag == 0x53 {
        Some(1)
    } else if tag == 0x55 {
        Some(24)
    } else if tag == 0x56 {
        Some(24)
    } else if tag == 0x57 {
        Some(1)
    } else if tag == 0x58 {
        Some(12)
    } else if tag == 0x59 {
        Some(9)
    } else {
        None
    }
}

// ---------------------------------------------------------------------
// System event (tag `S`)
// ---------------------------------------------------------------------

/// The system-event body held in the one-byte sequence `b`.
pub open spec fn spec_system_event(b: Seq<u8>) -> Result<Body, ParseErrorKind> {
    match EventCode::spec_from_code(b[0]) {
        Some(event) => Ok(Body::SystemEvent { event }),
        None => Err(ParseErrorKind::BadCode(b[0])),
    }
}

/// Decodes a system-event body at `pos`.
pub fn parse_system_event(buf: &Vec<u8>, pos: usize) -> (r: ParseOutcome<Body>)
    requires
        pos <= buf@.len(),
    ensures
        buf@.len() < pos + 1 ==> r is Incomplete,
        pos + 1 <= buf@.len() ==> r == spec_outcome(
            spec_system_event(buf@.subrange(pos as int, pos as int + 1)),
            1usize,
        ),
{
    let end: usize = buf.len();
    if end - pos < 1 {
        return ParseOutcome::Incomplete;
    }
    let ghost b = buf@.subrange(pos as int, pos as int + 1);
    assert(b[0] == buf@[pos as int]);
    match EventCode::from_code(buf[pos]) {
        Some(event) => ParseOutcome::Done { value: Body::SystemEvent { event }, used: 1 },
        None => ParseOutcome::Fail(ParseErrorKind::BadCode(buf[pos])),
    }
}

// ---------------------------------------------------------------------
// Stock directory (tag `R`)
// ---------------------------------------------------------------------

/// The stock-directory body held in the 28-byte sequence `b`.  Fields are
/// checked in wire order, and the first offending field decides the error.
pub open spec fn spec_stock_directory(b: Seq<u8>) -> Result<StockDirectory, ParseErrorKind> {
    let stock = spec_text8(b.subrange(0, 8));
    let market_category = MarketCategory::spec_from_code(b[8]);
    let financial_status = FinancialStatus::spec_from_code(b[9]);
    let round_lots_only = spec_bool_code(b[14]);
    let issue_classification = IssueClassification::spec_from_code(b[15]);
    let issue_subtype = IssueSubType::spec_from_code(b[16], b[17]);
    let authenticity = spec_authenticity_code(b[18]);
    let short_sale_threshold = spec_maybe_bool_code(b[19]);
    let ipo_flag = spec_maybe_bool_code(b[20]);
    let luld_ref_price_tier = LuldRefPriceTier::spec_from_code(b[21]);
    let etp_flag = spec_etp_flag_code(b[22]);
    let inverse_indicator = spec_bool_code(b[27]);
    if stock is Err {
        Err(ParseErrorKind::InvalidText(stock->Err_0))
    } else if market_category is None {
        Err(ParseErrorKind::BadCode(b[8]))
    } else if financial_status is None {
        Err(ParseErrorKind::BadCode(b[9]))
    } else if round_lots_only is None {
        Err(ParseErrorKind::BadCode(b[14]))
    } else if issue_classification is None {
        Err(ParseErrorKind::BadCode(b[15]))
    } else if issue_subtype is None {
        Err(ParseErrorKind::BadCodePair(b[16], b[17]))
    } else if authenticity is None {
        Err(ParseErrorKind::BadCode(b[18]))
    } else if short_sale_threshold is None {
        Err(ParseErrorKind::BadCode(b[19]))
    } else if ipo_flag is None {
        Err(ParseErrorKind::BadCode(b[20]))
    } else if luld_ref_price_tier is None {
        Err(ParseErrorKind::BadCode(b[21]))
    } else if etp_flag is None {
        Err(ParseErrorKind::BadCode(b[22]))
    } else if inverse_indicator is None {
        Err(ParseErrorKind::BadCode(b[27]))
    } else {
        Ok(StockDirectory {
            stock: stock->Ok_0,
            market_category: market_category->Some_0,
            financial_status: financial_status->Some_0,
            round_lot_size: spec_be_u32(b, 10),
            round_lots_only: round_lots_only->Some_0,
            issue_classification: issue_classification->Some_0,
            issue_subtype: issue_subtype->Some_0,
            authenticity: authenticity->Some_0,
            short_sale_threshold: short_sale_threshold->Some_0,
            ipo_flag: ipo_flag->Some_0,
            luld_ref_price_tier: luld_ref_price_tier->Some_0,
            etp_flag: etp_flag->Some_0,
            etp_leverage_factor: spec_be_u32(b, 23),
            inverse_indicator: inverse_indicator->Some_0,
        })
    }
}

/// Decodes a stock-directory body at `pos`.
pub fn parse_stock_directory(buf: &Vec<u8>, pos: usize) -> (r: ParseOutcome<StockDirectory>)
    requires
        pos <= buf@.len(),
    ensures
        buf@.len() < pos + 28 ==> r is Incomplete,
        pos + 28 <= buf@.len() ==> r == spec_outcome(
            spec_stock_directory(buf@.subrange(pos as int, pos as int + 28)),
            28usize,
        ),
{
    let end: usize = buf.len();
    if end - pos < 28 {
        return ParseOutcome::Incomplete;
    }
    let ghost b = buf@.subrange(pos as int, pos as int + 28);
    proof {
        assert forall|k: int| 0 <= k < 28 implies #[trigger] b[k] == buf@[pos as int + k] by {}
        assert(b.subrange(0, 8) =~= buf@.subrange(pos as int, pos as int + 8));
    }
    let stock_field = match stock(buf, pos) {
        Ok(s) => s,
        Err(x) => {
            return ParseOutcome::Fail(ParseErrorKind::InvalidText(x));
        },
    };
    let market_category = match MarketCategory::from_code(buf[pos + 8]) {
        Some(v) => v,
        None => {
            return ParseOutcome::Fail(ParseErrorKind::BadCode(buf[pos + 8]));
        },
    };
    let financial_status = match FinancialStatus::from_code(buf[pos + 9]) {
        Some(v) => v,
        None => {
            return ParseOutcome::Fail(ParseErrorKind::BadCode(buf[pos + 9]));
        },
    };
    let round_lot_size = be_u32(buf, pos + 10);
    let round_lots_only = match char2bool(buf[pos + 14]) {
        Some(v) => v,
        None => {
            return ParseOutcome::Fail(ParseErrorKind::BadCode(buf[pos + 14]));
        },
    };
    let issue_classification = match IssueClassification::from_code(buf[pos + 15]) {
        Some(v) => v,
        None => {
            return ParseOutcome::Fail(ParseErrorKind::BadCode(buf[pos + 15]));
        },
    };
    let issue_subtype = match IssueSubType::from_code(buf[pos + 16], buf[pos + 17]) {
        Some(v) => v,
        None => {
            return ParseOutcome::Fail(ParseErrorKind::BadCodePair(buf[pos + 16], buf[pos + 17]));
        },
    };
    let authenticity = match parse_authenticity(buf[pos + 18]) {
        Some(v) => v,
        None => {
            return ParseOutcome::Fail(ParseErrorKind::BadCode(buf[pos + 18]));
        },
    };
    let short_sale_threshold = match maybe_char2bool(buf[pos + 19]) {
        Some(v) => v,
        None => {
            return ParseOutcome::Fail(ParseErrorKind::BadCode(buf[pos + 19]));
        },
    };
    let ipo_flag = match maybe_char2bool(buf[pos + 20]) {
        Some(v) => v,
        None => {
            return ParseOutcome::Fail(ParseErrorKind::BadCode(buf[pos + 20]));
        },
    };
    let luld_ref_price_tier = match LuldRefPriceTier::from_code(buf[pos + 21]) {
        Some(v) => v,
        None => {
            return ParseOutcome::Fail(ParseErrorKind::BadCode(buf[pos + 21]));
        },
    };
    let etp_flag = match parse_etp_flag(buf[pos + 22]) {
        Some(v) => v,
        None => {
            return ParseOutcome::Fail(ParseErrorKind::BadCode(buf[pos + 22]));
        },
    };
    let etp_leverage_factor = be_u32(buf, pos + 23);
    let inverse_indicator = match char2bool(buf[pos + 27]) {
        Some(v) => v,
        None => {
            return ParseOutcome::Fail(ParseErrorKind::BadCode(buf[pos + 27]));
        },
    };
    ParseOutcome::Done {
        value: StockDirectory {
            stock: stock_field,
            market_category,
            financial_status,
            round_lot_size,
            round_lots_only,
            issue_classification,
            issue_subtype,
            authenticity,
            short_sale_threshold,
            ipo_flag,
            luld_ref_price_tier,
            etp_flag,
            etp_leverage_factor,
            inverse_indicator,
        },
        used: 28,
    }
}

// ---------------------------------------------------------------------
// Market participant position (tag `L`)
// ---------------------------------------------------------------------

/// The participant-position body held in the 15-byte sequence `b`.
pub open spec fn spec_participant_position(b: Seq<u8>) -> Result<
    MarketParticipantPosition,
    ParseErrorKind,
> {
    let pid = spec_text4(b.subrange(0, 4));
    let stock = spec_text8(b.subrange(4, 12));
    let primary_market_maker = spec_bool_code(b[12]);
    let market_maker_mode = MarketMakerMode::spec_from_code(b[13]);
    let market_participant_state = MarketParticipantState::spec_from_code(b[14]);
    if pid is Err {
        Err(ParseErrorKind::InvalidText(pid->Err_0))
    } else if stock is Err {
        Err(ParseErrorKind::InvalidText(stock->Err_0))
    } else if primary_market_maker is None {
        Err(ParseErrorKind::BadCode(b[12]))
    } else if market_maker_mode is None {
        Err(ParseErrorKind::BadCode(b[13]))
    } else if market_participant_state is None {
        Err(ParseErrorKind::BadCode(b[14]))
    } else {
        Ok(MarketParticipantPosition {
            mpid: pid->Ok_0,
            stock: stock->Ok_0,
            primary_market_maker: primary_market_maker->Some_0,
            market_maker_mode: market_maker_mode->Some_0,
            market_participant_state: market_participant_state->Some_0,
        })
    }
}

/// Decodes a participant-position body at `pos`.
pub fn parse_participant_position(buf: &Vec<u8>, pos: usize) -> (r: ParseOutcome<
    MarketParticipantPosition,
>)
    requires
        pos <= buf@.len(),
    ensures
        buf@.len() < pos + 15 ==> r is Incomplete,
        pos + 15 <= buf@.len() ==> r == spec_outcome(
            spec_participant_position(buf@.subrange(pos as int, pos as int + 15)),
            15usize,
        ),
{
    let end: usize = buf.len();
    if end - pos < 15 {
        return ParseOutcome::Incomplete;
    }
    let ghost b = buf@.subrange(pos as int, pos as int + 15);
    proof {
        assert forall|k: int| 0 <= k < 15 implies #[trigger] b[k] == buf@[pos as int + k] by {}
        assert(b.subrange(0, 4) =~= buf@.subrange(pos as int, pos as int + 4));
        assert(b.subrange(4, 12) =~= buf@.subrange(pos as int + 4, pos as int + 12));
    }
    let pid = match mpid(buf, pos) {
        Ok(s) => s,
        Err(x) => {
            return ParseOutcome::Fail(ParseErrorKind::InvalidText(x));
        },
    };
    let stock_field = match stock(buf, pos + 4) {
        Ok(s) => s,
        Err(x) => {
            return ParseOutcome::Fail(ParseErrorKind::InvalidText(x));
        },
    };
    let primary_market_maker = match char2bool(buf[pos + 12]) {
        Some(v) => v,
        None => {
            return ParseOutcome::Fail(ParseErrorKind::BadCode(buf[pos + 12]));
        },
    };
    let market_maker_mode = match MarketMakerMode::from_code(buf[pos + 13]) {
        Some(v) => v,
        None => {
            return ParseOutcome::Fail(ParseErrorKind::BadCode(buf[pos + 13]));
        },
    };
    let market_participant_state = match MarketParticipantState::from_code(buf[pos + 14]) {
        Some(v) => v,
        None => {
            return ParseOutcome::Fail(ParseErrorKind::BadCode(buf[pos + 14]));
        },
    };
    ParseOutcome::Done {
        value: MarketParticipantPosition {
            mpid: pid,
            stock: stock_field,
            primary_market_maker,
            market_maker_mode,
            market_participant_state,
        },
        used: 15,
    }
}

// ---------------------------------------------------------------------
// Reg SHO restriction (tag `Y`)
// ---------------------------------------------------------------------

/// The Reg SHO body held in the 9-byte sequence `b`.
pub open spec fn spec_reg_sho_restriction(b: Seq<u8>) -> Result<Body, ParseErrorKind> {
    let stock = spec_text8(b.subrange(0, 8));
    let action = RegShoAction::spec_from_code(b[8]);
    if stock is Err {
        Err(ParseErrorKind::InvalidText(stock->Err_0))
    } else if action is None {
        Err(ParseErrorKind::BadCode(b[8]))
    } else {
        Ok(Body::RegShoRestriction { stock: stock->Ok_0, action: action->Some_0 })
    }
}

/// Decodes a Reg SHO restriction body at `pos`.
pub fn parse_reg_sho_restriction(buf: &Vec<u8>, pos: usize) -> (r: ParseOutcome<Body>)
    requires
        pos <= buf@.len(),
    ensures
        buf@.len() < pos + 9 ==> r is Incomplete,
        pos + 9 <= buf@.len() ==> r == spec_outcome(
            spec_reg_sho_restriction(buf@.subrange(pos as int, pos as int + 9)),
            9usize,
        ),
{
    let end: usize = buf.len();
    if end - pos < 9 {
        return ParseOutcome::Incomplete;
    }
    let ghost b = buf@.subrange(pos as int, pos as int + 9);
    proof {
        assert forall|k: int| 0 <= k < 9 implies #[trigger] b[k] == buf@[pos as int + k] by {}
        assert(b.subrange(0, 8) =~= buf@.subrange(pos as int, pos as int + 8));
    }
    let stock_field = match stock(buf, pos) {
        Ok(s) => s,
        Err(x) => {
            return ParseOutcome::Fail(ParseErrorKind::InvalidText(x));
        },
    };
    let action = match RegShoAction::from_code(buf[pos + 8]) {
        Some(v) => v,
        None => {
            return ParseOutcome::Fail(ParseErrorKind::BadCode(buf[pos + 8]));
        },
    };
    ParseOutcome::Done {
        value: Body::RegShoRestriction { stock: stock_field, action },
        used: 9,
    }
}

// ---------------------------------------------------------------------
// Trading action (tag `H`)
// ---------------------------------------------------------------------

/// The trading-action body held in the 14-byte sequence `b`.  The byte at
/// offset 9 is reserved and skipped.
pub open spec fn spec_trading_action(b: Seq<u8>) -> Result<Body, ParseErrorKind> {
    let stock = spec_text8(b.subrange(0, 8));
    let trading_state = TradingState::spec_from_code(b[8]);
    let reason = spec_text4(b.subrange(10, 14));
    if stock is Err {
        Err(ParseErrorKind::InvalidText(stock->Err_0))
    } else if trading_state is None {
        Err(ParseErrorKind::BadCode(b[8]))
    } else if reason is Err {
        Err(ParseErrorKind::InvalidText(reason->Err_0))
    } else {
        Ok(Body::TradingAction {
            stock: stock->Ok_0,
            trading_state: trading_state->Some_0,
            reason: reason->Ok_0,
        })
    }
}

/// Decodes a trading-action body at `pos`.
pub fn parse_trading_action(buf: &Vec<u8>, pos: usize) -> (r: ParseOutcome<Body>)
    requires
        pos <= buf@.len(),
    ensures
        buf@.len() < pos + 14 ==> r is Incomplete,
        pos + 14 <= buf@.len() ==> r == spec_outcome(
            spec_trading_action(buf@.subrange(pos as int, pos as int + 14)),
            14usize,
        ),
{
    let end: usize = buf.len();
    if end - pos < 14 {
        return ParseOutcome::Incomplete;
    }
    let ghost b = buf@.subrange(pos as int, pos as int + 14);
    proof {
        assert forall|k: int| 0 <= k < 14 implies #[trigger] b[k] == buf@[pos as int + k] by {}
        assert(b.subrange(0, 8) =~= buf@.subrange(pos as int, pos as int + 8));
        assert(b.subrange(10, 14) =~= buf@.subrange(pos as int + 10, pos as int + 14));
    }
    let stock_field = match stock(buf, pos) {
        Ok(s) => s,
        Err(x) => {
            return ParseOutcome::Fail(ParseErrorKind::InvalidText(x));
        },
    };
    let trading_state = match TradingState::from_code(buf[pos + 8]) {
        Some(v) => v,
        None => {
            return ParseOutcome::Fail(ParseErrorKind::BadCode(buf[pos + 8]));
        },
    };
    let reason = match mpid(buf, pos + 10) {
        Ok(s) => s,
        Err(x) => {
            return ParseOutcome::Fail(ParseErrorKind::InvalidText(x));
        },
    };
    ParseOutcome::Done {
        value: Body::TradingAction { stock: stock_field, trading_state, reason },
        used: 14,
    }
}

// ---------------------------------------------------------------------
// Add order (tags `A` and `F`)
// ---------------------------------------------------------------------

/// The add-order body held in `b` (25 bytes, or 29 with attribution).
pub open spec fn spec_add_order(b: Seq<u8>, attribution: bool) -> Result<AddOrder, ParseErrorKind> {
    let side = Side::spec_from_code(b[8]);
    let stock = spec_text8(b.subrange(13, 21));
    let pid = spec_text4(b.subrange(25, 29));
    if side is None {
        Err(ParseErrorKind::BadCode(b[8]))
    } else if stock is Err {
        Err(ParseErrorKind::InvalidText(stock->Err_0))
    } else if attribution && pid is Err {
        Err(ParseErrorKind::InvalidText(pid->Err_0))
    } else {
        Ok(AddOrder {
            reference: spec_be_u64(b, 0),
            side: side->Some_0,
            shares: spec_be_u32(b, 9),
            stock: stock->Ok_0,
            price: Price4(spec_be_u32(b, 21)),
            mpid: if attribution {
                Some(pid->Ok_0)
            } else {
                None
            },
        })
    }
}

/// Decodes an add-order body at `pos`; `attribution` selects the
/// attributed (`F`) layout with its trailing participant identifier.
pub fn parse_add_order(buf: &Vec<u8>, pos: usize, attribution: bool) -> (r: ParseOutcome<AddOrder>)
    requires
        pos <= buf@.len(),
    ensures
        !attribution && buf@.len() < pos + 25 ==> r is Incomplete,
        !attribution && pos + 25 <= buf@.len() ==> r == spec_outcome(
            spec_add_order(buf@.subrange(pos as int, pos as int + 25), false),
            25usize,
        ),
        attribution && buf@.len() < pos + 29 ==> r is Incomplete,
        attribution && pos + 29 <= buf@.len() ==> r == spec_outcome(
            spec_add_order(buf@.subrange(pos as int, pos as int + 29), true),
            29usize,
        ),
{
    let end: usize = buf.len();
    let width: usize = if attribution { 29 } else { 25 };
    if end - pos < width {
        return ParseOutcome::Incomplete;
    }
    let ghost b = buf@.subrange(pos as int, pos as int + width as int);
    proof {
        assert forall|k: int| 0 <= k < width implies #[trigger] b[k] == buf@[pos as int + k] by {}
        assert(b.subrange(13, 21) =~= buf@.subrange(pos as int + 13, pos as int + 21));
    }
    let side = match Side::from_code(buf[pos + 8]) {
        Some(v) => v,
        None => {
            return ParseOutcome::Fail(ParseErrorKind::BadCode(buf[pos + 8]));
        },
    };
    let stock_field = match stock(buf, pos + 13) {
        Ok(s) => s,
        Err(x) => {
            return ParseOutcome::Fail(ParseErrorKind::InvalidText(x));
        },
    };
    let order_mpid = if attribution {
        proof {
            assert(b.subrange(25, 29) =~= buf@.subrange(pos as int + 25, pos as int + 29));
        }
        match mpid(buf, pos + 25) {
            Ok(s) => Some(s),
            Err(x) => {
                return ParseOutcome::Fail(ParseErrorKind::InvalidText(x));
            },
        }
    } else {
        None
    };
    ParseOutcome::Done {
        value: AddOrder {
            reference: be_u64(buf, pos),
            side,
            shares: be_u32(buf, pos + 9),
            stock: stock_field,
            price: Price4(be_u32(buf, pos + 21)),
            mpid: order_mpid,
        },
        used: width,
    }
}

// ---------------------------------------------------------------------
// Order replaced (tag `U`)
// ---------------------------------------------------------------------

/// The order-replace body held in the 24-byte sequence `b`; no field of it
/// can fail.
pub open spec fn spec_replace_order(b: Seq<u8>) -> Result<ReplaceOrder, ParseErrorKind> {
    Ok(ReplaceOrder {
        old_reference: spec_be_u64(b, 0),
        new_reference: spec_be_u64(b, 8),
        shares: spec_be_u32(b, 16),
        price: Price4(spec_be_u32(b, 20)),
    })
}

/// Decodes an order-replace body at `pos`.
pub fn parse_replace_order(buf: &Vec<u8>, pos: usize) -> (r: ParseOutcome<ReplaceOrder>)
    requires
        pos <= buf@.len(),
    ensures
        buf@.len() < pos + 24 ==> r is Incomplete,
        pos + 24 <= buf@.len() ==> r == spec_outcome(
            spec_replace_order(buf@.subrange(pos as int, pos as int + 24)),
            24usize,
        ),
{
    let end: usize = buf.len();
    if end - pos < 24 {
        return ParseOutcome::Incomplete;
    }
    let ghost b = buf@.subrange(pos as int, pos as int + 24);
    proof {
        assert forall|k: int| 0 <= k < 24 implies #[trigger] b[k] == buf@[pos as int + k] by {}
    }
    ParseOutcome::Done {
        value: ReplaceOrder {
            old_reference: be_u64(buf, pos),
            new_reference: be_u64(buf, pos + 8),
            shares: be_u32(buf, pos + 16),
            price: Price4(be_u32(buf, pos + 20)),
        },
        used: 24,
    }
}

// ---------------------------------------------------------------------
// Imbalance indicator (tag `I`)
// ---------------------------------------------------------------------

/// The imbalance-indicator body held in the 39-byte sequence `b`.  Its
/// cross-type field uses the restricted table without the intraday cross;
/// the price-variation byte is kept verbatim.
pub open spec fn spec_imbalance_indicator(b: Seq<u8>) -> Result<
    ImbalanceIndicator,
    ParseErrorKind,
> {
    let imbalance_direction = ImbalanceDirection::spec_from_code(b[16]);
    let stock = spec_text8(b.subrange(17, 25));
    let cross_type = CrossType::spec_from_code_imbalance(b[37]);
    if imbalance_direction is None {
        Err(ParseErrorKind::BadCode(b[16]))
    } else if stock is Err {
        Err(ParseErrorKind::InvalidText(stock->Err_0))
    } else if cross_type is None {
        Err(ParseErrorKind::BadCode(b[37]))
    } else {
        Ok(ImbalanceIndicator {
            paired_shares: spec_be_u64(b, 0),
            imbalance_shares: spec_be_u64(b, 8),
            imbalance_direction: imbalance_direction->Some_0,
            stock: stock->Ok_0,
            far_price: Price4(spec_be_u32(b, 25)),
            near_price: Price4(spec_be_u32(b, 29)),
            current_ref_price: Price4(spec_be_u32(b, 33)),
            cross_type: cross_type->Some_0,
            price_variation_indicator: b[38],
        })
    }
}

/// Decodes an imbalance-indicator body at `pos`.
pub fn parse_imbalance_indicator(buf: &Vec<u8>, pos: usize) -> (r: ParseOutcome<
    ImbalanceIndicator,
>)
    requires
        pos <= buf@.len(),
    ensures
        buf@.len() < pos + 39 ==> r is Incomplete,
        pos + 39 <= buf@.len() ==> r == spec_outcome(
            spec_imbalance_indicator(buf@.subrange(pos as int, pos as int + 39)),
            39usize,
        ),
{
    let end: usize = buf.len();
    if end - pos < 39 {
        return ParseOutcome::Incomplete;
    }
    let ghost b = buf@.subrange(pos as int, pos as int + 39);
    proof {
        assert forall|k: int| 0 <= k < 39 implies #[trigger] b[k] == buf@[pos as int + k] by {}
        assert(b.subrange(17, 25) =~= buf@.subrange(pos as int + 17, pos as int + 25));
    }
    let imbalance_direction = match ImbalanceDirection::from_code(buf[pos + 16]) {
        Some(v) => v,
        None => {
            return ParseOutcome::Fail(ParseErrorKind::BadCode(buf[pos + 16]));
        },
    };
    let stock_field = match stock(buf, pos + 17) {
        Ok(s) => s,
        Err(x) => {
            return ParseOutcome::Fail(ParseErrorKind::InvalidText(x));
        },
    };
    let cross_type = match CrossType::from_code_imbalance(buf[pos + 37]) {
        Some(v) => v,
        None => {
            return ParseOutcome::Fail(ParseErrorKind::BadCode(buf[pos + 37]));
        },
    };
    ParseOutcome::Done {
        value: ImbalanceIndicator {
            paired_shares: be_u64(buf, pos),
            imbalance_shares: be_u64(buf, pos + 8),
            imbalance_direction,
            stock: stock_field,
            far_price: Price4(be_u32(buf, pos + 25)),
            near_price: Price4(be_u32(buf, pos + 29)),
            current_ref_price: Price4(be_u32(buf, pos + 33)),
            cross_type,
            price_variation_indicator: buf[pos + 38],
        },
        used: 39,
    }
}

// ---------------------------------------------------------------------
// Cross trade (tag `Q`)
// ---------------------------------------------------------------------

/// The cross-trade body held in the 29-byte sequence `b`.
pub open spec fn spec_cross_trade(b: Seq<u8>) -> Result<CrossTrade, ParseErrorKind> {
    let stock = spec_text8(b.subrange(8, 16));
    let cross_type = CrossType::spec_from_code(b[28]);
    if stock is Err {
        Err(ParseErrorKind::InvalidText(stock->Err_0))
    } else if cross_type is None {
        Err(ParseErrorKind::BadCode(b[28]))
    } else {
        Ok(CrossTrade {
            shares: spec_be_u64(b, 0),
            stock: stock->Ok_0,
            cross_price: Price4(spec_be_u32(b, 16)),
            match_number: spec_be_u64(b, 20),
            cross_type: cross_type->Some_0,
        })
    }
}

/// Decodes a cross-trade body at `pos`.
pub fn parse_cross_trade(buf: &Vec<u8>, pos: usize) -> (r: ParseOutcome<CrossTrade>)
    requires
        pos <= buf@.len(),
    ensures
        buf@.len() < pos + 29 ==> r is Incomplete,
        pos + 29 <= buf@.len() ==> r == spec_outcome(
            spec_cross_trade(buf@.subrange(pos as int, pos as int + 29)),
            29usize,
        ),
{
    let end: usize = buf.len();
    if end - pos < 29 {
        return ParseOutcome::Incomplete;
    }
    let ghost b = buf@.subrange(pos as int, pos as int + 29);
    proof {
        assert forall|k: int| 0 <= k < 29 implies #[trigger] b[k] == buf@[pos as int + k] by {}
        assert(b.subrange(8, 16) =~= buf@.subrange(pos as int + 8, pos as int + 16));
    }
    let stock_field = match stock(buf, pos + 8) {
        Ok(s) => s,
        Err(x) => {
            return ParseOutcome::Fail(ParseErrorKind::InvalidText(x));
        },
    };
    let cross_type = match CrossType::from_code(buf[pos + 28]) {
        Some(v) => v,
        None => {
            return ParseOutcome::Fail(ParseErrorKind::BadCode(buf[pos + 28]));
        },
    };
    ParseOutcome::Done {
        value: CrossTrade {
            shares: be_u64(buf, pos),
            stock: stock_field,
            cross_price: Price4(be_u32(buf, pos + 16)),
            match_number: be_u64(buf, pos + 20),
            cross_type,
        },
        used: 29,
    }
}

// ---------------------------------------------------------------------
// Retail price-improvement indicator (tag `N`)
// ---------------------------------------------------------------------

/// The retail price-improvement body held in the 9-byte sequence `b`.
pub open spec fn spec_retail_price_improvement_indicator(b: Seq<u8>) -> Result<
    RetailPriceImprovementIndicator,
    ParseErrorKind,
> {
    let stock = spec_text8(b.subrange(0, 8));
    let interest_flag = InterestFlag::spec_from_code(b[8]);
    if stock is Err {
        Err(ParseErrorKind::InvalidText(stock->Err_0))
    } else if interest_flag is None {
        Err(ParseErrorKind::BadCode(b[8]))
    } else {
        Ok(RetailPriceImprovementIndicator {
            stock: stock->Ok_0,
            interest_flag: interest_flag->Some_0,
        })
    }
}

/// Decodes a retail price-improvement body at `pos`.
pub fn parse_retail_price_improvement_indicator(buf: &Vec<u8>, pos: usize) -> (r: ParseOutcome<
    RetailPriceImprovementIndicator,
>)
    requires
        pos <= buf@.len(),
    ensures
        buf@.len() < pos + 9 ==> r is Incomplete,
        pos + 9 <= buf@.len() ==> r == spec_outcome(
            spec_retail_price_improvement_indicator(buf@.subrange(pos as int, pos as int + 9)),
            9usize,
        ),
{
    let end: usize = buf.len();
    if end - pos < 9 {
        return ParseOutcome::Incomplete;
    }
    let ghost b = buf@.subrange(pos as int, pos as int + 9);
    proof {
        assert forall|k: int| 0 <= k < 9 implies #[trigger] b[k] == buf@[pos as int + k] by {}
        assert(b.subrange(0, 8) =~= buf@.subrange(pos as int, pos as int + 8));
    }
    let stock_field = match stock(buf, pos) {
        Ok(s) => s,
        Err(x) => {
            return ParseOutcome::Fail(ParseErrorKind::InvalidText(x));
        },
    };
    let interest_flag = match InterestFlag::from_code(buf[pos + 8]) {
        Some(v) => v,
        None => {
            return ParseOutcome::Fail(ParseErrorKind::BadCode(buf[pos + 8]));
        },
    };
    ParseOutcome::Done {
        value: RetailPriceImprovementIndicator { stock: stock_field, interest_flag },
        used: 9,
    }
}

// ---------------------------------------------------------------------
// Non-cross trade (tag `P`)
// ---------------------------------------------------------------------

/// The non-cross trade body held in the 33-byte sequence `b`.
pub open spec fn spec_noncross_trade(b: Seq<u8>) -> Result<NonCrossTrade, ParseErrorKind> {
    let side = Side::spec_from_code(b[8]);
    let stock = spec_text8(b.subrange(13, 21));
    if side is None {
        Err(ParseErrorKind::BadCode(b[8]))
    } else if stock is Err {
        Err(ParseErrorKind::InvalidText(stock->Err_0))
    } else {
        Ok(NonCrossTrade {
            reference: spec_be_u64(b, 0),
            side: side->Some_0,
            shares: spec_be_u32(b, 9),
            stock: stock->Ok_0,
            price: Price4(spec_be_u32(b, 21)),
            match_number: spec_be_u64(b, 25),
        })
    }
}

/// Decodes a non-cross trade body at `pos`.
pub fn parse_noncross_trade(buf: &Vec<u8>, pos: usize) -> (r: ParseOutcome<NonCrossTrade>)
    requires
        pos <= buf@.len(),
    ensures
        buf@.len() < pos + 33 ==> r is Incomplete,
        pos + 33 <= buf@.len() ==> r == spec_outcome(
            spec_noncross_trade(buf@.subrange(pos as int, pos as int + 33)),
            33usize,
        ),
{
    let end: usize = buf.len();
    if end - pos < 33 {
        return ParseOutcome::Incomplete;
    }
    let ghost b = buf@.subrange(pos as int, pos as int + 33);
    proof {
        assert forall|k: int| 0 <= k < 33 implies #[trigger] b[k] == buf@[pos as int + k] by {}
        assert(b.subrange(13, 21) =~= buf@.subrange(pos as int + 13, pos as int + 21));
    }
    let side = match Side::from_code(buf[pos + 8]) {
        Some(v) => v,
        None => {
            return ParseOutcome::Fail(ParseErrorKind::BadCode(buf[pos + 8]));
        },
    };
    let stock_field = match stock(buf, pos + 13) {
        Ok(s) => s,
        Err(x) => {
            return ParseOutcome::Fail(ParseErrorKind::InvalidText(x));
        },
    };
    ParseOutcome::Done {
        value: NonCrossTrade {
            reference: be_u64(buf, pos),
            side,
            shares: be_u32(buf, pos + 9),
            stock: stock_field,
            price: Price4(be_u32(buf, pos + 21)),
            match_number: be_u64(buf, pos + 25),
        },
        used: 33,
    }
}

// ---------------------------------------------------------------------
// IPO quoting period (tag `K`)
// ---------------------------------------------------------------------

/// The IPO quoting-period body held in the 17-byte sequence `b`.
pub open spec fn spec_ipo_quoting_period(b: Seq<u8>) -> Result<IpoQuotingPeriod, ParseErrorKind> {
    let stock = spec_text8(b.subrange(0, 8));
    let release_qualifier = IpoReleaseQualifier::spec_from_code(b[12]);
    if stock is Err {
        Err(ParseErrorKind::InvalidText(stock->Err_0))
    } else if release_qualifier is None {
        Err(ParseErrorKind::BadCode(b[12]))
    } else {
        Ok(IpoQuotingPeriod {
            stock: stock->Ok_0,
            release_time: spec_be_u32(b, 8),
            release_qualifier: release_qualifier->Some_0,
            price: Price4(spec_be_u32(b, 13)),
        })
    }
}

/// Decodes an IPO quoting-period body at `pos`.
pub fn parse_ipo_quoting_period(buf: &Vec<u8>, pos: usize) -> (r: ParseOutcome<IpoQuotingPeriod>)
    requires
        pos <= buf@.len(),
    ensures
        buf@.len() < pos + 17 ==> r is Incomplete,
        pos + 17 <= buf@.len() ==> r == spec_outcome(
            spec_ipo_quoting_period(buf@.subrange(pos as int, pos as int + 17)),
            17usize,
        ),
{
    let end: usize = buf.len();
    if end - pos < 17 {
        return ParseOutcome::Incomplete;
    }
    let ghost b = buf@.subrange(pos as int, pos as int + 17);
    proof {
        assert forall|k: int| 0 <= k < 17 implies #[trigger] b[k] == buf@[pos as int + k] by {}
        assert(b.subrange(0, 8) =~= buf@.subrange(pos as int, pos as int + 8));
    }
    let stock_field = match stock(buf, pos) {
        Ok(s) => s,
        Err(x) => {
            return ParseOutcome::Fail(ParseErrorKind::InvalidText(x));
        },
    };
    let release_qualifier = match IpoReleaseQualifier::from_code(buf[pos + 12]) {
        Some(v) => v,
        None => {
            return ParseOutcome::Fail(ParseErrorKind::BadCode(buf[pos + 12]));
        },
    };
    ParseOutcome::Done {
        value: IpoQuotingPeriod {
            stock: stock_field,
            release_time: be_u32(buf, pos + 8),
            release_qualifier,
            price: Price4(be_u32(buf, pos + 13)),
        },
        used: 17,
    }
}

// ---------------------------------------------------------------------
// Frame dispatch
// ---------------------------------------------------------------------

/// The body of a frame with tag `tag`, held in the exact body sequence
/// `b` (of length `spec_body_len(tag)`), as a `Body` variant.  Entries
/// whose whole body is a few fixed integers are decoded inline here; the
/// others delegate to their catalog spec function.
#[verifier::opaque]
pub open spec fn spec_message_body(tag: u8, b: Seq<u8>) -> Result<Body, ParseErrorKind> {
    if tag == 0x41 {  // 'A'
        match spec_add_order(b, false) {
            Ok(v) => Ok(Body::AddOrder(v)),
            Err(k) => Err(k),
        }
    } else if tag == 0x42 {  // 'B'
        Ok(Body::BrokenTrade { match_number: spec_be_u64(b, 0) })
    } else if tag == 0x43 {  // 'C'
        match spec_bool_code(b[20]) {
            None => Err(ParseErrorKind::BadCode(b[20])),
            Some(printable) => Ok(Body::OrderExecutedWithPrice {
                reference: spec_be_u64(b, 0),
                executed: spec_be_u32(b, 8),
                match_number: spec_be_u64(b, 12),
                printable,
                price: Price4(spec_be_u32(b, 21)),
            }),
        }
    } else if tag == 0x44 {  // 'D'
        Ok(Body::DeleteOrder { reference: spec_be_u64(b, 0) })
    } else if tag == 0x45 {  // 'E'
        Ok(Body::OrderExecuted {
            reference: spec_be_u64(b, 0),
            executed: spec_be_u32(b, 8),
            match_number: spec_be_u64(b, 12),
        })
    } else if tag == 0x46 {  // 'F'
        match spec_add_order(b, true) {
            Ok(v) => Ok(Body::AddOrder(v)),
            Err(k) => Err(k),
        }
    } else if tag == 0x48 {  // 'H'
        spec_trading_action(b)
    } else if tag == 0x49 {  // 'I'
        match spec_imbalance_indicator(b) {
            Ok(v) => Ok(Body::Imbalance(v)),
            Err(k) => Err(k),
        }
    } else if tag == 0x4a {  // 'J'
        match spec_text8(b.subrange(0, 8)) {
            Err(x) => Err(ParseErrorKind::InvalidText(x)),
            Ok(stock) => Ok(Body::LULDAuctionCollar {
                stock,
                ref_price: Price4(spec_be_u32(b, 8)),
                upper_price: Price4(spec_be_u32(b, 12)),
                lower_price: Price4(spec_be_u32(b, 16)),
                extension: spec_be_u32(b, 20),
            }),
        }
    } else if tag == 0x4b {  // 'K'
        match spec_ipo_quoting_period(b) {
            Ok(v) => Ok(Body::IpoQuotingPeriod(v)),
            Err(k) => Err(k),
        }
    } else if tag == 0x4c {  // 'L'
        match spec_participant_position(b) {
            Ok(v) => Ok(Body::ParticipantPosition(v)),
            Err(k) => Err(k),
        }
    } else if tag == 0x4e {  // 'N'
        match spec_retail_price_improvement_indicator(b) {
            Ok(v) => Ok(Body::RetailPriceImprovementIndicator(v)),
            Err(k) => Err(k),
        }
    } else if tag == 0x50 {  // 'P'
        match spec_noncross_trade(b) {
            Ok(v) => Ok(Body::NonCrossTrade(v)),
            Err(k) => Err(k),
        }
    } else if tag == 0x51 {  // 'Q'
        match spec_cross_trade(b) {
            Ok(v) => Ok(Body::CrossTrade(v)),
            Err(k) => Err(k),
        }
    } else if tag == 0x52 {  // 'R'
        match spec_stock_directory(b) {
            Ok(v) => Ok(Body::StockDirectory(v)),
            Err(k) => Err(k),
        }
    } else if tag == 0x53 {  // 'S'
        spec_system_event(b)
    } else if tag == 0x55 {  // 'U'
        match spec_replace_order(b) {
            Ok(v) => Ok(Body::ReplaceOrder(v)),
            Err(k) => Err(k),
        }
    } else if tag == 0x56 {  // 'V'
        Ok(Body::MwcbDeclineLevel {
            level1: Price8(spec_be_u64(b, 0)),
            level2: Price8(spec_be_u64(b, 8)),
            level3: Price8(spec_be_u64(b, 16)),
        })
    } else if tag == 0x57 {  // 'W'
        match LevelBreached::spec_from_code(b[0]) {
            None => Err(ParseErrorKind::BadCode(b[0])),
            Some(level) => Ok(Body::Breach(level)),
        }
    } else if tag == 0x58 {  // 'X'
        Ok(Body::OrderCancelled {
            reference: spec_be_u64(b, 0),
            cancelled: spec_be_u32(b, 8),
        })
    } else if tag == 0x59 {  // 'Y'
        spec_reg_sho_restriction(b)
    } else {
        Err(ParseErrorKind::UnknownTag(tag))
    }
}

/// One decode attempt on the window `w`: the wire-format definition of a
/// frame.  Fewer than thirteen bytes, or fewer than the tag's frame
/// length, is an incomplete frame; a tag outside the catalog is a hard
/// failure; otherwise the header and the body decide.  The length prefix
/// is read and not interpreted: framing goes by the catalog's exact
/// per-type sizes.
#[verifier::opaque]
pub open spec fn spec_parse_message(w: Seq<u8>) -> ParseOutcome<Message> {
    if w.len() < HEADER_LEN {
        ParseOutcome::Incomplete
    } else {
        let tag = w[2];
        match spec_body_len(tag) {
            None => ParseOutcome::Fail(ParseErrorKind::UnknownTag(tag)),
            Some(bl) => if w.len() < HEADER_LEN + bl {
                ParseOutcome::Incomplete
            } else {
                let b = w.subrange(HEADER_LEN as int, HEADER_LEN + bl);
                match spec_message_body(tag, b) {
                    Err(k) => ParseOutcome::Fail(k),
                    Ok(body) => ParseOutcome::Done {
                        value: Message {
                            tag,
                            stock_locate: spec_be_u16(w, 3),
                            tracking_number: spec_be_u16(w, 5),
                            timestamp: spec_be_u48(w, 7),
                            body,
                        },
                        used: (HEADER_LEN + bl) as usize,
                    },
                }
            },
        }
    }
}

/// Decodes the body of a frame with tag `tag` at `bpos`, where `bl` is
/// that tag's body length and the window holds the whole body.
#[verifier::rlimit(100)]
#[verifier::spinoff_prover]
fn parse_message_body(buf: &Vec<u8>, bpos: usize, tag: u8, bl: usize) -> (r: ParseOutcome<Body>)
    requires
        spec_body_len(tag) == Some(bl),
        bpos + bl <= buf@.len(),
    ensures
        r == spec_outcome(
            spec_message_body(tag, buf@.subrange(bpos as int, bpos as int + bl as int)),
            bl,
        ),
{
    proof {
        reveal(spec_message_body);
    }
    let end: usize = buf.len();
    assert(bpos + bl <= end);
    let ghost b = buf@.subrange(bpos as int, bpos as int + bl as int);
    proof {
        assert forall|k: int| 0 <= k < bl implies #[trigger] b[k] == buf@[bpos as int + k] by {}
    }
    if tag == 0x41 {
        match parse_add_order(buf, bpos, false) {
            ParseOutcome::Done { value, used } => ParseOutcome::Done {
                value: Body::AddOrder(value),
                used,
            },
            ParseOutcome::Fail(k) => ParseOutcome::Fail(k),
            ParseOutcome::Incomplete => unreached(),
        }
    } else if tag == 0x42 {
        ParseOutcome::Done { value: Body::BrokenTrade { match_number: be_u64(buf, bpos) }, used: bl }
    } else if tag == 0x43 {
        match char2bool(buf[bpos + 20]) {
            None => ParseOutcome::Fail(ParseErrorKind::BadCode(buf[bpos + 20])),
            Some(printable) => ParseOutcome::Done {
                value: Body::OrderExecutedWithPrice {
                    reference: be_u64(buf, bpos),
                    executed: be_u32(buf, bpos + 8),
                    match_number: be_u64(buf, bpos + 12),
                    printable,
                    price: Price4(be_u32(buf, bpos + 21)),
                },
                used: bl,
            },
        }
    } else if tag == 0x44 {
        ParseOutcome::Done { value: Body::DeleteOrder { reference: be_u64(buf, bpos) }, used: bl }
    } else if tag == 0x45 {
        ParseOutcome::Done {
            value: Body::OrderExecuted {
                reference: be_u64(buf, bpos),
                executed: be_u32(buf, bpos + 8),
                match_number: be_u64(buf, bpos + 12),
            },
            used: bl,
        }
    } else if tag == 0x46 {
        match parse_add_order(buf, bpos, true) {
            ParseOutcome::Done { value, used } => ParseOutcome::Done {
                value: Body::AddOrder(value),
                used,
            },
            ParseOutcome::Fail(k) => ParseOutcome::Fail(k),
            ParseOutcome::Incomplete => unreached(),
        }
    } else if tag == 0x48 {
        match parse_trading_action(buf, bpos) {
            ParseOutcome::Done { value, used } => ParseOutcome::Done { value, used },
            ParseOutcome::Fail(k) => ParseOutcome::Fail(k),
            ParseOutcome::Incomplete => unreached(),
        }
    } else if tag == 0x49 {
        match parse_imbalance_indicator(buf, bpos) {
            ParseOutcome::Done { value, used } => ParseOutcome::Done {
                value: Body::Imbalance(value),
                used,
            },
            ParseOutcome::Fail(k) => ParseOutcome::Fail(k),
            ParseOutcome::Incomplete => unreached(),
        }
    } else if tag == 0x4a {
        proof {
            assert(b.subrange(0, 8) =~= buf@.subrange(bpos as int, bpos as int + 8));
        }
        match stock(buf, bpos) {
            Err(x) => ParseOutcome::Fail(ParseErrorKind::InvalidText(x)),
            Ok(stock_field) => ParseOutcome::Done {
                value: Body::LULDAuctionCollar {
                    stock: stock_field,
                    ref_price: Price4(be_u32(buf, bpos + 8)),
                    upper_price: Price4(be_u32(buf, bpos + 12)),
                    lower_price: Price4(be_u32(buf, bpos + 16)),
                    extension: be_u32(buf, bpos + 20),
                },
                used: bl,
            },
        }
    } else if tag == 0x4b {
        match parse_ipo_quoting_period(buf, bpos) {
            ParseOutcome::Done { value, used } => ParseOutcome::Done {
                value: Body::IpoQuotingPeriod(value),
                used,
            },
            ParseOutcome::Fail(k) => ParseOutcome::Fail(k),
            ParseOutcome::Incomplete => unreached(),
        }
    } else if tag == 0x4c {
        match parse_participant_position(buf, bpos) {
            ParseOutcome::Done { value, used } => ParseOutcome::Done {
                value: Body::ParticipantPosition(value),
                used,
            },
            ParseOutcome::Fail(k) => ParseOutcome::Fail(k),
            ParseOutcome::Incomplete => unreached(),
        }
    } else if tag == 0x4e {
        match parse_retail_price_improvement_indicator(buf, bpos) {
            ParseOutcome::Done { value, used } => ParseOutcome::Done {
                value: Body::RetailPriceImprovementIndicator(value),
                used,
            },
            ParseOutcome::Fail(k) => ParseOutcome::Fail(k),
            ParseOutcome::Incomplete => unreached(),
        }
    } else if tag == 0x50 {
        match parse_noncross_trade(buf, bpos) {
            ParseOutcome::Done { value, used } => ParseOutcome::Done {
                value: Body::NonCrossTrade(value),
                used,
            },
            ParseOutcome::Fail(k) => ParseOutcome::Fail(k),
            ParseOutcome::Incomplete => unreached(),
        }
    } else if tag == 0x51 {
        match parse_cross_trade(buf, bpos) {
            ParseOutcome::Done { value, used } => ParseOutcome::Done {
                value: Body::CrossTrade(value),
                used,
            },
            ParseOutcome::Fail(k) => ParseOutcome::Fail(k),
            ParseOutcome::Incomplete => unreached(),
        }
    } else if tag == 0x52 {
        match parse_stock_directory(buf, bpos) {
            ParseOutcome::Done { value, used } => ParseOutcome::Done {
                value: Body::StockDirectory(value),
                used,
            },
            ParseOutcome::Fail(k) => ParseOutcome::Fail(k),
            ParseOutcome::Incomplete => unreached(),
        }
    } else if tag == 0x53 {
        match parse_system_event(buf, bpos) {
            ParseOutcome::Done { value, used } => ParseOutcome::Done { value, used },
            ParseOutcome::Fail(k) => ParseOutcome::Fail(k),
            ParseOutcome::Incomplete => unreached(),
        }
    } else if tag == 0x55 {
        match parse_replace_order(buf, bpos) {
            ParseOutcome::Done { value, used } => ParseOutcome::Done {
                value: Body::ReplaceOrder(value),
                used,
            },
            ParseOutcome::Fail(k) => ParseOutcome::Fail(k),
            ParseOutcome::Incomplete => unreached(),
        }
    } else if tag == 0x56 {
        ParseOutcome::Done {
            value: Body::MwcbDeclineLevel {
                level1: Price8(be_u64(buf, bpos)),
                level2: Price8(be_u64(buf, bpos + 8)),
                level3: Price8(be_u64(buf, bpos + 16)),
            },
            used: bl,
        }
    } else if tag == 0x57 {
        match LevelBreached::from_code(buf[bpos]) {
            None => ParseOutcome::Fail(ParseErrorKind::BadCode(buf[bpos])),
            Some(level) => ParseOutcome::Done { value: Body::Breach(level), used: bl },
        }
    } else if tag == 0x58 {
        ParseOutcome::Done {
            value: Body::OrderCancelled {
                reference: be_u64(buf, bpos),
                cancelled: be_u32(buf, bpos + 8),
            },
            used: bl,
        }
    } else {
        match parse_reg_sho_restriction(buf, bpos) {
            ParseOutcome::Done { value, used } => ParseOutcome::Done { value, used },
            ParseOutcome::Fail(k) => ParseOutcome::Fail(k),
            ParseOutcome::Incomplete => unreached(),
        }
    }
}

/// Attempts to decode one message from the window `buf[pos..]`.
#[verifier::rlimit(100)]
#[verifier::spinoff_prover]
pub fn parse_message(buf: &Vec<u8>, pos: usize) -> (r: ParseOutcome<Message>)
    requires
        pos <= buf@.len(),
    ensures
        r == spec_parse_message(buf@.subrange(pos as int, buf@.len() as int)),
{
    proof {
        reveal(spec_parse_message);
    }
    let end: usize = buf.len();
    let ghost w = buf@.subrange(pos as int, end as int);
    proof {
        assert forall|k: int| 0 <= k < w.len() implies #[trigger] w[k] == buf@[pos as int + k] by {}
    }
    if end - pos < HEADER_LEN {
        return ParseOutcome::Incomplete;
    }
    let tag = buf[pos + 2];
    let bl = match body_len(tag) {
        Some(bl) => bl,
        None => {
            return ParseOutcome::Fail(ParseErrorKind::UnknownTag(tag));
        },
    };
    assert(bl <= 39);
    if end - pos - HEADER_LEN < bl {
        return ParseOutcome::Incomplete;
    }
    let stock_locate = be_u16(buf, pos + 3);
    let tracking_number = be_u16(buf, pos + 5);
    let timestamp = be_u48(buf, pos + 7);
    let bpos = pos + HEADER_LEN;
    let ghost b = w.subrange(HEADER_LEN as int, HEADER_LEN + bl as int);
    proof {
        assert(b =~= buf@.subrange(bpos as int, bpos as int + bl as int));
        assert forall|k: int| 0 <= k < bl implies #[trigger] b[k] == buf@[bpos as int + k] by {}
    }
    let body_res: ParseOutcome<Body> = parse_message_body(buf, bpos, tag, bl);
    assert(body_res == spec_outcome(spec_message_body(tag, b), bl));
    match body_res {
        ParseOutcome::Fail(k) => ParseOutcome::Fail(k),
        ParseOutcome::Done { value: body, used: _ } => ParseOutcome::Done {
            value: Message { tag, stock_locate, tracking_number, timestamp, body },
            used: HEADER_LEN + bl,
        },
        ParseOutcome::Incomplete => unreached(),
    }
}

// ---------------------------------------------------------------------
// Facts about decode attempts
// ---------------------------------------------------------------------

/// A known tag's body never exceeds 39 bytes, so a frame never exceeds 52.
pub proof fn lemma_body_len_bound(tag: u8)
    ensures
        spec_body_len(tag) matches Some(bl) ==> 1 <= bl <= 39,
{
}

/// A successful attempt consumed a whole frame: at least 14 bytes, at most
/// 52, and never more than the window holds.
pub proof fn lemma_parse_done_used(w: Seq<u8>)
    requires
        spec_parse_message(w) is Done,
    ensures
        14 <= spec_parse_message(w)->used,
        spec_parse_message(w)->used <= 52,
        spec_parse_message(w)->used <= w.len(),
{
    reveal(spec_parse_message);
    lemma_body_len_bound(w[2]);
}

/// An incomplete attempt means the window holds fewer bytes than the
/// largest frame.
pub proof fn lemma_parse_incomplete_window(w: Seq<u8>)
    requires
        spec_parse_message(w) is Incomplete,
    ensures
        w.len() < 52,
{
    reveal(spec_parse_message);
    if w.len() >= HEADER_LEN {
        lemma_body_len_bound(w[2]);
    }
}

/// A decode attempt reads only the frame's own bytes, so bytes arriving
/// after a complete frame cannot change its decoding.
pub proof fn lemma_parse_message_extends(w: Seq<u8>, ext: Seq<u8>)
    requires
        spec_parse_message(w) is Done,
    ensures
        spec_parse_message(w + ext) == spec_parse_message(w),
{
    reveal(spec_parse_message);
    let w2 = w + ext;
    assert forall|k: int| 0 <= k < w.len() implies #[trigger] w2[k] == w[k] by {}
    let bl = spec_body_len(w[2])->Some_0;
    assert(w2.subrange(HEADER_LEN as int, HEADER_LEN + bl) =~= w.subrange(
        HEADER_LEN as int,
        HEADER_LEN + bl,
    ));
}

/// A decode attempt reads only the frame's own bytes, so truncating the
/// window to the consumed frame keeps its decoding.
pub proof fn lemma_parse_message_take(w: Seq<u8>)
    requires
        spec_parse_message(w) is Done,
    ensures
        spec_parse_message(w.take(spec_parse_message(w)->used as int)) == spec_parse_message(w),
{
    reveal(spec_parse_message);
    let used = spec_parse_message(w)->used as int;
    lemma_parse_done_used(w);
    let w2 = w.take(used);
    assert forall|k: int| 0 <= k < used implies #[trigger] w2[k] == w[k] by {}
    let bl = spec_body_len(w[2])->Some_0;
    assert(w2.subrange(HEADER_LEN as int, HEADER_LEN + bl) =~= w.subrange(
        HEADER_LEN as int,
        HEADER_LEN + bl,
    ));
}

// ---------------------------------------------------------------------
// Decoding a whole byte sequence
// ---------------------------------------------------------------------

/// `bytes` is a concatenation of well-formed frames that decode, in
/// order, exactly to `msgs`.
pub open spec fn decodes_to(bytes: Seq<u8>, msgs: Seq<Message>) -> bool
    decreases msgs.len(),
{
    if msgs.len() == 0 {
        bytes.len() == 0
    } else {
        &&& spec_parse_message(bytes) matches ParseOutcome::Done { value, used }
        &&& spec_parse_message(bytes)->value == msgs[0]
        &&& decodes_to(bytes.skip(spec_parse_message(bytes)->used as int), msgs.skip(1))
    }
}

/// Appending one complete frame to a decoded byte sequence appends its
/// message to the decoded messages.
#[verifier::rlimit(100)]
#[verifier::spinoff_prover]
pub proof fn lemma_decodes_to_snoc(bytes: Seq<u8>, msgs: Seq<Message>, frame: Seq<u8>, m: Message)
    requires
        decodes_to(bytes, msgs),
        spec_parse_message(frame) is Done,
        spec_parse_message(frame)->value == m,
        spec_parse_message(frame)->used == frame.len(),
    ensures
        decodes_to(bytes + frame, msgs.push(m)),
    decreases msgs.len(),
{
    if msgs.len() == 0 {
        assert(bytes + frame =~= frame);
        let used = spec_parse_message(frame)->used;
        assert(frame.skip(used as int) =~= Seq::<u8>::empty());
        assert(msgs.push(m).skip(1) =~= Seq::<Message>::empty());
        assert(msgs.push(m)[0] == m);
        assert(decodes_to(Seq::<u8>::empty(), Seq::<Message>::empty()));
        assert(decodes_to(frame.skip(used as int), msgs.push(m).skip(1)));
        assert(decodes_to(bytes + frame, msgs.push(m)));
    } else {
        let used = spec_parse_message(bytes)->used;
        lemma_parse_done_used(bytes);
        lemma_parse_message_extends(bytes, frame);
        assert((bytes + frame).skip(used as int) =~= bytes.skip(used as int) + frame);
        lemma_decodes_to_snoc(bytes.skip(used as int), msgs.skip(1), frame, m);
        assert(msgs.push(m).skip(1) =~= msgs.skip(1).push(m));
        assert(msgs.push(m)[0] == msgs[0]);
        assert(decodes_to((bytes + frame).skip(used as int), msgs.push(m).skip(1)));
        assert(spec_parse_message(bytes + frame) == spec_parse_message(bytes));
        assert(decodes_to(bytes + frame, msgs.push(m)));
    }
}

/// The decoded messages are a function of the byte sequence alone: one
/// byte sequence cannot decode to two different message sequences.
pub proof fn lemma_decodes_to_deterministic(bytes: Seq<u8>, msgs1: Seq<Message>, msgs2: Seq<Message>)
    requires
        decodes_to(bytes, msgs1),
        decodes_to(bytes, msgs2),
    ensures
        msgs1 == msgs2,
    decreases msgs1.len(),
{
    reveal(spec_parse_message);
    if msgs1.len() == 0 {
        assert(bytes.len() == 0);
        if msgs2.len() > 0 {
            assert(spec_parse_message(bytes) is Incomplete);
            assert(false);
        }
        assert(msgs1 =~= msgs2);
    } else {
        if msgs2.len() == 0 {
            assert(bytes.len() == 0);
            assert(spec_parse_message(bytes) is Incomplete);
            assert(false);
        }
        let used = spec_parse_message(bytes)->used;
        lemma_decodes_to_deterministic(bytes.skip(used as int), msgs1.skip(1), msgs2.skip(1));
        assert(msgs1[0] == spec_parse_message(bytes)->value);
        assert(msgs2[0] == spec_parse_message(bytes)->value);
        assert(msgs1.len() == 1 + msgs1.skip(1).len());
        assert(msgs2.len() == 1 + msgs2.skip(1).len());
        assert forall|i: int| 0 <= i < msgs1.len() implies msgs1[i] == msgs2[i] by {
            if i > 0 {
                assert(msgs1.skip(1)[i - 1] == msgs2.skip(1)[i - 1]);
            }
        }
        assert(msgs1 =~= msgs2);
    }
}

} // verus!

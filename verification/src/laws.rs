//! Round-trip law of the wire format.
//!
//! A ghost frame builder lays out any well-formed message exactly as the
//! exchange would: length prefix, tag, header, then the tag's body layout.
//! The law proved here says that decoding those bytes yields the original
//! message back, field for field, consuming exactly the frame — so the
//! decoder loses nothing and invents nothing, for every message of every
//! catalog type, not just for sampled inputs.

use vstd::prelude::*;
use crate::enums::CrossType;
use crate::errors::ParseErrorKind;
use crate::fields::{
    spec_u16_bytes, spec_u32_bytes, spec_u48_bytes, spec_u64_bytes, spec_bool_byte,
    spec_maybe_bool_byte, spec_authenticity_byte, lemma_be_u16_roundtrip, lemma_be_u32_roundtrip,
    lemma_be_u48_roundtrip, lemma_be_u64_roundtrip, lemma_text4_roundtrip, lemma_text8_roundtrip,
    lemma_bool_code_roundtrip, lemma_maybe_bool_code_roundtrip, lemma_etp_flag_code_roundtrip,
    lemma_authenticity_code_roundtrip,
};
use crate::parser::{
    decodes_to,
    Message, Body, StockDirectory, MarketParticipantPosition, AddOrder, ReplaceOrder,
    ImbalanceIndicator, CrossTrade, RetailPriceImprovementIndicator, NonCrossTrade,
    IpoQuotingPeriod, ParseOutcome, spec_parse_message, spec_message_body, spec_body_len,
    spec_stock_directory, spec_participant_position, spec_add_order, spec_replace_order,
    spec_imbalance_indicator, spec_cross_trade, spec_retail_price_improvement_indicator,
    spec_noncross_trade, spec_ipo_quoting_period, lemma_parse_message_extends, HEADER_LEN,
};

verus! {

// ---------------------------------------------------------------------
// The ghost frame builder
// ---------------------------------------------------------------------

/// The wire bytes of an add-order body; the attributed form appends the
/// participant identifier.
pub open spec fn spec_add_order_bytes(v: AddOrder) -> Seq<u8> {
    spec_u64_bytes(v.reference) + seq![v.side.spec_code()] + spec_u32_bytes(v.shares) + v.stock@
        + spec_u32_bytes(v.price.0) + match v.mpid {
        Some(p) => p@,
        None => Seq::<u8>::empty(),
    }
}

/// The wire bytes of a stock-directory body.
pub open spec fn spec_stock_directory_bytes(v: StockDirectory) -> Seq<u8> {
    v.stock@ + seq![v.market_category.spec_code()] + seq![v.financial_status.spec_code()]
        + spec_u32_bytes(v.round_lot_size) + seq![spec_bool_byte(v.round_lots_only)]
        + seq![v.issue_classification.spec_code()] + seq![
        v.issue_subtype.spec_code().0,
        v.issue_subtype.spec_code().1,
    ] + seq![spec_authenticity_byte(v.authenticity)] + seq![
        spec_maybe_bool_byte(v.short_sale_threshold),
    ] + seq![spec_maybe_bool_byte(v.ipo_flag)] + seq![v.luld_ref_price_tier.spec_code()] + seq![
        spec_maybe_bool_byte(v.etp_flag),
    ] + spec_u32_bytes(v.etp_leverage_factor) + seq![spec_bool_byte(v.inverse_indicator)]
}

/// The wire bytes of a participant-position body.
pub open spec fn spec_participant_position_bytes(v: MarketParticipantPosition) -> Seq<u8> {
    v.mpid@ + v.stock@ + seq![spec_bool_byte(v.primary_market_maker)] + seq![
        v.market_maker_mode.spec_code(),
    ] + seq![v.market_participant_state.spec_code()]
}

/// The wire bytes of an order-replace body.
pub open spec fn spec_replace_order_bytes(v: ReplaceOrder) -> Seq<u8> {
    spec_u64_bytes(v.old_reference) + spec_u64_bytes(v.new_reference) + spec_u32_bytes(v.shares)
        + spec_u32_bytes(v.price.0)
}

/// The wire bytes of an imbalance-indicator body.
pub open spec fn spec_imbalance_indicator_bytes(v: ImbalanceIndicator) -> Seq<u8> {
    spec_u64_bytes(v.paired_shares) + spec_u64_bytes(v.imbalance_shares) + seq![
        v.imbalance_direction.spec_code(),
    ] + v.stock@ + spec_u32_bytes(v.far_price.0) + spec_u32_bytes(v.near_price.0)
        + spec_u32_bytes(v.current_ref_price.0) + seq![v.cross_type.spec_code()] + seq![
        v.price_variation_indicator,
    ]
}

/// The wire bytes of a cross-trade body.
pub open spec fn spec_cross_trade_bytes(v: CrossTrade) -> Seq<u8> {
    spec_u64_bytes(v.shares) + v.stock@ + spec_u32_bytes(v.cross_price.0) + spec_u64_bytes(
        v.match_number,
    ) + seq![v.cross_type.spec_code()]
}

/// The wire bytes of a retail price-improvement body.
pub open spec fn spec_retail_price_improvement_indicator_bytes(
    v: RetailPriceImprovementIndicator,
) -> Seq<u8> {
    v.stock@ + seq![v.interest_flag.spec_code()]
}

/// The wire bytes of a non-cross trade body.
pub open spec fn spec_noncross_trade_bytes(v: NonCrossTrade) -> Seq<u8> {
    spec_u64_bytes(v.reference) + seq![v.side.spec_code()] + spec_u32_bytes(v.shares) + v.stock@
        + spec_u32_bytes(v.price.0) + spec_u64_bytes(v.match_number)
}

/// The wire bytes of an IPO quoting-period body.
pub open spec fn spec_ipo_quoting_period_bytes(v: IpoQuotingPeriod) -> Seq<u8> {
    v.stock@ + spec_u32_bytes(v.release_time) + seq![v.release_qualifier.spec_code()]
        + spec_u32_bytes(v.price.0)
}

/// The wire bytes of each message body, laid out per its catalog entry.
pub open spec fn spec_body_bytes(body: Body) -> Seq<u8> {
    match body {
        Body::AddOrder(v) => spec_add_order_bytes(v),
        Body::Breach(level) => seq![level.spec_code()],
        Body::BrokenTrade { match_number } => spec_u64_bytes(match_number),
        Body::CrossTrade(v) => spec_cross_trade_bytes(v),
        Body::DeleteOrder { reference } => spec_u64_bytes(reference),
        Body::Imbalance(v) => spec_imbalance_indicator_bytes(v),
        Body::IpoQuotingPeriod(v) => spec_ipo_quoting_period_bytes(v),
        Body::LULDAuctionCollar { stock, ref_price, upper_price, lower_price, extension } => stock@
            + spec_u32_bytes(ref_price.0) + spec_u32_bytes(upper_price.0) + spec_u32_bytes(
            lower_price.0,
        ) + spec_u32_bytes(extension),
        Body::MwcbDeclineLevel { level1, level2, level3 } => spec_u64_bytes(level1.0)
            + spec_u64_bytes(level2.0) + spec_u64_bytes(level3.0),
        Body::NonCrossTrade(v) => spec_noncross_trade_bytes(v),
        Body::OrderCancelled { reference, cancelled } => spec_u64_bytes(reference)
            + spec_u32_bytes(cancelled),
        Body::OrderExecuted { reference, executed, match_number } => spec_u64_bytes(reference)
            + spec_u32_bytes(executed) + spec_u64_bytes(match_number),
        Body::OrderExecutedWithPrice { reference, executed, match_number, printable, price } =>
            spec_u64_bytes(reference) + spec_u32_bytes(executed) + spec_u64_bytes(match_number)
            + seq![spec_bool_byte(printable)] + spec_u32_bytes(price.0),
        Body::ParticipantPosition(v) => spec_participant_position_bytes(v),
        Body::RegShoRestriction { stock, action } => stock@ + seq![action.spec_code()],
        Body::ReplaceOrder(v) => spec_replace_order_bytes(v),
        Body::StockDirectory(v) => spec_stock_directory_bytes(v),
        Body::SystemEvent { event } => seq![event.spec_code()],
        Body::TradingAction { stock, trading_state, reason } => stock@ + seq![
            trading_state.spec_code(),
        ] + seq![0u8] + reason@,
        Body::RetailPriceImprovementIndicator(v) =>
            spec_retail_price_improvement_indicator_bytes(v),
    }
}

/// The catalog tag of a body; the add-order tag depends on whether the
/// body carries an attribution.
pub open spec fn body_tag(body: Body) -> u8 {
    match body {
        Body::AddOrder(v) => if v.mpid is Some {
            0x46
        } else {
            0x41
        },
        Body::Breach(..) => 0x57,
        Body::BrokenTrade { .. } => 0x42,
        Body::CrossTrade(..) => 0x51,
        Body::DeleteOrder { .. } => 0x44,
        Body::Imbalance(..) => 0x49,
        Body::IpoQuotingPeriod(..) => 0x4b,
        Body::LULDAuctionCollar { .. } => 0x4a,
        Body::MwcbDeclineLevel { .. } => 0x56,
        Body::NonCrossTrade(..) => 0x50,
        Body::OrderCancelled { .. } => 0x58,
        Body::OrderExecuted { .. } => 0x45,
        Body::OrderExecutedWithPrice { .. } => 0x43,
        Body::ParticipantPosition(..) => 0x4c,
        Body::RegShoRestriction { .. } => 0x59,
        Body::ReplaceOrder(..) => 0x55,
        Body::StockDirectory(..) => 0x52,
        Body::SystemEvent { .. } => 0x53,
        Body::TradingAction { .. } => 0x48,
        Body::RetailPriceImprovementIndicator(..) => 0x4e,
    }
}

/// A body the wire format can carry: its text fields are ASCII, and an
/// imbalance indicator never carries the intraday cross, which its
/// restricted table has no code for.
pub open spec fn wf_body(body: Body) -> bool {
    match body {
        Body::AddOrder(v) => v.stock.wf() && (v.mpid matches Some(p) ==> p.wf()),
        Body::CrossTrade(v) => v.stock.wf(),
        Body::Imbalance(v) => v.stock.wf() && v.cross_type != CrossType::Intraday,
        Body::IpoQuotingPeriod(v) => v.stock.wf(),
        Body::LULDAuctionCollar { stock, .. } => stock.wf(),
        Body::NonCrossTrade(v) => v.stock.wf(),
        Body::ParticipantPosition(v) => v.mpid.wf() && v.stock.wf(),
        Body::RegShoRestriction { stock, .. } => stock.wf(),
        Body::StockDirectory(v) => v.stock.wf(),
        Body::TradingAction { stock, reason, .. } => stock.wf() && reason.wf(),
        Body::RetailPriceImprovementIndicator(v) => v.stock.wf(),
        _ => true,
    }
}

/// A message the wire format can carry: its tag is the one of its body,
/// its timestamp fits in 48 bits, and its body is well formed.
pub open spec fn wf_message(m: Message) -> bool {
    &&& m.tag == body_tag(m.body)
    &&& m.timestamp < 0x1_0000_0000_0000
    &&& wf_body(m.body)
}

/// The whole frame of a message: length prefix, tag, common header, body.
pub open spec fn frame_of(m: Message) -> Seq<u8> {
    spec_u16_bytes((11 + spec_body_bytes(m.body).len()) as u16) + seq![m.tag] + spec_u16_bytes(
        m.stock_locate,
    ) + spec_u16_bytes(m.tracking_number) + spec_u48_bytes(m.timestamp) + spec_body_bytes(m.body)
}

/// Each body's byte layout has exactly the length the catalog declares
/// for its tag.
#[verifier::rlimit(100)]
#[verifier::spinoff_prover]
pub proof fn lemma_body_bytes_len(body: Body)
    ensures
        spec_body_len(body_tag(body)) == Some(spec_body_bytes(body).len() as usize),
        spec_body_bytes(body).len() <= 39,
{
}


// ---------------------------------------------------------------------
// Per-entry round trips
// ---------------------------------------------------------------------

/// Decoding an encoded add-order body gives the value back.
#[verifier::rlimit(100)]
#[verifier::spinoff_prover]
proof fn lemma_add_order_roundtrip(v: AddOrder)
    requires
        v.stock.wf(),
        v.mpid matches Some(p) ==> p.wf(),
    ensures
        spec_add_order(spec_add_order_bytes(v), v.mpid is Some) == Ok::<
            AddOrder,
            ParseErrorKind,
        >(v),
        v.mpid is None ==> spec_message_body(0x41, spec_add_order_bytes(v)) == Ok::<
            Body,
            ParseErrorKind,
        >(Body::AddOrder(v)),
        v.mpid is Some ==> spec_message_body(0x46, spec_add_order_bytes(v)) == Ok::<
            Body,
            ParseErrorKind,
        >(Body::AddOrder(v)),
{
    reveal(spec_message_body);
    let b = spec_add_order_bytes(v);
    assert(b.subrange(0, 8) =~= spec_u64_bytes(v.reference));
    assert(b[8] == v.side.spec_code());
    assert(b.subrange(9, 13) =~= spec_u32_bytes(v.shares));
    assert(b.subrange(13, 21) =~= v.stock@);
    assert(b.subrange(21, 25) =~= spec_u32_bytes(v.price.0));
    lemma_be_u64_roundtrip(b, 0, v.reference);
    v.side.lemma_code_roundtrip();
    lemma_be_u32_roundtrip(b, 9, v.shares);
    lemma_text8_roundtrip(v.stock);
    lemma_be_u32_roundtrip(b, 21, v.price.0);
    if v.mpid is Some {
        let p = v.mpid->0;
        assert(b.subrange(25, 29) =~= p@);
        lemma_text4_roundtrip(p);
    }
}

/// Decoding an encoded stock-directory body gives the value back.
#[verifier::rlimit(100)]
#[verifier::spinoff_prover]
proof fn lemma_stock_directory_roundtrip(v: StockDirectory)
    requires
        v.stock.wf(),
    ensures
        spec_stock_directory(spec_stock_directory_bytes(v)) == Ok::<
            StockDirectory,
            ParseErrorKind,
        >(v),
        spec_message_body(0x52, spec_stock_directory_bytes(v)) == Ok::<Body, ParseErrorKind>(
            Body::StockDirectory(v),
        ),
{
    reveal(spec_message_body);
    let b = spec_stock_directory_bytes(v);
    assert(b.subrange(0, 8) =~= v.stock@);
    assert(b[8] == v.market_category.spec_code());
    assert(b[9] == v.financial_status.spec_code());
    assert(b.subrange(10, 14) =~= spec_u32_bytes(v.round_lot_size));
    assert(b[14] == spec_bool_byte(v.round_lots_only));
    assert(b[15] == v.issue_classification.spec_code());
    assert(b[16] == v.issue_subtype.spec_code().0);
    assert(b[17] == v.issue_subtype.spec_code().1);
    assert(b[18] == spec_authenticity_byte(v.authenticity));
    assert(b[19] == spec_maybe_bool_byte(v.short_sale_threshold));
    assert(b[20] == spec_maybe_bool_byte(v.ipo_flag));
    assert(b[21] == v.luld_ref_price_tier.spec_code());
    assert(b[22] == spec_maybe_bool_byte(v.etp_flag));
    assert(b.subrange(23, 27) =~= spec_u32_bytes(v.etp_leverage_factor));
    assert(b[27] == spec_bool_byte(v.inverse_indicator));
    lemma_text8_roundtrip(v.stock);
    v.market_category.lemma_code_roundtrip();
    v.financial_status.lemma_code_roundtrip();
    lemma_be_u32_roundtrip(b, 10, v.round_lot_size);
    lemma_bool_code_roundtrip(v.round_lots_only);
    v.issue_classification.lemma_code_roundtrip();
    v.issue_subtype.lemma_code_roundtrip();
    lemma_authenticity_code_roundtrip(v.authenticity);
    lemma_maybe_bool_code_roundtrip(v.short_sale_threshold);
    lemma_maybe_bool_code_roundtrip(v.ipo_flag);
    v.luld_ref_price_tier.lemma_code_roundtrip();
    lemma_etp_flag_code_roundtrip(v.etp_flag);
    lemma_be_u32_roundtrip(b, 23, v.etp_leverage_factor);
    lemma_bool_code_roundtrip(v.inverse_indicator);
}

/// Decoding an encoded participant-position body gives the value back.
#[verifier::rlimit(100)]
#[verifier::spinoff_prover]
proof fn lemma_participant_position_roundtrip(v: MarketParticipantPosition)
    requires
        v.mpid.wf(),
        v.stock.wf(),
    ensures
        spec_participant_position(spec_participant_position_bytes(v)) == Ok::<
            MarketParticipantPosition,
            ParseErrorKind,
        >(v),
        spec_message_body(0x4c, spec_participant_position_bytes(v)) == Ok::<
            Body,
            ParseErrorKind,
        >(Body::ParticipantPosition(v)),
{
    reveal(spec_message_body);
    let b = spec_participant_position_bytes(v);
    assert(b.subrange(0, 4) =~= v.mpid@);
    assert(b.subrange(4, 12) =~= v.stock@);
    assert(b[12] == spec_bool_byte(v.primary_market_maker));
    assert(b[13] == v.market_maker_mode.spec_code());
    assert(b[14] == v.market_participant_state.spec_code());
    lemma_text4_roundtrip(v.mpid);
    lemma_text8_roundtrip(v.stock);
    lemma_bool_code_roundtrip(v.primary_market_maker);
    v.market_maker_mode.lemma_code_roundtrip();
    v.market_participant_state.lemma_code_roundtrip();
}

/// Decoding an encoded order-replace body gives the value back.
#[verifier::rlimit(100)]
#[verifier::spinoff_prover]
proof fn lemma_replace_order_roundtrip(v: ReplaceOrder)
    ensures
        spec_replace_order(spec_replace_order_bytes(v)) == Ok::<ReplaceOrder, ParseErrorKind>(v),
        spec_message_body(0x55, spec_replace_order_bytes(v)) == Ok::<Body, ParseErrorKind>(
            Body::ReplaceOrder(v),
        ),
{
    reveal(spec_message_body);
    let b = spec_replace_order_bytes(v);
    assert(b.subrange(0, 8) =~= spec_u64_bytes(v.old_reference));
    assert(b.subrange(8, 16) =~= spec_u64_bytes(v.new_reference));
    assert(b.subrange(16, 20) =~= spec_u32_bytes(v.shares));
    assert(b.subrange(20, 24) =~= spec_u32_bytes(v.price.0));
    lemma_be_u64_roundtrip(b, 0, v.old_reference);
    lemma_be_u64_roundtrip(b, 8, v.new_reference);
    lemma_be_u32_roundtrip(b, 16, v.shares);
    lemma_be_u32_roundtrip(b, 20, v.price.0);
}

/// Decoding an encoded imbalance-indicator body gives the value back.
#[verifier::rlimit(100)]
#[verifier::spinoff_prover]
proof fn lemma_imbalance_indicator_roundtrip(v: ImbalanceIndicator)
    requires
        v.stock.wf(),
        v.cross_type != CrossType::Intraday,
    ensures
        spec_imbalance_indicator(spec_imbalance_indicator_bytes(v)) == Ok::<
            ImbalanceIndicator,
            ParseErrorKind,
        >(v),
        spec_message_body(0x49, spec_imbalance_indicator_bytes(v)) == Ok::<Body, ParseErrorKind>(
            Body::Imbalance(v),
        ),
{
    reveal(spec_message_body);
    let b = spec_imbalance_indicator_bytes(v);
    assert(b.subrange(0, 8) =~= spec_u64_bytes(v.paired_shares));
    assert(b.subrange(8, 16) =~= spec_u64_bytes(v.imbalance_shares));
    assert(b[16] == v.imbalance_direction.spec_code());
    assert(b.subrange(17, 25) =~= v.stock@);
    assert(b.subrange(25, 29) =~= spec_u32_bytes(v.far_price.0));
    assert(b.subrange(29, 33) =~= spec_u32_bytes(v.near_price.0));
    assert(b.subrange(33, 37) =~= spec_u32_bytes(v.current_ref_price.0));
    assert(b[37] == v.cross_type.spec_code());
    assert(b[38] == v.price_variation_indicator);
    lemma_be_u64_roundtrip(b, 0, v.paired_shares);
    lemma_be_u64_roundtrip(b, 8, v.imbalance_shares);
    v.imbalance_direction.lemma_code_roundtrip();
    lemma_text8_roundtrip(v.stock);
    lemma_be_u32_roundtrip(b, 25, v.far_price.0);
    lemma_be_u32_roundtrip(b, 29, v.near_price.0);
    lemma_be_u32_roundtrip(b, 33, v.current_ref_price.0);
    v.cross_type.lemma_code_roundtrip();
}

/// Decoding an encoded cross-trade body gives the value back.
#[verifier::rlimit(100)]
#[verifier::spinoff_prover]
proof fn lemma_cross_trade_roundtrip(v: CrossTrade)
    requires
        v.stock.wf(),
    ensures
        spec_cross_trade(spec_cross_trade_bytes(v)) == Ok::<CrossTrade, ParseErrorKind>(v),
        spec_message_body(0x51, spec_cross_trade_bytes(v)) == Ok::<Body, ParseErrorKind>(
            Body::CrossTrade(v),
        ),
{
    reveal(spec_message_body);
    let b = spec_cross_trade_bytes(v);
    assert(b.subrange(0, 8) =~= spec_u64_bytes(v.shares));
    assert(b.subrange(8, 16) =~= v.stock@);
    assert(b.subrange(16, 20) =~= spec_u32_bytes(v.cross_price.0));
    assert(b.subrange(20, 28) =~= spec_u64_bytes(v.match_number));
    assert(b[28] == v.cross_type.spec_code());
    lemma_be_u64_roundtrip(b, 0, v.shares);
    lemma_text8_roundtrip(v.stock);
    lemma_be_u32_roundtrip(b, 16, v.cross_price.0);
    lemma_be_u64_roundtrip(b, 20, v.match_number);
    v.cross_type.lemma_code_roundtrip();
}

/// Decoding an encoded retail price-improvement body gives the value
/// back.
#[verifier::rlimit(100)]
#[verifier::spinoff_prover]
proof fn lemma_retail_price_improvement_indicator_roundtrip(v: RetailPriceImprovementIndicator)
    requires
        v.stock.wf(),
    ensures
        spec_retail_price_improvement_indicator(spec_retail_price_improvement_indicator_bytes(v))
            == Ok::<RetailPriceImprovementIndicator, ParseErrorKind>(v),
        spec_message_body(0x4e, spec_retail_price_improvement_indicator_bytes(v)) == Ok::<
            Body,
            ParseErrorKind,
        >(Body::RetailPriceImprovementIndicator(v)),
{
    reveal(spec_message_body);
    let b = spec_retail_price_improvement_indicator_bytes(v);
    assert(b.subrange(0, 8) =~= v.stock@);
    assert(b[8] == v.interest_flag.spec_code());
    lemma_text8_roundtrip(v.stock);
    v.interest_flag.lemma_code_roundtrip();
}

/// Decoding an encoded non-cross trade body gives the value back.
#[verifier::rlimit(100)]
#[verifier::spinoff_prover]
proof fn lemma_noncross_trade_roundtrip(v: NonCrossTrade)
    requires
        v.stock.wf(),
    ensures
        spec_noncross_trade(spec_noncross_trade_bytes(v)) == Ok::<NonCrossTrade, ParseErrorKind>(
            v,
        ),
        spec_message_body(0x50, spec_noncross_trade_bytes(v)) == Ok::<Body, ParseErrorKind>(
            Body::NonCrossTrade(v),
        ),
{
    reveal(spec_message_body);
    let b = spec_noncross_trade_bytes(v);
    assert(b.subrange(0, 8) =~= spec_u64_bytes(v.reference));
    assert(b[8] == v.side.spec_code());
    assert(b.subrange(9, 13) =~= spec_u32_bytes(v.shares));
    assert(b.subrange(13, 21) =~= v.stock@);
    assert(b.subrange(21, 25) =~= spec_u32_bytes(v.price.0));
    assert(b.subrange(25, 33) =~= spec_u64_bytes(v.match_number));
    lemma_be_u64_roundtrip(b, 0, v.reference);
    v.side.lemma_code_roundtrip();
    lemma_be_u32_roundtrip(b, 9, v.shares);
    lemma_text8_roundtrip(v.stock);
    lemma_be_u32_roundtrip(b, 21, v.price.0);
    lemma_be_u64_roundtrip(b, 25, v.match_number);
}

/// Decoding an encoded IPO quoting-period body gives the value back.
#[verifier::rlimit(100)]
#[verifier::spinoff_prover]
proof fn lemma_ipo_quoting_period_roundtrip(v: IpoQuotingPeriod)
    requires
        v.stock.wf(),
    ensures
        spec_ipo_quoting_period(spec_ipo_quoting_period_bytes(v)) == Ok::<
            IpoQuotingPeriod,
            ParseErrorKind,
        >(v),
        spec_message_body(0x4b, spec_ipo_quoting_period_bytes(v)) == Ok::<Body, ParseErrorKind>(
            Body::IpoQuotingPeriod(v),
        ),
{
    reveal(spec_message_body);
    let b = spec_ipo_quoting_period_bytes(v);
    assert(b.subrange(0, 8) =~= v.stock@);
    assert(b.subrange(8, 12) =~= spec_u32_bytes(v.release_time));
    assert(b[12] == v.release_qualifier.spec_code());
    assert(b.subrange(13, 17) =~= spec_u32_bytes(v.price.0));
    lemma_text8_roundtrip(v.stock);
    lemma_be_u32_roundtrip(b, 8, v.release_time);
    v.release_qualifier.lemma_code_roundtrip();
    lemma_be_u32_roundtrip(b, 13, v.price.0);
}


// ---------------------------------------------------------------------
// The round-trip law
// ---------------------------------------------------------------------


/// Decoding an encoded level-breach body gives it back.
proof fn lemma_breach_roundtrip(level: crate::enums::LevelBreached)
    ensures
        spec_message_body(0x57, seq![level.spec_code()]) == Ok::<Body, ParseErrorKind>(
            Body::Breach(level),
        ),
{
    reveal(spec_message_body);
    level.lemma_code_roundtrip();
}

/// Decoding an encoded broken-trade body gives it back.
proof fn lemma_broken_trade_roundtrip(match_number: u64)
    ensures
        spec_message_body(0x42, spec_u64_bytes(match_number)) == Ok::<Body, ParseErrorKind>(
            Body::BrokenTrade { match_number },
        ),
{
    reveal(spec_message_body);
    let b = spec_u64_bytes(match_number);
    assert(b.subrange(0, 8) =~= spec_u64_bytes(match_number));
    lemma_be_u64_roundtrip(b, 0, match_number);
}

/// Decoding an encoded order-delete body gives it back.
proof fn lemma_delete_order_roundtrip(reference: u64)
    ensures
        spec_message_body(0x44, spec_u64_bytes(reference)) == Ok::<Body, ParseErrorKind>(
            Body::DeleteOrder { reference },
        ),
{
    reveal(spec_message_body);
    let b = spec_u64_bytes(reference);
    assert(b.subrange(0, 8) =~= spec_u64_bytes(reference));
    lemma_be_u64_roundtrip(b, 0, reference);
}

/// Decoding an encoded order-cancel body gives it back.
proof fn lemma_order_cancelled_roundtrip(reference: u64, cancelled: u32)
    ensures
        spec_message_body(0x58, spec_u64_bytes(reference) + spec_u32_bytes(cancelled)) == Ok::<
            Body,
            ParseErrorKind,
        >(Body::OrderCancelled { reference, cancelled }),
{
    reveal(spec_message_body);
    let b = spec_u64_bytes(reference) + spec_u32_bytes(cancelled);
    assert(b.subrange(0, 8) =~= spec_u64_bytes(reference));
    assert(b.subrange(8, 12) =~= spec_u32_bytes(cancelled));
    lemma_be_u64_roundtrip(b, 0, reference);
    lemma_be_u32_roundtrip(b, 8, cancelled);
}

/// Decoding an encoded order-executed body gives it back.
proof fn lemma_order_executed_roundtrip(reference: u64, executed: u32, match_number: u64)
    ensures
        spec_message_body(
            0x45,
            spec_u64_bytes(reference) + spec_u32_bytes(executed) + spec_u64_bytes(match_number),
        ) == Ok::<Body, ParseErrorKind>(Body::OrderExecuted { reference, executed, match_number }),
{
    reveal(spec_message_body);
    let b = spec_u64_bytes(reference) + spec_u32_bytes(executed) + spec_u64_bytes(match_number);
    assert(b.subrange(0, 8) =~= spec_u64_bytes(reference));
    assert(b.subrange(8, 12) =~= spec_u32_bytes(executed));
    assert(b.subrange(12, 20) =~= spec_u64_bytes(match_number));
    lemma_be_u64_roundtrip(b, 0, reference);
    lemma_be_u32_roundtrip(b, 8, executed);
    lemma_be_u64_roundtrip(b, 12, match_number);
}

/// Decoding an encoded order-executed-with-price body gives it back.
proof fn lemma_order_executed_with_price_roundtrip(
    reference: u64,
    executed: u32,
    match_number: u64,
    printable: bool,
    price: crate::price::Price4,
)
    ensures
        spec_message_body(
            0x43,
            spec_u64_bytes(reference) + spec_u32_bytes(executed) + spec_u64_bytes(match_number)
                + seq![spec_bool_byte(printable)] + spec_u32_bytes(price.0),
        ) == Ok::<Body, ParseErrorKind>(
            Body::OrderExecutedWithPrice { reference, executed, match_number, printable, price },
        ),
{
    reveal(spec_message_body);
    let b = spec_u64_bytes(reference) + spec_u32_bytes(executed) + spec_u64_bytes(match_number)
        + seq![spec_bool_byte(printable)] + spec_u32_bytes(price.0);
    assert(b.subrange(0, 8) =~= spec_u64_bytes(reference));
    assert(b.subrange(8, 12) =~= spec_u32_bytes(executed));
    assert(b.subrange(12, 20) =~= spec_u64_bytes(match_number));
    assert(b[20] == spec_bool_byte(printable));
    assert(b.subrange(21, 25) =~= spec_u32_bytes(price.0));
    lemma_be_u64_roundtrip(b, 0, reference);
    lemma_be_u32_roundtrip(b, 8, executed);
    lemma_be_u64_roundtrip(b, 12, match_number);
    lemma_bool_code_roundtrip(printable);
    lemma_be_u32_roundtrip(b, 21, price.0);
}

/// Decoding an encoded circuit-breaker decline-level body gives it back.
proof fn lemma_mwcb_decline_level_roundtrip(
    level1: crate::price::Price8,
    level2: crate::price::Price8,
    level3: crate::price::Price8,
)
    ensures
        spec_message_body(
            0x56,
            spec_u64_bytes(level1.0) + spec_u64_bytes(level2.0) + spec_u64_bytes(level3.0),
        ) == Ok::<Body, ParseErrorKind>(Body::MwcbDeclineLevel { level1, level2, level3 }),
{
    reveal(spec_message_body);
    let b = spec_u64_bytes(level1.0) + spec_u64_bytes(level2.0) + spec_u64_bytes(level3.0);
    assert(b.subrange(0, 8) =~= spec_u64_bytes(level1.0));
    assert(b.subrange(8, 16) =~= spec_u64_bytes(level2.0));
    assert(b.subrange(16, 24) =~= spec_u64_bytes(level3.0));
    lemma_be_u64_roundtrip(b, 0, level1.0);
    lemma_be_u64_roundtrip(b, 8, level2.0);
    lemma_be_u64_roundtrip(b, 16, level3.0);
}

/// Decoding an encoded auction-collar body gives it back.
proof fn lemma_luld_auction_collar_roundtrip(
    stock: crate::text::ArrayString8,
    ref_price: crate::price::Price4,
    upper_price: crate::price::Price4,
    lower_price: crate::price::Price4,
    extension: u32,
)
    requires
        stock.wf(),
    ensures
        spec_message_body(
            0x4a,
            stock@ + spec_u32_bytes(ref_price.0) + spec_u32_bytes(upper_price.0) + spec_u32_bytes(
                lower_price.0,
            ) + spec_u32_bytes(extension),
        ) == Ok::<Body, ParseErrorKind>(
            Body::LULDAuctionCollar { stock, ref_price, upper_price, lower_price, extension },
        ),
{
    reveal(spec_message_body);
    let b = stock@ + spec_u32_bytes(ref_price.0) + spec_u32_bytes(upper_price.0) + spec_u32_bytes(
        lower_price.0,
    ) + spec_u32_bytes(extension);
    assert(b.subrange(0, 8) =~= stock@);
    assert(b.subrange(8, 12) =~= spec_u32_bytes(ref_price.0));
    assert(b.subrange(12, 16) =~= spec_u32_bytes(upper_price.0));
    assert(b.subrange(16, 20) =~= spec_u32_bytes(lower_price.0));
    assert(b.subrange(20, 24) =~= spec_u32_bytes(extension));
    lemma_text8_roundtrip(stock);
    lemma_be_u32_roundtrip(b, 8, ref_price.0);
    lemma_be_u32_roundtrip(b, 12, upper_price.0);
    lemma_be_u32_roundtrip(b, 16, lower_price.0);
    lemma_be_u32_roundtrip(b, 20, extension);
}

/// Decoding an encoded system-event body gives it back.
proof fn lemma_system_event_roundtrip(event: crate::enums::EventCode)
    ensures
        spec_message_body(0x53, seq![event.spec_code()]) == Ok::<Body, ParseErrorKind>(
            Body::SystemEvent { event },
        ),
{
    reveal(spec_message_body);
    event.lemma_code_roundtrip();
}

/// Decoding an encoded Reg SHO body gives it back.
proof fn lemma_reg_sho_roundtrip(stock: crate::text::ArrayString8, action: crate::enums::RegShoAction)
    requires
        stock.wf(),
    ensures
        spec_message_body(0x59, stock@ + seq![action.spec_code()]) == Ok::<Body, ParseErrorKind>(
            Body::RegShoRestriction { stock, action },
        ),
{
    reveal(spec_message_body);
    let b = stock@ + seq![action.spec_code()];
    assert(b.subrange(0, 8) =~= stock@);
    assert(b[8] == action.spec_code());
    lemma_text8_roundtrip(stock);
    action.lemma_code_roundtrip();
}

/// Decoding an encoded trading-action body gives it back; the reserved
/// byte is written as zero and skipped by the decoder.
proof fn lemma_trading_action_roundtrip(
    stock: crate::text::ArrayString8,
    trading_state: crate::enums::TradingState,
    reason: crate::text::ArrayString4,
)
    requires
        stock.wf(),
        reason.wf(),
    ensures
        spec_message_body(0x48, stock@ + seq![trading_state.spec_code()] + seq![0u8] + reason@)
            == Ok::<Body, ParseErrorKind>(Body::TradingAction { stock, trading_state, reason }),
{
    reveal(spec_message_body);
    let b = stock@ + seq![trading_state.spec_code()] + seq![0u8] + reason@;
    assert(b.subrange(0, 8) =~= stock@);
    assert(b[8] == trading_state.spec_code());
    assert(b.subrange(10, 14) =~= reason@);
    lemma_text8_roundtrip(stock);
    trading_state.lemma_code_roundtrip();
    lemma_text4_roundtrip(reason);
}

/// Decoding an encoded body under its own tag gives the body back.
proof fn lemma_message_body_roundtrip(body: Body)
    requires
        wf_body(body),
    ensures
        spec_message_body(body_tag(body), spec_body_bytes(body)) == Ok::<Body, ParseErrorKind>(
            body,
        ),
{
    match body {
        Body::AddOrder(v) => {
            lemma_add_order_roundtrip(v);
        },
        Body::Breach(level) => {
            lemma_breach_roundtrip(level);
        },
        Body::BrokenTrade { match_number } => {
            lemma_broken_trade_roundtrip(match_number);
        },
        Body::CrossTrade(v) => {
            lemma_cross_trade_roundtrip(v);
        },
        Body::DeleteOrder { reference } => {
            lemma_delete_order_roundtrip(reference);
        },
        Body::Imbalance(v) => {
            lemma_imbalance_indicator_roundtrip(v);
        },
        Body::IpoQuotingPeriod(v) => {
            lemma_ipo_quoting_period_roundtrip(v);
        },
        Body::LULDAuctionCollar { stock, ref_price, upper_price, lower_price, extension } => {
            lemma_luld_auction_collar_roundtrip(
                stock,
                ref_price,
                upper_price,
                lower_price,
                extension,
            );
        },
        Body::MwcbDeclineLevel { level1, level2, level3 } => {
            lemma_mwcb_decline_level_roundtrip(level1, level2, level3);
        },
        Body::NonCrossTrade(v) => {
            lemma_noncross_trade_roundtrip(v);
        },
        Body::OrderCancelled { reference, cancelled } => {
            lemma_order_cancelled_roundtrip(reference, cancelled);
        },
        Body::OrderExecuted { reference, executed, match_number } => {
            lemma_order_executed_roundtrip(reference, executed, match_number);
        },
        Body::OrderExecutedWithPrice { reference, executed, match_number, printable, price } => {
            lemma_order_executed_with_price_roundtrip(
                reference,
                executed,
                match_number,
                printable,
                price,
            );
        },
        Body::ParticipantPosition(v) => {
            lemma_participant_position_roundtrip(v);
        },
        Body::RegShoRestriction { stock, action } => {
            lemma_reg_sho_roundtrip(stock, action);
        },
        Body::ReplaceOrder(v) => {
            lemma_replace_order_roundtrip(v);
        },
        Body::StockDirectory(v) => {
            lemma_stock_directory_roundtrip(v);
        },
        Body::SystemEvent { event } => {
            lemma_system_event_roundtrip(event);
        },
        Body::TradingAction { stock, trading_state, reason } => {
            lemma_trading_action_roundtrip(stock, trading_state, reason);
        },
        Body::RetailPriceImprovementIndicator(v) => {
            lemma_retail_price_improvement_indicator_roundtrip(v);
        },
    }
}

/// The round-trip law: decoding the frame of any well-formed message of
/// any catalog type yields that message back, field for field, and
/// consumes exactly the frame's bytes, leaving nothing over.
#[verifier::rlimit(100)]
#[verifier::spinoff_prover]
pub proof fn lemma_frame_roundtrip(m: Message)
    requires
        wf_message(m),
    ensures
        frame_of(m).len() == HEADER_LEN + spec_body_bytes(m.body).len(),
        spec_parse_message(frame_of(m)) == (ParseOutcome::Done {
            value: m,
            used: frame_of(m).len() as usize,
        }),
{
    reveal(spec_parse_message);
    let f = frame_of(m);
    let body = spec_body_bytes(m.body);
    lemma_body_bytes_len(m.body);
    assert(f.len() == HEADER_LEN + body.len());
    assert(f[2] == m.tag);
    assert(f.subrange(3, 5) =~= spec_u16_bytes(m.stock_locate));
    lemma_be_u16_roundtrip(f, 3, m.stock_locate);
    assert(f.subrange(5, 7) =~= spec_u16_bytes(m.tracking_number));
    lemma_be_u16_roundtrip(f, 5, m.tracking_number);
    assert(f.subrange(7, 13) =~= spec_u48_bytes(m.timestamp));
    lemma_be_u48_roundtrip(f, 7, m.timestamp);
    assert(f.subrange(HEADER_LEN as int, HEADER_LEN + body.len()) =~= body);
    lemma_message_body_roundtrip(m.body);
    assert(m == (Message {
        tag: m.tag,
        stock_locate: m.stock_locate,
        tracking_number: m.tracking_number,
        timestamp: m.timestamp,
        body: m.body,
    }));
}

/// The round trip holds wherever the frame stands in a stream: bytes of
/// later messages that follow it cannot change what it decodes to.
pub proof fn lemma_frame_roundtrip_with_rest(m: Message, rest: Seq<u8>)
    requires
        wf_message(m),
    ensures
        spec_parse_message(frame_of(m) + rest) == (ParseOutcome::Done {
            value: m,
            used: frame_of(m).len() as usize,
        }),
{
    lemma_frame_roundtrip(m);
    lemma_parse_message_extends(frame_of(m), rest);
}


/// The frames of a message sequence, laid out back to back as they would
/// travel on the wire.
pub open spec fn frames_of(msgs: Seq<Message>) -> Seq<u8>
    decreases msgs.len(),
{
    if msgs.len() == 0 {
        Seq::<u8>::empty()
    } else {
        frame_of(msgs[0]) + frames_of(msgs.skip(1))
    }
}

/// The round trip of a whole stream: a sequence of well-formed messages,
/// encoded frame after frame, decodes back to exactly that sequence.
#[verifier::rlimit(100)]
#[verifier::spinoff_prover]
pub proof fn lemma_frames_roundtrip(msgs: Seq<Message>)
    requires
        forall|i: int| 0 <= i < msgs.len() ==> wf_message(#[trigger] msgs[i]),
    ensures
        decodes_to(frames_of(msgs), msgs),
    decreases msgs.len(),
{
    if msgs.len() > 0 {
        let head = frame_of(msgs[0]);
        let rest = frames_of(msgs.skip(1));
        lemma_frame_roundtrip_with_rest(msgs[0], rest);
        assert((head + rest).skip(head.len() as int) =~= rest);
        assert(forall|i: int| 0 <= i < msgs.skip(1).len() ==> wf_message(
            #[trigger] msgs.skip(1)[i],
        ));
        lemma_frames_roundtrip(msgs.skip(1));
    }
}

} // verus!

//! Streaming decoder for the NASDAQ ITCH 5.0 market-data wire format.
//!
//! The decoder turns an arbitrary byte source into a sequence of strongly
//! typed messages.  A fixed-capacity buffer collects bytes from the source;
//! a frame dispatcher reads the two-byte length prefix and the tag byte and
//! routes the frame to the decode routine for that message type.  Every
//! decode routine carries a contract relating the bytes it consumed to the
//! fields of the value it produced, and the iteration protocol is verified
//! to surface at most one error per malformed stream.

pub mod enums;
pub mod text;
pub mod price;
pub mod errors;
pub mod fields;
pub mod parser;
pub mod stream;
pub mod laws;

pub use enums::{
    EventCode, MarketCategory, FinancialStatus, IssueClassification, IssueSubType,
    LuldRefPriceTier, MarketMakerMode, MarketParticipantState, RegShoAction, TradingState,
    Side, ImbalanceDirection, CrossType, IpoReleaseQualifier, LevelBreached, InterestFlag,
};
pub use text::{ArrayString4, ArrayString8};
pub use price::{Price4, Price8};
pub use errors::{Error, ParseErrorKind};
pub use parser::{
    ParseOutcome, Message, Body, StockDirectory, MarketParticipantPosition, AddOrder,
    ReplaceOrder, ImbalanceIndicator, CrossTrade, RetailPriceImprovementIndicator,
    NonCrossTrade, IpoQuotingPeriod,
};
pub use stream::{ByteSource, KnownSizeReader, MemSource, MessageStream, StreamState};


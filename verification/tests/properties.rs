use itchy::parser::{parse_message, parse_stock_directory};
use itchy::{
    AddOrder, ArrayString4, ArrayString8, Body, CrossType, Error, EventCode, InterestFlag,
    IssueClassification, IssueSubType, LevelBreached, LuldRefPriceTier, MarketCategory,
    MarketMakerMode, MarketParticipantState, MemSource, Message, MessageStream, ParseErrorKind,
    ParseOutcome, Price4, RegShoAction, Side, TradingState,
};

/// A complete system-event frame: length prefix 12, tag `S`, stock locate
/// 0, tracking number 0, timestamp 0x286aab3b3a99, event code `O`.
fn system_event_frame() -> Vec<u8> {
    vec![
        0x00, 0x0c, 0x53, 0x00, 0x00, 0x00, 0x00, 0x28, 0x6a, 0xab, 0x3b, 0x3a, 0x99, 0x4f,
    ]
}

fn collect_messages(mut stream: MessageStream<MemSource>) -> (Vec<Message>, Vec<Error>) {
    let mut msgs = Vec::new();
    let mut errs = Vec::new();
    while let Some(r) = stream.next() {
        match r {
            Ok(m) => msgs.push(m),
            Err(e) => errs.push(e),
        }
    }
    (msgs, errs)
}

#[test]
fn system_event_fields_exact() {
    let buf = system_event_frame();
    match parse_message(&buf, 0) {
        ParseOutcome::Done { value, used } => {
            assert_eq!(used, 14);
            assert_eq!(value.tag, 0x53);
            assert_eq!(value.stock_locate, 0);
            assert_eq!(value.tracking_number, 0);
            assert_eq!(value.timestamp, 0x286aab3b3a99);
            assert_eq!(value.body, Body::SystemEvent { event: EventCode::StartOfMessages });
        },
        other => panic!("expected a message, got {:?}", other),
    }
}

#[test]
fn add_order_roundtrip_fields() {
    // Hand-built frame of an unattributed add order.
    let mut buf: Vec<u8> = vec![
        0x00, 0x24, // length 36
        0x41, // tag 'A'
        0x00, 0x01, // stock locate
        0x00, 0x02, // tracking number
        0x00, 0x00, 0x00, 0x00, 0x12, 0x34, // timestamp
    ];
    buf.extend_from_slice(&[0x00, 0x00, 0x00, 0x00, 0x00, 0x00, 0x05, 0x84]); // reference
    buf.push(0x42); // side 'B'
    buf.extend_from_slice(&[0x00, 0x00, 0x00, 0x64]); // shares
    buf.extend_from_slice(b"ZXZZT   "); // stock
    buf.extend_from_slice(&[0x00, 0x00, 0x27, 0x10]); // price
    assert_eq!(buf.len(), 38);
    let expected = Message {
        tag: 0x41,
        stock_locate: 1,
        tracking_number: 2,
        timestamp: 0x1234,
        body: Body::AddOrder(AddOrder {
            reference: 0x584,
            side: Side::Buy,
            shares: 100,
            stock: ArrayString8 { bytes: *b"ZXZZT   " },
            price: Price4::from(10_000u32),
            mpid: None,
        }),
    };
    match parse_message(&buf, 0) {
        ParseOutcome::Done { value, used } => {
            assert_eq!(used, 38); // the whole frame, nothing left over
            assert_eq!(value, expected);
        },
        other => panic!("expected a message, got {:?}", other),
    }
}

#[test]
fn stock_directory_fields_exact() {
    let body: Vec<u8> = vec![
        0x41, 0x20, 0x20, 0x20, 0x20, 0x20, 0x20, 0x20, // stock "A       "
        0x4e, // market category 'N'
        0x20, // financial status ' '
        0x00, 0x00, 0x00, 0x64, // round lot size 100
        0x4e, // round lots only 'N'
        0x43, // issue classification 'C'
        0x5a, 0x20, // issue subtype "Z "
        0x50, // authenticity 'P'
        0x4e, // short sale threshold 'N'
        0x20, // ipo flag ' '
        0x31, // LULD tier '1'
        0x4e, // etp flag 'N'
        0x00, 0x00, 0x00, 0x00, // leverage factor
        0x4e, // inverse indicator 'N'
    ];
    match parse_stock_directory(&body, 0) {
        ParseOutcome::Done { value, used } => {
            assert_eq!(used, 28);
            assert_eq!(value.stock, ArrayString8 { bytes: *b"A       " });
            assert_eq!(value.market_category, MarketCategory::Nyse);
            assert_eq!(value.financial_status, itchy::FinancialStatus::Unavailable);
            assert_eq!(value.round_lot_size, 100);
            assert_eq!(value.round_lots_only, false);
            assert_eq!(value.issue_classification, IssueClassification::CommonStock);
            assert_eq!(value.issue_subtype, IssueSubType::NotApplicable);
            assert_eq!(value.authenticity, true);
            assert_eq!(value.short_sale_threshold, Some(false));
            assert_eq!(value.ipo_flag, None);
            assert_eq!(value.luld_ref_price_tier, LuldRefPriceTier::Tier1);
            assert_eq!(value.etp_flag, Some(false));
            assert_eq!(value.etp_leverage_factor, 0);
            assert_eq!(value.inverse_indicator, false);
        },
        other => panic!("expected a directory entry, got {:?}", other),
    }
}

#[test]
fn etp_flag_accepts_m_code() {
    let mut body: Vec<u8> = vec![
        0x41, 0x20, 0x20, 0x20, 0x20, 0x20, 0x20, 0x20, 0x4e, 0x20, 0x00, 0x00, 0x00, 0x64,
        0x4e, 0x43, 0x5a, 0x20, 0x50, 0x4e, 0x20, 0x31, 0x4e, 0x00, 0x00, 0x00, 0x00, 0x4e,
    ];
    body[22] = 0x4d; // 'M' counts as present-true for this one field
    match parse_stock_directory(&body, 0) {
        ParseOutcome::Done { value, .. } => assert_eq!(value.etp_flag, Some(true)),
        other => panic!("expected a directory entry, got {:?}", other),
    }
}

#[test]
fn chunked_reads_decode_identically() {
    // Three frames in a row, read at once and one byte at a time.
    let mut data = Vec::new();
    data.extend_from_slice(&system_event_frame());
    data.extend_from_slice(&system_event_frame());
    data.extend_from_slice(&system_event_frame());

    let (msgs_whole, errs_whole) =
        collect_messages(MessageStream::from_reader(MemSource::new(data.clone())));
    let (msgs_single, errs_single) =
        collect_messages(MessageStream::from_reader(MemSource::with_chunk_limit(data, 1)));

    assert_eq!(msgs_whole.len(), 3);
    assert_eq!(msgs_whole, msgs_single);
    assert!(errs_whole.is_empty());
    assert!(errs_single.is_empty());
}

#[test]
fn enumeration_decoders_reject_unknown_codes() {
    assert!(TradingState::from_code(b'Z').is_none());
    assert!(EventCode::from_code(b'Z').is_none());
    assert!(MarketCategory::from_code(b'X').is_none());
    assert!(IssueClassification::from_code(b'Z').is_none());
    assert!(IssueSubType::from_code(b'Z', b'Z').is_none());
    assert!(LuldRefPriceTier::from_code(b'3').is_none());
    assert!(MarketMakerMode::from_code(b'X').is_none());
    assert!(MarketParticipantState::from_code(b'X').is_none());
    assert!(RegShoAction::from_code(b'3').is_none());
    assert!(Side::from_code(b'X').is_none());
    assert!(itchy::ImbalanceDirection::from_code(b'X').is_none());
    assert!(CrossType::from_code(b'X').is_none());
    assert!(itchy::IpoReleaseQualifier::from_code(b'B').is_none());
    assert!(LevelBreached::from_code(b'4').is_none());
    assert!(InterestFlag::from_code(b'X').is_none());
    // The imbalance table is the cross-trade table without the intraday
    // cross.
    assert!(CrossType::from_code(b'I').is_some());
    assert!(CrossType::from_code_imbalance(b'I').is_none());
}

#[test]
fn enumeration_decoders_match_tables() {
    assert_eq!(TradingState::from_code(b'H'), Some(TradingState::Halted));
    assert_eq!(EventCode::from_code(b'C'), Some(EventCode::EndOfMessages));
    assert_eq!(
        IssueSubType::from_code(b'A', b' '),
        Some(IssueSubType::PreferredTrustSecurities)
    );
    assert_eq!(IssueSubType::from_code(b'Z', b' '), Some(IssueSubType::NotApplicable));
    assert_eq!(RegShoAction::from_code(b'0'), Some(RegShoAction::NoPriceTest));
    assert_eq!(CrossType::from_code(b'I'), Some(CrossType::Intraday));
}

#[test]
fn bad_trading_state_fails_whole_frame() {
    // A trading-action frame whose trading-state byte is 'Z': the decode
    // must fail, not fall back to any default state.
    let mut buf: Vec<u8> = vec![
        0x00, 0x19, // length 25
        0x48, // tag 'H'
        0x00, 0x00, 0x00, 0x00, 0x00, 0x00, 0x00, 0x00, 0x00, 0x00, // header
    ];
    buf.extend_from_slice(b"ZXZZT   ");
    buf.push(b'Z'); // trading state: not in the table
    buf.push(0x00); // reserved
    buf.extend_from_slice(b"    ");
    assert_eq!(buf.len(), 27);
    match parse_message(&buf, 0) {
        ParseOutcome::Fail(k) => assert_eq!(k, ParseErrorKind::BadCode(b'Z')),
        other => panic!("expected a decode failure, got {:?}", other),
    }
}

#[test]
fn unknown_tag_is_a_hard_error() {
    let mut buf = system_event_frame();
    buf[2] = b'Z'; // no catalog entry for this tag
    let mut stream = MessageStream::from_reader(MemSource::new(buf));
    match stream.next() {
        Some(Err(Error::Parse(ParseErrorKind::UnknownTag(t), _))) => assert_eq!(t, b'Z'),
        other => panic!("expected an unknown-tag error, got {:?}", other),
    }
    assert!(stream.next().is_none()); // the error latches the stream
}

#[test]
fn non_ascii_symbol_is_a_decode_failure() {
    let mut buf = Vec::new();
    buf.extend_from_slice(&[0x00, 0x19, 0x48]); // trading action
    buf.extend_from_slice(&[0x00, 0x00, 0x00, 0x00, 0x00, 0x00, 0x00, 0x00, 0x00, 0x00]);
    buf.extend_from_slice(&[0x80, 0x20, 0x20, 0x20, 0x20, 0x20, 0x20, 0x20]); // bad symbol byte
    buf.push(b'T');
    buf.push(0x00);
    buf.extend_from_slice(b"    ");
    match parse_message(&buf, 0) {
        ParseOutcome::Fail(k) => assert_eq!(k, ParseErrorKind::InvalidText(0x80)),
        other => panic!("expected a decode failure, got {:?}", other),
    }
}

#[test]
fn truncation_error_then_clean_stop() {
    // One whole frame, then a truncated second frame.
    let mut data = system_event_frame();
    data.extend_from_slice(&system_event_frame()[..8]);
    let mut stream = MessageStream::from_reader(MemSource::new(data));
    assert!(stream.next().unwrap().is_ok());
    match stream.next() {
        Some(Err(Error::Parse(ParseErrorKind::UnexpectedEof, offset))) => {
            assert_eq!(offset, 14); // the truncated frame starts after one message
        },
        other => panic!("expected a truncation error, got {:?}", other),
    }
    assert!(stream.next().is_none());
}

#[test]
fn bytes_read_counts_received_bytes() {
    let mut stream = MessageStream::from_reader(MemSource::new(system_event_frame()));
    assert_eq!(stream.bytes_read(), 0);
    assert!(stream.next().unwrap().is_ok());
    assert_eq!(stream.bytes_read(), 14);
}

#[test]
fn reader_size_reports_source_size() {
    let stream = MessageStream::from_reader(MemSource::new(system_event_frame()));
    assert_eq!(stream.reader_size().unwrap(), 14);
}

#[test]
fn fixed_width_text_rejects_non_ascii() {
    assert!(ArrayString8::new([0x80; 8]).is_none());
    assert!(ArrayString4::new(*b"ABCD").is_some());
    let s = ArrayString8::new(*b"ZXZZT   ").unwrap();
    assert_eq!(s.as_bytes(), b"ZXZZT   "); // padding preserved verbatim
}

#[test]
fn price_raw_keeps_the_wire_integer() {
    assert_eq!(Price4::from(12340001u32).raw(), 12340001);
    assert_eq!(itchy::Price8::from(123400010002u64).raw(), 123400010002);
}

#[test]
fn bad_issue_subtype_pair_fails() {
    let mut body: Vec<u8> = vec![
        0x41, 0x20, 0x20, 0x20, 0x20, 0x20, 0x20, 0x20, 0x4e, 0x20, 0x00, 0x00, 0x00, 0x64,
        0x4e, 0x43, 0x5a, 0x20, 0x50, 0x4e, 0x20, 0x31, 0x4e, 0x00, 0x00, 0x00, 0x00, 0x4e,
    ];
    body[16] = b'Q';
    body[17] = b'Q'; // no such two-byte subtype code
    match parse_stock_directory(&body, 0) {
        ParseOutcome::Fail(k) => assert_eq!(k, ParseErrorKind::BadCodePair(b'Q', b'Q')),
        other => panic!("expected a decode failure, got {:?}", other),
    }
}

/// A source that fails on its first read.
struct FailingSource;

impl itchy::ByteSource for FailingSource {
    fn read_chunk(&mut self, _max: usize) -> Result<Vec<u8>, Error> {
        Err(Error::Io(std::io::Error::new(std::io::ErrorKind::Other, "broken pipe")))
    }
}

#[test]
fn io_failure_surfaces_once_then_stops() {
    let mut stream = MessageStream::from_reader(FailingSource);
    match stream.next() {
        Some(Err(Error::Io(_))) => {},
        other => panic!("expected an I/O failure, got {:?}", other),
    }
    assert!(stream.next().is_none()); // the failure latches the stream
}

use binlog::binlog_file::BinlogFile;
use binlog::errors::BinlogFileError;
use binlog::errors::EventParseError;
use binlog::event::Event;
use binlog::event::EventData;
use binlog::event::TypeCode;
use binlog::source::ByteSource;

const MAGIC: [u8; 4] = [0xfe, 0x62, 0x69, 0x6e];

/// A 19-byte header followed by `body`, all little-endian, with
/// `event_length` taken from the argument rather than computed, so that
/// malformed lengths can be encoded too.
fn encode_event(
    timestamp: u32,
    type_code: u8,
    server_id: u32,
    event_length: u32,
    next_position: u32,
    flags: u16,
    body: &[u8],
) -> Vec<u8> {
    let mut out = Vec::new();
    out.extend_from_slice(&timestamp.to_le_bytes());
    out.push(type_code);
    out.extend_from_slice(&server_id.to_le_bytes());
    out.extend_from_slice(&event_length.to_le_bytes());
    out.extend_from_slice(&next_position.to_le_bytes());
    out.extend_from_slice(&flags.to_le_bytes());
    out.extend_from_slice(body);
    out
}

/// A format-description body: version 4, the given server version NUL-padded
/// to 50 bytes, create timestamp, and common header length.
fn encode_fde_body(version: &str, create_timestamp: u32, common_header_len: u8) -> Vec<u8> {
    let mut body = Vec::new();
    body.extend_from_slice(&4u16.to_le_bytes());
    let mut field = [0u8; 50];
    field[..version.len()].copy_from_slice(version.as_bytes());
    body.extend_from_slice(&field);
    body.extend_from_slice(&create_timestamp.to_le_bytes());
    body.push(common_header_len);
    body
}

#[test]
fn type_code_mapping_is_total() {
    let named = [
        TypeCode::UnknownEvent,
        TypeCode::StartEventV3,
        TypeCode::QueryEvent,
        TypeCode::StopEvent,
        TypeCode::RotateEvent,
        TypeCode::IntvarEvent,
        TypeCode::LoadEvent,
        TypeCode::SlaveEvent,
        TypeCode::CreateFileEvent,
        TypeCode::AppendBlockEvent,
        TypeCode::ExecLoadEvent,
        TypeCode::DeleteFileEvent,
        TypeCode::NewLoadEvent,
        TypeCode::RandEvent,
        TypeCode::UserVarEvent,
        TypeCode::FormatDescriptionEvent,
        TypeCode::XidEvent,
        TypeCode::BeginLoadQueryEvent,
        TypeCode::ExecuteLoadQueryEvent,
        TypeCode::TableMapEvent,
        TypeCode::PreGaWriteRowsEvent,
        TypeCode::PreGaUpdateRowsEvent,
        TypeCode::PreGaDeleteRowsEvent,
        TypeCode::WriteRowsEventV1,
        TypeCode::UpdateRowsEventV1,
        TypeCode::DeleteRowsEventV1,
        TypeCode::IncidentEvent,
        TypeCode::HeartbeatLogEvent,
        TypeCode::IgnorableLogEvent,
        TypeCode::RowsQueryLogEvent,
        TypeCode::WriteRowsEventV2,
        TypeCode::UpdateRowsEventV2,
        TypeCode::DeleteRowsEventV2,
        TypeCode::GtidLogEvent,
        TypeCode::AnonymousGtidLogEvent,
        TypeCode::PreviousGtidsLogEvent,
    ];
    for b in 0u16..=255u16 {
        let code = TypeCode::from_byte(b as u8);
        if b <= 35 {
            assert_eq!(code, named[b as usize]);
        } else {
            assert_eq!(code, TypeCode::UnknownEvent);
        }
    }
}

#[test]
fn open_with_valid_magic() {
    let file = BinlogFile::from_reader(ByteSource::new(MAGIC.to_vec())).unwrap();
    assert_eq!(file.event_set_start_offset(), 4);
}

#[test]
fn open_with_bad_magic_reports_observed_bytes() {
    let r = BinlogFile::from_reader(ByteSource::new(vec![0x61, 0x62, 0x63, 0x64]));
    match r {
        Err(BinlogFileError::BadMagic(seen)) => assert_eq!(seen, [0x61, 0x62, 0x63, 0x64]),
        _ => panic!("expected BadMagic"),
    }
}

#[test]
fn open_with_short_source_is_io_error() {
    let r = BinlogFile::from_reader(ByteSource::new(vec![0xfe, 0x62, 0x69]));
    assert!(matches!(r, Err(BinlogFileError::Io)));
}

#[test]
fn parse_reproduces_header_fields() {
    let body = [0xaa, 0xbb, 0xcc];
    let bytes = encode_event(1_600_000_000, 2, 777, 19 + 3, 4096, 0x0001, &body);
    let mut src = ByteSource::new(bytes);
    let ev = Event::parse(&mut src, 42).unwrap();
    assert_eq!(ev.timestamp(), 1_600_000_000);
    assert_eq!(ev.type_code(), TypeCode::QueryEvent);
    assert_eq!(ev.server_id(), 777);
    assert_eq!(ev.event_length(), 22);
    assert_eq!(ev.next_position(), 4096u64);
    assert_eq!(ev.flags(), 0x0001);
    assert_eq!(ev.data().as_slice(), &body);
    assert_eq!(ev.offset(), 42);
}

#[test]
fn parse_rejects_event_length_below_header_size() {
    let bytes = encode_event(0, 2, 1, 18, 0, 0, &[]);
    let mut src = ByteSource::new(bytes);
    let r = Event::parse(&mut src, 0);
    match r {
        Err(EventParseError::EventLengthTooSmall { event_length }) => {
            assert_eq!(event_length, 18)
        },
        _ => panic!("expected EventLengthTooSmall"),
    }
}

#[test]
fn parse_rejects_truncated_header() {
    let mut src = ByteSource::new(vec![0u8; 10]);
    let r = Event::parse(&mut src, 0);
    assert!(matches!(r, Err(EventParseError::TruncatedHeader)));
}

#[test]
fn parse_rejects_truncated_body() {
    let bytes = encode_event(0, 2, 1, 19 + 6, 0, 0, &[1, 2]);
    let mut src = ByteSource::new(bytes);
    let r = Event::parse(&mut src, 0);
    assert!(matches!(r, Err(EventParseError::TruncatedBody)));
}

#[test]
fn format_description_round_trip() {
    let body = encode_fde_body("5.7.26-log", 1000, 19);
    let decoded =
        Event::parse_event_data_by_type_code(TypeCode::FormatDescriptionEvent, &body).unwrap();
    match decoded {
        Some(EventData::FormatDescriptionEvent {
            binlog_version,
            server_version,
            create_timestamp,
            common_header_len,
        }) => {
            assert_eq!(binlog_version, 4);
            assert_eq!(server_version, "5.7.26-log");
            assert_eq!(create_timestamp, 1000);
            assert_eq!(common_header_len, 19);
        },
        _ => panic!("expected a decoded FormatDescriptionEvent"),
    }
}

#[test]
fn minimal_file_end_to_end() {
    let body = encode_fde_body("5.7.26-log", 1000, 19);
    let mut bytes = MAGIC.to_vec();
    bytes.extend_from_slice(&encode_event(5, 15, 1, 19 + body.len() as u32, 0, 0, &body));
    let file = BinlogFile::from_reader(ByteSource::new(bytes)).unwrap();
    let offset = file.event_set_start_offset();
    assert_eq!(offset, 4);
    let mut src = file.into_source();
    let ev = Event::parse(&mut src, offset).unwrap();
    assert_eq!(ev.type_code(), TypeCode::FormatDescriptionEvent);
    assert_eq!(ev.offset(), 4);
    let decoded = Event::parse_event_data_by_type_code(ev.type_code(), ev.data()).unwrap();
    match decoded {
        Some(EventData::FormatDescriptionEvent {
            binlog_version,
            server_version,
            create_timestamp,
            common_header_len,
        }) => {
            assert_eq!(binlog_version, 4);
            assert_eq!(server_version, "5.7.26-log");
            assert_eq!(create_timestamp, 1000);
            assert_eq!(common_header_len, 19);
        },
        _ => panic!("expected a decoded FormatDescriptionEvent"),
    }
}

#[test]
fn two_events_parse_in_sequence() {
    let mut bytes = encode_event(1, 16, 9, 19 + 1, 20, 0, &[0x07]);
    bytes.extend_from_slice(&encode_event(2, 3, 9, 19, 39, 0, &[]));
    let mut src = ByteSource::new(bytes);
    let first = Event::parse(&mut src, 0).unwrap();
    let second = Event::parse(&mut src, first.next_position()).unwrap();
    assert_eq!(first.type_code(), TypeCode::XidEvent);
    assert_eq!(first.data().as_slice(), &[0x07]);
    assert_eq!(second.type_code(), TypeCode::StopEvent);
    assert_eq!(second.timestamp(), 2);
    assert_eq!(second.offset(), 20);
    assert_eq!(src.remaining(), 0);
}

#[test]
fn unmodeled_type_decodes_to_none() {
    let decoded = Event::parse_event_data_by_type_code(TypeCode::QueryEvent, &[1, 2, 3]).unwrap();
    assert!(decoded.is_none());
}

#[test]
fn format_description_body_too_short() {
    let r = Event::parse_event_data_by_type_code(TypeCode::FormatDescriptionEvent, &[4, 0, 53]);
    assert!(matches!(r, Err(EventParseError::BodyTooShort)));
}

#[test]
fn format_description_missing_nul() {
    let mut body = encode_fde_body("x", 0, 19);
    for i in 2..52 {
        body[i] = b'y';
    }
    let r = Event::parse_event_data_by_type_code(TypeCode::FormatDescriptionEvent, &body);
    assert!(matches!(r, Err(EventParseError::ServerVersionMissingNul)));
}

#[test]
fn format_description_invalid_utf8() {
    let mut body = encode_fde_body("ab", 0, 19);
    body[2] = 0xff;
    body[3] = 0xfe;
    let r = Event::parse_event_data_by_type_code(TypeCode::FormatDescriptionEvent, &body);
    assert!(matches!(r, Err(EventParseError::ServerVersionNotUtf8)));
}

#[test]
fn empty_server_version_decodes_to_empty_string() {
    let body = encode_fde_body("", 7, 19);
    let decoded =
        Event::parse_event_data_by_type_code(TypeCode::FormatDescriptionEvent, &body).unwrap();
    match decoded {
        Some(EventData::FormatDescriptionEvent { server_version, create_timestamp, .. }) => {
            assert_eq!(server_version, "");
            assert_eq!(create_timestamp, 7);
        },
        _ => panic!("expected a decoded FormatDescriptionEvent"),
    }
}

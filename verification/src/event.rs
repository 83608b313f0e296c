use crate::errors::EventParseError;
use crate::source::ByteSource;
use vstd::prelude::*;

verus! {

/// The kind of an event, as identified by the single-byte type code in its
/// header. The wire table is closed: every byte value 0 through 35 has a
/// named kind, and every other byte value means `UnknownEvent`.
#[derive(Debug, Clone, Copy, PartialEq, Eq, Structural)]
pub enum TypeCode {
    UnknownEvent,
    StartEventV3,
    QueryEvent,
    StopEvent,
    RotateEvent,
    IntvarEvent,
    LoadEvent,
    SlaveEvent,
    CreateFileEvent,
    AppendBlockEvent,
    ExecLoadEvent,
    DeleteFileEvent,
    NewLoadEvent,
    RandEvent,
    UserVarEvent,
    FormatDescriptionEvent,
    XidEvent,
    BeginLoadQueryEvent,
    ExecuteLoadQueryEvent,
    TableMapEvent,
    PreGaWriteRowsEvent,
    PreGaUpdateRowsEvent,
    PreGaDeleteRowsEvent,
    WriteRowsEventV1,
    UpdateRowsEventV1,
    DeleteRowsEventV1,
    IncidentEvent,
    HeartbeatLogEvent,
    IgnorableLogEvent,
    RowsQueryLogEvent,
    WriteRowsEventV2,
    UpdateRowsEventV2,
    DeleteRowsEventV2,
    GtidLogEvent,
    AnonymousGtidLogEvent,
    PreviousGtidsLogEvent,
}

/// The wire mapping from a type-code byte to an event kind.
pub open spec fn spec_type_code(b: u8) -> TypeCode {
    match b {
        0u8 => TypeCode::UnknownEvent,
        1u8 => TypeCode::StartEventV3,
        2u8 => TypeCode::QueryEvent,
        3u8 => TypeCode::StopEvent,
        4u8 => TypeCode::RotateEvent,
        5u8 => TypeCode::IntvarEvent,
        6u8 => TypeCode::LoadEvent,
        7u8 => TypeCode::SlaveEvent,
        8u8 => TypeCode::CreateFileEvent,
        9u8 => TypeCode::AppendBlockEvent,
        10u8 => TypeCode::ExecLoadEvent,
        11u8 => TypeCode::DeleteFileEvent,
        12u8 => TypeCode::NewLoadEvent,
        13u8 => TypeCode::RandEvent,
        14u8 => TypeCode::UserVarEvent,
        15u8 => TypeCode::FormatDescriptionEvent,
        16u8 => TypeCode::XidEvent,
        17u8 => TypeCode::BeginLoadQueryEvent,
        18u8 => TypeCode::ExecuteLoadQueryEvent,
        19u8 => TypeCode::TableMapEvent,
        20u8 => TypeCode::PreGaWriteRowsEvent,
        21u8 => TypeCode::PreGaUpdateRowsEvent,
        22u8 => TypeCode::PreGaDeleteRowsEvent,
        23u8 => TypeCode::WriteRowsEventV1,
        24u8 => TypeCode::UpdateRowsEventV1,
        25u8 => TypeCode::DeleteRowsEventV1,
        26u8 => TypeCode::IncidentEvent,
        27u8 => TypeCode::HeartbeatLogEvent,
        28u8 => TypeCode::IgnorableLogEvent,
        29u8 => TypeCode::RowsQueryLogEvent,
        30u8 => TypeCode::WriteRowsEventV2,
        31u8 => TypeCode::UpdateRowsEventV2,
        32u8 => TypeCode::DeleteRowsEventV2,
        33u8 => TypeCode::GtidLogEvent,
        34u8 => TypeCode::AnonymousGtidLogEvent,
        35u8 => TypeCode::PreviousGtidsLogEvent,
        _ => TypeCode::UnknownEvent,
    }
}

impl TypeCode {
    /// Total mapping from a wire byte to an event kind: never fails, and any
    /// byte outside the named table yields `UnknownEvent`.
    pub fn from_byte(b: u8) -> (r: Self)
        ensures
            r == spec_type_code(b),
            b > 35 ==> r == TypeCode::UnknownEvent,
    {
        match b {
            0 => TypeCode::UnknownEvent,
            1 => TypeCode::StartEventV3,
            2 => TypeCode::QueryEvent,
            3 => TypeCode::StopEvent,
            4 => TypeCode::RotateEvent,
            5 => TypeCode::IntvarEvent,
            6 => TypeCode::LoadEvent,
            7 => TypeCode::SlaveEvent,
            8 => TypeCode::CreateFileEvent,
            9 => TypeCode::AppendBlockEvent,
            10 => TypeCode::ExecLoadEvent,
            11 => TypeCode::DeleteFileEvent,
            12 => TypeCode::NewLoadEvent,
            13 => TypeCode::RandEvent,
            14 => TypeCode::UserVarEvent,
            15 => TypeCode::FormatDescriptionEvent,
            16 => TypeCode::XidEvent,
            17 => TypeCode::BeginLoadQueryEvent,
            18 => TypeCode::ExecuteLoadQueryEvent,
            19 => TypeCode::TableMapEvent,
            20 => TypeCode::PreGaWriteRowsEvent,
            21 => TypeCode::PreGaUpdateRowsEvent,
            22 => TypeCode::PreGaDeleteRowsEvent,
            23 => TypeCode::WriteRowsEventV1,
            24 => TypeCode::UpdateRowsEventV1,
            25 => TypeCode::DeleteRowsEventV1,
            26 => TypeCode::IncidentEvent,
            27 => TypeCode::HeartbeatLogEvent,
            28 => TypeCode::IgnorableLogEvent,
            29 => TypeCode::RowsQueryLogEvent,
            30 => TypeCode::WriteRowsEventV2,
            31 => TypeCode::UpdateRowsEventV2,
            32 => TypeCode::DeleteRowsEventV2,
            33 => TypeCode::GtidLogEvent,
            34 => TypeCode::AnonymousGtidLogEvent,
            35 => TypeCode::PreviousGtidsLogEvent,
            _ => TypeCode::UnknownEvent,
        }
    }
}

/// The unsigned 16-bit value encoded little-endian in the first two bytes of
/// `s`.
pub open spec fn spec_u16_le(s: Seq<u8>) -> u16
    recommends
        s.len() >= 2,
{
    (s[0] + 0x100 * (s[1] as int)) as u16
}

/// The unsigned 32-bit value encoded little-endian in the first four bytes of
/// `s`.
pub open spec fn spec_u32_le(s: Seq<u8>) -> u32
    recommends
        s.len() >= 4,
{
    (s[0] + 0x100 * (s[1] as int) + 0x10000 * (s[2] as int) + 0x1000000 * (s[3] as int)) as u32
}

/// Decode the little-endian 16-bit field at byte offset `i` of `b`.
fn read_u16_at(b: &[u8], i: usize) -> (r: u16)
    requires
        i + 2 <= b@.len(),
    ensures
        r == spec_u16_le(b@.subrange(i as int, i + 2)),
{
    let r = b[i] as u16 + (b[i + 1] as u16) * 0x100;
    proof {
        let s = b@.subrange(i as int, i + 2);
        assert(s[0] == b@[i as int]);
        assert(s[1] == b@[i + 1]);
    }
    r
}

/// Decode the little-endian 32-bit field at byte offset `i` of `b`.
fn read_u32_at(b: &[u8], i: usize) -> (r: u32)
    requires
        i + 4 <= b@.len(),
    ensures
        r == spec_u32_le(b@.subrange(i as int, i + 4)),
{
    let r = b[i] as u32 + (b[i + 1] as u32) * 0x100 + (b[i + 2] as u32) * 0x10000 + (b[i
        + 3] as u32) * 0x1000000;
    proof {
        let s = b@.subrange(i as int, i + 4);
        assert(s[0] == b@[i as int]);
        assert(s[1] == b@[i + 1]);
        assert(s[2] == b@[i + 2]);
        assert(s[3] == b@[i + 3]);
    }
    r
}

/// One decoded record of the log: the fixed header fields, the raw body
/// bytes, and the stream offset of the header, supplied by the caller.
/// Immutable once constructed.
#[derive(Debug)]
pub struct Event {
    pub timestamp: u32,
    pub type_code: TypeCode,
    pub server_id: u32,
    pub event_length: u32,
    pub next_position: u32,
    pub flags: u16,
    pub data: Vec<u8>,
    pub offset: u64,
}

/// The mathematical content of an `Event`: its header fields, body bytes and
/// stream offset as plain values.
pub ghost struct EventModel {
    pub timestamp: u32,
    pub type_code: TypeCode,
    pub server_id: u32,
    pub event_length: u32,
    pub next_position: u32,
    pub flags: u16,
    pub data: Seq<u8>,
    pub offset: u64,
}

impl View for Event {
    type V = EventModel;

    open spec fn view(&self) -> EventModel {
        EventModel {
            timestamp: self.timestamp,
            type_code: self.type_code,
            server_id: self.server_id,
            event_length: self.event_length,
            next_position: self.next_position,
            flags: self.flags,
            data: self.data@,
            offset: self.offset,
        }
    }
}

/// What parsing one event at position `p` of the byte stream `s` yields, and
/// the position at which the parse stops. The 19 header bytes are, in order
/// and little-endian: 4-byte timestamp, 1-byte type code, 4-byte server id,
/// 4-byte event length, 4-byte next position, 2-byte flags; `event_length`
/// counts header and body together, so the body holds `event_length - 19`
/// bytes.
pub open spec fn spec_parse_event(s: Seq<u8>, p: int, offset: u64) -> (Result<
    EventModel,
    EventParseError,
>, int)
    recommends
        0 <= p <= s.len(),
{
    if s.len() < p + 19 {
        (Err(EventParseError::TruncatedHeader), p)
    } else {
        let event_length = spec_u32_le(s.subrange(p + 9, p + 13));
        if event_length < 19 {
            (Err(EventParseError::EventLengthTooSmall { event_length }), p + 19)
        } else if s.len() < p + event_length {
            (Err(EventParseError::TruncatedBody), p + 19)
        } else {
            (
                Ok(
                    EventModel {
                        timestamp: spec_u32_le(s.subrange(p, p + 4)),
                        type_code: spec_type_code(s[p + 4]),
                        server_id: spec_u32_le(s.subrange(p + 5, p + 9)),
                        event_length,
                        next_position: spec_u32_le(s.subrange(p + 13, p + 17)),
                        flags: spec_u16_le(s.subrange(p + 17, p + 19)),
                        data: s.subrange(p + 19, p + event_length),
                        offset,
                    },
                ),
                p + event_length,
            )
        }
    }
}

impl Event {
    /// Decode the next event from the source: the fixed 19-byte header, then
    /// exactly `event_length - 19` body bytes. The caller supplies `offset`,
    /// the stream position of the header, which is only stamped onto the
    /// event. A short header, an `event_length` below 19 and a short body
    /// each fail with their own error, exactly as `spec_parse_event` says.
    pub fn parse(source: &mut ByteSource, offset: u64) -> (r: Result<Event, EventParseError>)
        requires
            old(source).wf(),
        ensures
            final(source).wf(),
            final(source).bytes() == old(source).bytes(),
            ({
                let (res, end) = spec_parse_event(
                    old(source).bytes(),
                    old(source).position(),
                    offset,
                );
                &&& final(source).position() == end
                &&& r matches Ok(ev) ==> res matches Ok(m) && ev@ == m
                &&& r matches Err(e) ==> res matches Err(m) && e == m
            }),
    {
        let ghost s = old(source).bytes();
        let ghost p = old(source).position();
        let header = match source.read_exact(19) {
            Some(h) => h,
            None => {
                return Err(EventParseError::TruncatedHeader);
            },
        };
        proof {
            assert(header@ == s.subrange(p, p + 19));
            assert(header@.subrange(0, 4) =~= s.subrange(p, p + 4));
            assert(header@.subrange(5, 9) =~= s.subrange(p + 5, p + 9));
            assert(header@.subrange(9, 13) =~= s.subrange(p + 9, p + 13));
            assert(header@.subrange(13, 17) =~= s.subrange(p + 13, p + 17));
            assert(header@.subrange(17, 19) =~= s.subrange(p + 17, p + 19));
        }
        let hs = header.as_slice();
        let timestamp = read_u32_at(hs, 0);
        let type_code = TypeCode::from_byte(hs[4]);
        let server_id = read_u32_at(hs, 5);
        let event_length = read_u32_at(hs, 9);
        let next_position = read_u32_at(hs, 13);
        let flags = read_u16_at(hs, 17);
        if event_length < 19 {
            return Err(EventParseError::EventLengthTooSmall { event_length });
        }
        let data_length = (event_length - 19) as usize;
        let data = match source.read_exact(data_length) {
            Some(d) => d,
            None => {
                return Err(EventParseError::TruncatedBody);
            },
        };
        proof {
            assert(data@ =~= s.subrange(p + 19, p + event_length));
        }
        Ok(
            Event {
                timestamp,
                type_code,
                server_id,
                event_length,
                next_position,
                flags,
                data,
                offset,
            },
        )
    }

    /// The kind of the event.
    pub fn type_code(&self) -> (r: TypeCode)
        ensures
            r == self@.type_code,
    {
        self.type_code
    }

    /// Seconds since the epoch at which the originating server created the
    /// event.
    pub fn timestamp(&self) -> (r: u32)
        ensures
            r == self@.timestamp,
    {
        self.timestamp
    }

    /// Identifier of the originating server.
    pub fn server_id(&self) -> (r: u32)
        ensures
            r == self@.server_id,
    {
        self.server_id
    }

    /// Byte offset in the logical log at which the next event begins.
    pub fn next_position(&self) -> (r: u64)
        ensures
            r == self@.next_position,
    {
        self.next_position as u64
    }

    /// The raw body bytes; their length is `event_length - 19`.
    pub fn data(&self) -> (r: &Vec<u8>)
        ensures
            r@ == self@.data,
    {
        &self.data
    }

    /// The event's flag bitmask, exposed uninterpreted.
    pub fn flags(&self) -> (r: u16)
        ensures
            r == self@.flags,
    {
        self.flags
    }

    /// Total length of header and body together, as encoded on the wire.
    pub fn event_length(&self) -> (r: u32)
        ensures
            r == self@.event_length,
    {
        self.event_length
    }

    /// The stream offset of this event's header, as supplied at parse time.
    pub fn offset(&self) -> (r: u64)
        ensures
            r == self@.offset,
    {
        self.offset
    }
}

/// A decoded, type-specific view of an event's body bytes, produced on
/// demand. Only the format-description body is modeled so far; other types
/// decode to "no structured data".
pub enum EventData {
    FormatDescriptionEvent {
        binlog_version: u16,
        server_version: String,
        create_timestamp: u32,
        common_header_len: u8,
    },
}

/// The mathematical content of an `EventData`.
pub ghost enum EventDataModel {
    FormatDescriptionEvent {
        binlog_version: u16,
        server_version: Seq<char>,
        create_timestamp: u32,
        common_header_len: u8,
    },
}

impl View for EventData {
    type V = EventDataModel;

    open spec fn view(&self) -> EventDataModel {
        match self {
            EventData::FormatDescriptionEvent {
                binlog_version,
                server_version,
                create_timestamp,
                common_header_len,
            } => EventDataModel::FormatDescriptionEvent {
                binlog_version: *binlog_version,
                server_version: server_version@,
                create_timestamp: *create_timestamp,
                common_header_len: *common_header_len,
            },
        }
    }
}

/// `i` is the index of the first NUL byte of `w`.
pub open spec fn spec_is_first_nul(w: Seq<u8>, i: int) -> bool {
    &&& 0 <= i < w.len()
    &&& w[i] == 0
    &&& forall|j: int| 0 <= j < i ==> w[j] != 0
}

/// `w` holds a NUL byte somewhere.
pub open spec fn spec_has_nul(w: Seq<u8>) -> bool {
    exists|i: int| spec_is_first_nul(w, i)
}

/// The index of the first NUL byte of `w` (meaningful only when one exists).
pub open spec fn spec_first_nul(w: Seq<u8>) -> int {
    choose|i: int| spec_is_first_nul(w, i)
}

/// A sequence has at most one first NUL index.
proof fn lemma_first_nul_unique(w: Seq<u8>, i: int, j: int)
    requires
        spec_is_first_nul(w, i),
        spec_is_first_nul(w, j),
    ensures
        i == j,
{
    if i < j {
        assert(w[i] != 0);
    } else if j < i {
        assert(w[j] != 0);
    }
}

/// What `str::from_utf8` decodes the bytes `b` to: `None` when `b` is not
/// valid UTF-8, otherwise the decoded characters. The outcome depends on the
/// bytes alone.
pub uninterp spec fn utf8_decode(b: Seq<u8>) -> Option<Seq<char>>;

/// Relies on std::str::from_utf8: it succeeds exactly on valid UTF-8 input,
/// and its result is a function of the bytes alone, named `utf8_decode`.
#[verifier::external_body]
fn utf8_string(b: &Vec<u8>) -> (r: Option<String>)
    ensures
        r is Some <==> utf8_decode(b@) is Some,
        r matches Some(s) ==> utf8_decode(b@) matches Some(cs) && s@ == cs,
{
    match std::str::from_utf8(b) {
        Ok(s) => Some(s.to_owned()),
        Err(_) => None,
    }
}

/// What decoding a body of `data` bytes under type code `code` yields. Codes
/// other than `FormatDescriptionEvent` are not modeled and yield `Ok(None)`.
/// A format-description body is, in order: a little-endian 2-byte binlog
/// version; a fixed 50-byte field holding the NUL-terminated, UTF-8
/// server-version string; a little-endian 4-byte create timestamp; a 1-byte
/// common header length; and an uninterpreted per-type header-length table.
pub open spec fn spec_parse_body(code: TypeCode, data: Seq<u8>) -> Result<
    Option<EventDataModel>,
    EventParseError,
> {
    if code != TypeCode::FormatDescriptionEvent {
        Ok(None)
    } else if data.len() < 57 {
        Err(EventParseError::BodyTooShort)
    } else {
        let w = data.subrange(2, 52);
        if !spec_has_nul(w) {
            Err(EventParseError::ServerVersionMissingNul)
        } else {
            match utf8_decode(w.subrange(0, spec_first_nul(w))) {
                Some(cs) => Ok(
                    Some(
                        EventDataModel::FormatDescriptionEvent {
                            binlog_version: spec_u16_le(data.subrange(0, 2)),
                            server_version: cs,
                            create_timestamp: spec_u32_le(data.subrange(52, 56)),
                            common_header_len: data[56],
                        },
                    ),
                ),
                None => Err(EventParseError::ServerVersionNotUtf8),
            }
        }
    }
}

/// A well-formed event reproduces its wire fields exactly: when the stream
/// `s` holds, at position `p`, a full 19-byte header encoding `timestamp`,
/// the type-code byte `code`, `server_id`, an `event_length` of at least 19,
/// `next_position` and `flags`, followed by at least `event_length - 19` more
/// bytes, parsing succeeds with exactly those fields, the caller's `offset`,
/// a body of exactly `event_length - 19` bytes, and stops at `p +
/// event_length`.
pub proof fn lemma_parse_reproduces_header(
    s: Seq<u8>,
    p: int,
    offset: u64,
    timestamp: u32,
    code: u8,
    server_id: u32,
    event_length: u32,
    next_position: u32,
    flags: u16,
)
    requires
        0 <= p,
        p + event_length <= s.len(),
        event_length >= 19,
        spec_u32_le(s.subrange(p, p + 4)) == timestamp,
        s[p + 4] == code,
        spec_u32_le(s.subrange(p + 5, p + 9)) == server_id,
        spec_u32_le(s.subrange(p + 9, p + 13)) == event_length,
        spec_u32_le(s.subrange(p + 13, p + 17)) == next_position,
        spec_u16_le(s.subrange(p + 17, p + 19)) == flags,
    ensures
        ({
            let (res, end) = spec_parse_event(s, p, offset);
            &&& res matches Ok(m) && {
                &&& m.timestamp == timestamp
                &&& m.type_code == spec_type_code(code)
                &&& m.server_id == server_id
                &&& m.event_length == event_length
                &&& m.next_position == next_position
                &&& m.flags == flags
                &&& m.offset == offset
                &&& m.data == s.subrange(p + 19, p + event_length)
                &&& m.data.len() == event_length - 19
            }
            &&& end == p + event_length
        }),
{
}

/// An `event_length` below the 19 bytes of the header itself is rejected
/// with its own error (and, the body length being checked subtraction, can
/// neither underflow nor demand a negative allocation).
pub proof fn lemma_short_event_length_rejected(s: Seq<u8>, p: int, offset: u64)
    requires
        0 <= p,
        p + 19 <= s.len(),
        spec_u32_le(s.subrange(p + 9, p + 13)) < 19,
    ensures
        spec_parse_event(s, p, offset).0 == Err::<EventModel, EventParseError>(
            EventParseError::EventLengthTooSmall {
                event_length: spec_u32_le(s.subrange(p + 9, p + 13)),
            },
        ),
{
}

/// A truncated source is rejected, never zero-filled: fewer than 19 bytes
/// left means a truncated header, and fewer than `event_length` bytes left
/// under a well-formed `event_length` means a truncated body.
pub proof fn lemma_truncated_source_rejected(s: Seq<u8>, p: int, offset: u64)
    requires
        0 <= p <= s.len(),
    ensures
        s.len() < p + 19 ==> spec_parse_event(s, p, offset).0 == Err::<
            EventModel,
            EventParseError,
        >(EventParseError::TruncatedHeader),
        p + 19 <= s.len() && spec_u32_le(s.subrange(p + 9, p + 13)) >= 19 && s.len() < p
            + spec_u32_le(s.subrange(p + 9, p + 13)) ==> spec_parse_event(s, p, offset).0 == Err::<
            EventModel,
            EventParseError,
        >(EventParseError::TruncatedBody),
{
}

/// A type code whose body layout is not modeled yet decodes to `Ok(None)`:
/// an absence of structured data, never an error.
pub proof fn lemma_unmodeled_type_not_decoded(code: TypeCode, data: Seq<u8>)
    requires
        code != TypeCode::FormatDescriptionEvent,
    ensures
        spec_parse_body(code, data) == Ok::<Option<EventDataModel>, EventParseError>(None),
{
}

impl Event {
    /// Decode body bytes under a type code, exactly as `spec_parse_body`
    /// says. A type code that is not modeled yet yields `Ok(None)`: "not
    /// decoded" is an absence, not an error. A format-description body that
    /// is too short, has no NUL in its 50-byte server-version field, or holds
    /// invalid UTF-8 there fails with its own error.
    pub fn parse_event_data_by_type_code(type_code: TypeCode, data: &[u8]) -> (r: Result<
        Option<EventData>,
        EventParseError,
    >)
        ensures
            ({
                let res = spec_parse_body(type_code, data@);
                &&& r is Ok <==> res is Ok
                &&& r matches Ok(o) ==> res matches Ok(om) && {
                    &&& o is Some <==> om is Some
                    &&& o matches Some(d) ==> om matches Some(m) && d@ == m
                }
                &&& r matches Err(e) ==> res matches Err(em) && e == em
            }),
    {
        match type_code {
            TypeCode::FormatDescriptionEvent => {
                if data.len() < 57 {
                    return Err(EventParseError::BodyTooShort);
                }
                let binlog_version = read_u16_at(data, 0);
                let ghost w = data@.subrange(2, 52);
                let mut i: usize = 0;
                while i < 50 && data[2 + i] != 0
                    invariant
                        i <= 50,
                        data@.len() >= 57,
                        w == data@.subrange(2, 52),
                        forall|j: int| 0 <= j < i ==> w[j] != 0,
                    decreases 50 - i,
                {
                    assert(w[i as int] == data@[2 + i]);
                    i += 1;
                }
                if i == 50 {
                    proof {
                        assert(!spec_has_nul(w)) by {
                            if spec_has_nul(w) {
                                let k = choose|k: int| spec_is_first_nul(w, k);
                                assert(w[k] == 0);
                            }
                        }
                    }
                    return Err(EventParseError::ServerVersionMissingNul);
                }
                proof {
                    assert(w[i as int] == data@[2 + i]);
                    assert(spec_is_first_nul(w, i as int));
                    lemma_first_nul_unique(w, i as int, spec_first_nul(w));
                }
                let mut version_bytes: Vec<u8> = Vec::new();
                let mut j: usize = 0;
                while j < i
                    invariant
                        j <= i,
                        i < 50,
                        data@.len() >= 57,
                        version_bytes@ == data@.subrange(2, 2 + j),
                    decreases i - j,
                {
                    version_bytes.push(data[2 + j]);
                    assert(version_bytes@ =~= data@.subrange(2, 2 + j + 1));
                    j += 1;
                }
                proof {
                    assert(version_bytes@ =~= w.subrange(0, i as int));
                }
                let server_version = match utf8_string(&version_bytes) {
                    Some(s) => s,
                    None => {
                        return Err(EventParseError::ServerVersionNotUtf8);
                    },
                };
                let create_timestamp = read_u32_at(data, 52);
                let common_header_len = data[56];
                Ok(
                    Some(
                        EventData::FormatDescriptionEvent {
                            binlog_version,
                            server_version,
                            create_timestamp,
                            common_header_len,
                        },
                    ),
                )
            },
            _ => Ok(None),
        }
    }
}

} // verus!

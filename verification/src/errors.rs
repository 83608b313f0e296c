use vstd::prelude::*;

verus! {

/// Why decoding a single event failed. Each variant is scoped to one event:
/// a stream reader may abort or skip to the next plausible offset, but this
/// crate only reports the failure.
#[derive(Debug)]
pub enum EventParseError {
    /// Fewer than the 19 header bytes remained in the source.
    TruncatedHeader,
    /// The header's `event_length` field was smaller than the 19-byte header
    /// itself; honouring it would underflow the body length.
    EventLengthTooSmall { event_length: u32 },
    /// The source ended before the `event_length - 19` body bytes promised by
    /// the header.
    TruncatedBody,
    /// A format-description body was shorter than its fixed-width fields
    /// (version, 50-byte server-version field, timestamp, header length).
    BodyTooShort,
    /// No NUL terminator was found inside the 50-byte server-version field.
    ServerVersionMissingNul,
    /// The server-version bytes before the NUL were not valid UTF-8.
    ServerVersionNotUtf8,
}

/// Why a byte source could not be opened as a binlog file.
#[derive(Debug)]
pub enum BinlogFileError {
    /// An event inside the file failed to decode.
    EventParseError(EventParseError),
    /// The first four bytes were not the binlog magic marker; carries the
    /// four bytes actually observed.
    BadMagic([u8; 4]),
    /// The source ended before four magic bytes could be read.
    Io,
}

} // verus!

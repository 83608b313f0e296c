//! Decoder for the MySQL binary log ("binlog") file format: a fixed 4-byte
//! magic marker followed by a stream of length-prefixed, self-describing
//! event records. The crate validates the framing, decodes the fixed 19-byte
//! event header, and decodes type-specific event bodies on demand.

pub mod binlog_file;
pub mod errors;
pub mod event;
pub mod source;

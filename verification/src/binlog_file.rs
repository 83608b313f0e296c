use crate::errors::BinlogFileError;
use crate::source::ByteSource;
use vstd::prelude::*;

verus! {

/// The fixed four-byte magic marker that opens every binlog file.
pub open spec fn spec_magic() -> Seq<u8> {
    seq![0xfeu8, 0x62u8, 0x69u8, 0x6eu8]
}

/// An opened binlog file: the byte source, positioned immediately past the
/// validated magic marker, and the offset at which the event stream begins.
pub struct BinlogFile {
    pub file: ByteSource,
    pub event_set_start_offset: u64,
}

impl BinlogFile {
    /// Validate the magic marker at the source's current position. Succeeds
    /// exactly when four bytes could be read and they equal the magic
    /// sequence; then the source sits right past the marker and the event
    /// stream starts at offset 4. Any other four bytes fail with `BadMagic`
    /// carrying them; a source of fewer than four bytes fails with `Io`.
    pub fn from_reader(reader: ByteSource) -> (r: Result<BinlogFile, BinlogFileError>)
        requires
            reader.wf(),
        ensures
            ({
                let s = reader.bytes();
                let p = reader.position();
                if s.len() < p + 4 {
                    r matches Err(BinlogFileError::Io)
                } else if s.subrange(p, p + 4) == spec_magic() {
                    &&& r matches Ok(f)
                    &&& f.file.wf()
                    &&& f.file.bytes() == s
                    &&& f.file.position() == p + 4
                    &&& f.event_set_start_offset == 4
                } else {
                    &&& r matches Err(BinlogFileError::BadMagic(m))
                    &&& m@ == s.subrange(p, p + 4)
                }
            }),
    {
        let mut reader = reader;
        let ghost s = reader.bytes();
        let ghost p = reader.position();
        let magic = match reader.read_exact(4) {
            Some(m) => m,
            None => {
                return Err(BinlogFileError::Io);
            },
        };
        if !(magic[0] == 0xfe && magic[1] == 0x62 && magic[2] == 0x69 && magic[3] == 0x6e) {
            let observed = [magic[0], magic[1], magic[2], magic[3]];
            proof {
                assert(observed@ =~= s.subrange(p, p + 4));
                assert(s.subrange(p, p + 4) != spec_magic()) by {
                    if s.subrange(p, p + 4) == spec_magic() {
                        assert(magic@[0] == 0xfe && magic@[1] == 0x62 && magic@[2] == 0x69
                            && magic@[3] == 0x6e);
                    }
                }
            }
            return Err(BinlogFileError::BadMagic(observed));
        }
        proof {
            assert(magic@ =~= spec_magic());
        }
        Ok(BinlogFile { file: reader, event_set_start_offset: 4 })
    }

    /// The stream offset immediately past the magic marker, where the event
    /// stream begins.
    pub fn event_set_start_offset(&self) -> (r: u64)
        ensures
            r == self.event_set_start_offset,
    {
        self.event_set_start_offset
    }

    /// The byte source, positioned wherever reading left it.
    pub fn source(&self) -> (r: &ByteSource)
        ensures
            r == &self.file,
    {
        &self.file
    }

    /// Give up the file and hand back its byte source, for callers that read
    /// the event stream themselves.
    pub fn into_source(self) -> (r: ByteSource)
        ensures
            r == self.file,
    {
        self.file
    }
}

} // verus!

use vstd::prelude::*;

verus! {

/// An in-memory, positioned byte source. The decoder reads sequentially from
/// it; callers load the raw bytes (from a file, a network stream, ...) and
/// hand them over as plain values.
pub struct ByteSource {
    pub data: Vec<u8>,
    pub pos: usize,
}

impl ByteSource {
    /// The full byte content of the source.
    pub open spec fn bytes(&self) -> Seq<u8> {
        self.data@
    }

    /// The current read position.
    pub open spec fn position(&self) -> int {
        self.pos as int
    }

    /// The read position never runs past the end of the bytes.
    pub open spec fn wf(&self) -> bool {
        self.pos <= self.data.len()
    }

    pub fn new(data: Vec<u8>) -> (r: Self)
        ensures
            r.wf(),
            r.bytes() == data@,
            r.position() == 0,
    {
        ByteSource { data, pos: 0 }
    }

    /// How many bytes remain from the current position.
    pub fn remaining(&self) -> (r: usize)
        requires
            self.wf(),
        ensures
            r == self.bytes().len() - self.position(),
    {
        self.data.len() - self.pos
    }

    /// Read exactly `n` bytes, advancing the position; when fewer than `n`
    /// bytes remain, return `None` and leave the position unchanged.
    pub fn read_exact(&mut self, n: usize) -> (r: Option<Vec<u8>>)
        requires
            old(self).wf(),
        ensures
            final(self).wf(),
            final(self).bytes() == old(self).bytes(),
            old(self).position() + n <= old(self).bytes().len() ==> {
                &&& r matches Some(v) && v@ == old(self).bytes().subrange(
                    old(self).position(),
                    old(self).position() + n,
                )
                &&& final(self).position() == old(self).position() + n
            },
            old(self).position() + n > old(self).bytes().len() ==> {
                &&& r is None
                &&& final(self).position() == old(self).position()
            },
    {
        if n > self.data.len() - self.pos {
            return None;
        }
        let mut out: Vec<u8> = Vec::new();
        let mut i: usize = 0;
        while i < n
            invariant
                i <= n,
                self.pos + n <= self.data.len(),
                self.data@ == old(self).data@,
                self.pos == old(self).pos,
                out@ == self.data@.subrange(self.pos as int, self.pos + i),
            decreases n - i,
        {
            out.push(self.data[self.pos + i]);
            assert(out@ == self.data@.subrange(self.pos as int, self.pos + i + 1));
            i += 1;
        }
        self.pos = self.pos + n;
        Some(out)
    }
}

} // verus!

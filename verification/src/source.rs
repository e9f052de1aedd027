//! An in-memory, seekable byte source.

use vstd::prelude::*;

use crate::error::DemuxError;

verus! {

/// The mathematical clamp of a seek target to the length of the source.
pub open spec fn clamped_pos(target: int, len: int) -> int {
    if target <= len {
        target
    } else {
        len
    }
}

/// A byte source that supports exact reads, absolute seeks and a position
/// query. The whole stream is held in memory; the cursor never moves past the
/// end of the data.
pub struct ByteSource {
    data: Vec<u8>,
    pos: usize,
}

impl ByteSource {
    #[verifier::type_invariant]
    spec fn inv(self) -> bool {
        self.pos <= self.data@.len()
    }

    /// The bytes the source holds.
    pub closed spec fn bytes(self) -> Seq<u8> {
        self.data@
    }

    /// The current cursor position.
    pub closed spec fn cursor(self) -> int {
        self.pos as int
    }

    /// Wraps a byte vector into a source whose cursor starts at the front.
    pub fn new(data: Vec<u8>) -> (s: Self)
        ensures
            s.bytes() == data@,
            s.cursor() == 0,
    {
        ByteSource { data, pos: 0 }
    }

    /// The current absolute position of the cursor.
    pub fn position(&self) -> (p: u64)
        ensures
            p as int == self.cursor(),
            0 <= self.cursor() <= self.bytes().len(),
            self.bytes().len() <= usize::MAX,
    {
        proof {
            use_type_invariant(self);
        }
        let _len = self.data.len();
        self.pos as u64
    }

    /// Moves the cursor to the given absolute position. A target past the end
    /// of the data is clamped to the end, where any following read fails.
    pub fn seek_to(&mut self, target: u64)
        ensures
            0 <= old(self).cursor() <= old(self).bytes().len(),
            final(self).bytes() == old(self).bytes(),
            final(self).cursor() == clamped_pos(target as int, old(self).bytes().len() as int),
    {
        proof {
            use_type_invariant(&*self);
        }
        let len = self.data.len();
        if target <= len as u64 {
            self.pos = target as usize;
        } else {
            self.pos = len;
        }
    }

    /// Reads the byte under the cursor and moves the cursor one past it.
    pub fn read_byte(&mut self) -> (r: Result<u8, DemuxError>)
        ensures
            0 <= old(self).cursor() <= old(self).bytes().len(),
            final(self).bytes() == old(self).bytes(),
            match r {
                Ok(b) => old(self).cursor() < old(self).bytes().len()
                    && b == old(self).bytes()[old(self).cursor()]
                    && final(self).cursor() == old(self).cursor() + 1,
                Err(e) => old(self).cursor() == old(self).bytes().len()
                    && final(self).cursor() == old(self).cursor()
                    && e == DemuxError::IoError,
            },
    {
        proof {
            use_type_invariant(&*self);
        }
        if self.pos < self.data.len() {
            let b = self.data[self.pos];
            self.pos = self.pos + 1;
            Ok(b)
        } else {
            Err(DemuxError::IoError)
        }
    }

    /// Reads exactly `n` bytes from the cursor. When fewer than `n` bytes are
    /// left, fails and leaves the cursor where it was.
    pub fn read_exact(&mut self, n: usize) -> (r: Result<Vec<u8>, DemuxError>)
        ensures
            0 <= old(self).cursor() <= old(self).bytes().len(),
            final(self).bytes() == old(self).bytes(),
            match r {
                Ok(v) => old(self).cursor() + n <= old(self).bytes().len()
                    && v@ == old(self).bytes().subrange(old(self).cursor(), old(self).cursor() + n)
                    && final(self).cursor() == old(self).cursor() + n,
                Err(e) => old(self).cursor() + n > old(self).bytes().len()
                    && final(self).cursor() == old(self).cursor()
                    && e == DemuxError::IoError,
            },
    {
        proof {
            use_type_invariant(&*self);
        }
        if n > self.data.len() - self.pos {
            return Err(DemuxError::IoError);
        }
        let mut v: Vec<u8> = Vec::new();
        let mut i: usize = 0;
        while i < n
            invariant
                i <= n,
                self.pos + n <= self.data.len(),
                v@ == self.data@.subrange(self.pos as int, self.pos + i),
            decreases n - i,
        {
            v.push(self.data[self.pos + i]);
            i = i + 1;
            proof {
                assert(v@ =~= self.data@.subrange(self.pos as int, self.pos + i));
            }
        }
        self.pos = self.pos + n;
        Ok(v)
    }

    /// Whether the cursor stands at the end of the data.
    pub fn at_end(&self) -> (r: bool)
        ensures
            0 <= self.cursor() <= self.bytes().len(),
            r == (self.cursor() == self.bytes().len()),
    {
        proof {
            use_type_invariant(self);
        }
        self.pos == self.data.len()
    }
}

} // verus!

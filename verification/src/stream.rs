//! An in-memory byte sink with an explicit cursor.
//!
//! The write path of an image codec needs a sink offering two operations:
//! write at the cursor and seek to an absolute offset.  [`StreamWriter`]
//! models such a sink over an owned byte buffer, keeping track of the cursor
//! position itself: writing past the end extends the buffer, and writing
//! after a seek beyond the end zero-fills the gap first.

use vstd::math::max;
use vstd::prelude::*;

verus! {

/// The buffer contents after writing `c` at offset `pos` into `buf`: bytes
/// before `pos` are kept, a gap between the old end and `pos` is zero-filled,
/// the written range holds `c`, and bytes after it are kept.
pub open spec fn stream_written(buf: Seq<u8>, pos: int, c: Seq<u8>) -> Seq<u8> {
    Seq::new(
        max(buf.len() as int, pos + c.len()) as nat,
        |q: int|
            if pos <= q < pos + c.len() {
                c[q - pos]
            } else if q < buf.len() {
                buf[q]
            } else {
                0u8
            },
    )
}

/// An in-memory byte sink that tracks its own cursor position, offering
/// writes at the cursor and seeks to absolute offsets.
#[derive(Debug)]
pub struct StreamWriter {
    /// The bytes written so far.
    pub buf: Vec<u8>,
    /// Where the next write lands.
    pub cursor_pos: usize,
}

impl StreamWriter {
    /// An empty sink with the cursor at the start.
    pub fn new() -> (r: StreamWriter)
        ensures
            r.buf@.len() == 0,
            r.cursor_pos == 0,
    {
        StreamWriter { buf: Vec::new(), cursor_pos: 0 }
    }

    /// Writes the given bytes at the cursor and advances it past them.
    /// Bytes before the cursor stay; a gap between the old end of the buffer
    /// and the cursor is zero-filled; bytes after the written range stay.
    pub fn write(&mut self, c: &[u8])
        requires
            old(self).cursor_pos + c@.len() <= usize::MAX,
        ensures
            final(self).cursor_pos == old(self).cursor_pos + c@.len(),
            final(self).buf@ == stream_written(old(self).buf@, old(self).cursor_pos as int, c@),
    {
        while self.buf.len() < self.cursor_pos
            invariant
                self.cursor_pos == old(self).cursor_pos,
                old(self).buf@.len() <= self.buf@.len() || self.buf@ == old(self).buf@,
                self.buf@.len() <= max(old(self).buf@.len() as int, self.cursor_pos as int),
                forall|q: int|
                    0 <= q < self.buf@.len() ==> self.buf@[q] == (if q < old(self).buf@.len() {
                        old(self).buf@[q]
                    } else {
                        0u8
                    }),
            decreases self.cursor_pos - self.buf@.len(),
        {
            self.buf.push(0);
        }
        let n = c.len();
        let mut i: usize = 0;
        let ghost ext = self.buf@;
        while i < n
            invariant
                i <= n,
                n == c@.len(),
                self.cursor_pos == old(self).cursor_pos,
                self.cursor_pos + n <= usize::MAX,
                ext.len() >= self.cursor_pos,
                self.buf@.len() == max(ext.len() as int, self.cursor_pos + i),
                forall|q: int|
                    0 <= q < self.buf@.len() ==> self.buf@[q] == (if self.cursor_pos <= q
                        < self.cursor_pos + i {
                        c@[q - self.cursor_pos]
                    } else if q < ext.len() {
                        ext[q]
                    } else {
                        0u8
                    }),
            decreases n - i,
        {
            let p = self.cursor_pos + i;
            if p < self.buf.len() {
                self.buf.set(p, c[i]);
            } else {
                self.buf.push(c[i]);
            }
            i = i + 1;
        }
        self.cursor_pos = self.cursor_pos + n;
        proof {
            assert(self.buf@ =~= stream_written(
                old(self).buf@,
                old(self).cursor_pos as int,
                c@,
            ));
        }
    }

    /// The cursor position: how far into the stream the next write lands.
    pub fn tellp(&self) -> (r: usize)
        ensures
            r == self.cursor_pos,
    {
        self.cursor_pos
    }

    /// Moves the cursor to an absolute offset.  The buffer itself is
    /// untouched; a later write zero-fills any gap.
    pub fn seekp(&mut self, pos: usize)
        ensures
            final(self).cursor_pos == pos,
            final(self).buf@ == old(self).buf@,
    {
        self.cursor_pos = pos;
    }

    /// Hands the written bytes over.
    pub fn into_bytes(self) -> (r: Vec<u8>)
        ensures
            r@ == self.buf@,
    {
        self.buf
    }
}

} // verus!

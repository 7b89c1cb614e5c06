use vstd::prelude::*;

verus! {

/// A read position over a borrowed byte buffer: the byte source that the
/// decoders consume, one byte or one run of bytes at a time.
///
/// The position may stand past the end of the buffer; reads then fail.
#[derive(Debug, Clone, Copy)]
pub struct Cursor<'a> {
    data: &'a [u8],
    pos: usize,
}

impl<'a> Cursor<'a> {
    /// The bytes the cursor reads from.
    pub closed spec fn data(&self) -> Seq<u8> {
        self.data@
    }

    /// The index of the next byte to read.
    pub closed spec fn pos(&self) -> int {
        self.pos as int
    }

    /// A position is never negative.
    pub broadcast proof fn lemma_pos_nonnegative(c: &Cursor<'a>)
        ensures
            0 <= #[trigger] c.pos(),
    {
    }

    /// A cursor at the start of `data`.
    pub fn new(data: &'a [u8]) -> (c: Cursor<'a>)
        ensures
            c.data() == data@,
            c.pos() == 0,
    {
        Cursor { data, pos: 0 }
    }

    /// The current position.
    pub fn position(&self) -> (p: usize)
        ensures
            p == self.pos(),
    {
        self.pos
    }

    /// Move to `pos`.
    pub fn set_position(&mut self, pos: usize)
        ensures
            final(self).data() == old(self).data(),
            final(self).pos() == pos,
    {
        self.pos = pos;
    }

    /// The underlying buffer.
    pub fn get_ref(&self) -> (d: &'a [u8])
        ensures
            d@ == self.data(),
    {
        self.data
    }

    /// Read the next byte, or `None` at the end of the buffer (the cursor then
    /// stays where it was).
    pub fn read_u8(&mut self) -> (r: Option<u8>)
        ensures
            final(self).data() == old(self).data(),
            old(self).pos() < old(self).data().len() ==> {
                &&& r == Some(old(self).data()[old(self).pos()])
                &&& final(self).pos() == old(self).pos() + 1
            },
            old(self).pos() >= old(self).data().len() ==> {
                &&& r is None
                &&& final(self).pos() == old(self).pos()
            },
    {
        if self.pos < self.data.len() {
            let b = self.data[self.pos];
            self.pos = self.pos + 1;
            Some(b)
        } else {
            None
        }
    }

    /// Read exactly `n` bytes, or `None` when fewer remain (the cursor then
    /// stays where it was).
    pub fn read_exact(&mut self, n: usize) -> (r: Option<Vec<u8>>)
        ensures
            final(self).data() == old(self).data(),
            old(self).pos() + n <= old(self).data().len() ==> {
                &&& r is Some
                &&& r->0@ == old(self).data().subrange(old(self).pos(), old(self).pos() + n)
                &&& final(self).pos() == old(self).pos() + n
            },
            old(self).pos() + n > old(self).data().len() ==> {
                &&& r is None
                &&& final(self).pos() == old(self).pos()
            },
    {
        if self.pos > self.data.len() || self.data.len() - self.pos < n {
            return None;
        }
        let mut out: Vec<u8> = Vec::with_capacity(n);
        let start = self.pos;
        let data = self.data;
        let mut i: usize = 0;
        while i < n
            invariant
                start + n <= data.len(),
                data@ == self.data@,
                i <= n,
                out@ == data@.subrange(start as int, start + i),
            decreases n - i,
        {
            out.push(data[start + i]);
            i = i + 1;
            assert(out@ =~= data@.subrange(start as int, start + i));
        }
        self.pos = start + n;
        Some(out)
    }

    /// Read every remaining byte (none when the position is at or past the end).
    pub fn read_to_end(&mut self) -> (r: Vec<u8>)
        ensures
            final(self).data() == old(self).data(),
            old(self).pos() <= old(self).data().len() ==> r@ == old(self).data().subrange(
                old(self).pos(),
                old(self).data().len() as int,
            ),
            old(self).pos() > old(self).data().len() ==> r@.len() == 0,
            final(self).pos() == if old(self).pos() <= old(self).data().len() {
                old(self).data().len() as int
            } else {
                old(self).pos()
            },
    {
        if self.pos > self.data.len() {
            return Vec::new();
        }
        let n = self.data.len() - self.pos;
        match self.read_exact(n) {
            Some(v) => v,
            None => Vec::new(),
        }
    }
}

} // verus!

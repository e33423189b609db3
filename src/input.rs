//! The line-buffered input source that `in` reads from.

use vstd::prelude::*;

verus! {

/// Characters of input lines that have been read but not yet consumed.
pub struct LineBuffer {
    bytes: Vec<u8>,
    pos: usize,
}

impl LineBuffer {
    /// The internal invariant: the read position lies within the bytes.
    pub closed spec fn wf(&self) -> bool {
        self.pos <= self.bytes@.len()
    }

    /// The characters still to be handed out, in order.
    pub closed spec fn view(&self) -> Seq<u8> {
        self.bytes@.subrange(self.pos as int, self.bytes@.len() as int)
    }

    /// An empty buffer.
    pub fn new() -> (r: Self)
        ensures
            r.wf(),
            r.view() == Seq::<u8>::empty(),
    {
        let r = LineBuffer { bytes: Vec::new(), pos: 0 };
        assert(r.view() =~= Seq::<u8>::empty());
        r
    }

    /// Whether every buffered character has been consumed.
    pub fn is_empty(&self) -> (r: bool)
        requires
            self.wf(),
        ensures
            r == (self.view().len() == 0),
    {
        self.pos == self.bytes.len()
    }

    /// Appends one line of input (with its terminator, if any) after the
    /// characters still buffered.
    pub fn push_line(&mut self, line: &[u8])
        requires
            old(self).wf(),
        ensures
            final(self).wf(),
            final(self).view() == old(self).view() + line@,
    {
        if self.pos == self.bytes.len() {
            self.bytes = vstd::slice::slice_to_vec(line);
            self.pos = 0;
            assert(self.view() =~= old(self).view() + line@);
        } else {
            let mut i: usize = 0;
            while i < line.len()
                invariant
                    self.wf(),
                    i <= line@.len(),
                    self.pos == old(self).pos,
                    self.bytes@ == old(self).bytes@ + line@.subrange(0, i as int),
                decreases line@.len() - i,
            {
                self.bytes.push(line[i]);
                i = i + 1;
                assert(self.bytes@ =~= old(self).bytes@ + line@.subrange(0, i as int));
            }
            assert(line@.subrange(0, line@.len() as int) =~= line@);
            assert(self.view() =~= old(self).view() + line@);
        }
    }

    /// Takes the next buffered character, if there is one.
    pub fn next_byte(&mut self) -> (r: Option<u8>)
        requires
            old(self).wf(),
        ensures
            final(self).wf(),
            old(self).view().len() == 0 ==> r == None::<u8> && final(self).view() == old(self).view(),
            old(self).view().len() > 0 ==> r == Some(old(self).view()[0])
                && final(self).view() == old(self).view().drop_first(),
    {
        if self.pos == self.bytes.len() {
            None
        } else {
            let b = self.bytes[self.pos];
            self.pos = self.pos + 1;
            assert(self.view() =~= old(self).view().drop_first());
            Some(b)
        }
    }
}

} // verus!

use vstd::prelude::*;

verus! {

/// Temporary buffer writer: what is written stays pending until a flush
/// moves it into the readable buffer.  It exists so a style can be applied
/// to a whole encoded record before it reaches the terminal.
#[derive(Debug)]
pub struct BufWriter {
    flushed: Vec<u8>,
    pending: Vec<u8>,
}

impl BufWriter {
    /// The bytes flushed so far.
    pub closed spec fn buffered(&self) -> Seq<u8> {
        self.flushed@
    }

    /// The bytes written but not yet flushed.
    pub closed spec fn unflushed(&self) -> Seq<u8> {
        self.pending@
    }

    /// The readable buffer: everything flushed so far.
    pub fn buffer(&self) -> (r: &[u8])
        ensures
            r@ == self.buffered(),
    {
        self.flushed.as_slice()
    }

    /// Takes the whole of `buf` as pending output and reports it all
    /// written; nothing reaches the buffer before a flush.
    pub fn write(&mut self, buf: &[u8]) -> (n: usize)
        ensures
            n == buf@.len(),
            final(self).unflushed() == old(self).unflushed() + buf@,
            final(self).buffered() == old(self).buffered(),
    {
        let mut i: usize = 0;
        while i < buf.len()
            invariant
                i <= buf@.len(),
                self.pending@ == old(self).pending@ + buf@.subrange(0, i as int),
                self.flushed@ == old(self).flushed@,
            decreases buf@.len() - i,
        {
            self.pending.push(buf[i]);
            i = i + 1;
            proof {
                assert(self.pending@ =~= old(self).pending@ + buf@.subrange(0, i as int));
            }
        }
        proof {
            assert(self.pending@ =~= old(self).pending@ + buf@);
        }
        buf.len()
    }

    /// Moves everything pending into the readable buffer.
    pub fn flush(&mut self)
        ensures
            final(self).buffered() == old(self).buffered() + old(self).unflushed(),
            final(self).unflushed() == Seq::<u8>::empty(),
    {
        let mut taken: Vec<u8> = Vec::new();
        core::mem::swap(&mut taken, &mut self.pending);
        let mut i: usize = 0;
        proof {
            assert(self.flushed@ =~= old(self).flushed@ + taken@.subrange(0, 0));
        }
        while i < taken.len()
            invariant
                i <= taken@.len(),
                taken@ == old(self).pending@,
                self.flushed@ == old(self).flushed@ + taken@.subrange(0, i as int),
                self.pending@ == Seq::<u8>::empty(),
            decreases taken@.len() - i,
        {
            self.flushed.push(taken[i]);
            i = i + 1;
            proof {
                assert(self.flushed@ =~= old(self).flushed@ + taken@.subrange(0, i as int));
            }
        }
        proof {
            assert(self.flushed@ =~= old(self).flushed@ + taken@);
        }
    }
}

impl Default for BufWriter {
    /// A fresh writer: nothing buffered, nothing pending.
    fn default() -> (r: Self)
        ensures
            r.buffered() == Seq::<u8>::empty(),
            r.unflushed() == Seq::<u8>::empty(),
    {
        BufWriter { flushed: Vec::new(), pending: Vec::new() }
    }
}

} // verus!

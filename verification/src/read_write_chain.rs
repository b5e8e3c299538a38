use vstd::prelude::*;

verus! {

/// A wrapper for a pair of values.
/// The first is read from. The second is read from and written to.
///
/// Passes reads through to the first.
/// Once the first returns EOF, passes reads to the second.
///
/// Passes all writes through to the second.
///
/// This is like `std::io::Chain` that passes through writes. This type keeps
/// which of the two reads go to; [`reader`](#method.reader) hands out the first
/// while it is active, and [`reader_returned`](#method.reader_returned) records
/// what a read from it returned.
pub struct ReadWriteChain<'a, R, RW> {
    reader: Option<&'a mut R>,
    read_writer: &'a mut RW,
}

impl<'a, R, RW> ReadWriteChain<'a, R, RW> {
    /// Reads still go to the first value: it has not returned EOF.
    pub closed spec fn reading_first(&self) -> bool {
        self.reader is Some
    }

    /// The current value of the first wrapped value, while reads still go to it.
    pub closed spec fn reader_value(&self) -> R
        recommends
            self.reading_first(),
    {
        *self.reader->0
    }

    /// The current value of the second wrapped value.
    pub closed spec fn read_writer_value(&self) -> RW {
        *self.read_writer
    }

    /// Wraps `reader` and `read_writer`; reads go to `reader` first.
    pub fn new(reader: &'a mut R, read_writer: &'a mut RW) -> (r: ReadWriteChain<'a, R, RW>)
        ensures
            r.reading_first(),
            r.reader_value() == *old(reader),
            r.read_writer_value() == *old(read_writer),
    {
        Self { reader: Some(reader), read_writer }
    }

    /// The first value, while reads still go to it.
    pub fn reader(&mut self) -> (r: Option<&mut R>)
        ensures
            r is Some == old(self).reading_first(),
            r matches Some(rd) ==> *rd == old(self).reader_value() && final(self).reader_value()
                == *final(rd),
            final(self).reading_first() == old(self).reading_first(),
            final(self).read_writer_value() == old(self).read_writer_value(),
    {
        match &mut self.reader {
            Some(reader) => Some(&mut **reader),
            None => None,
        }
    }

    /// Records that a read from the first value returned `num_read` bytes.
    /// Returns whether the read must go on to the second value: it must when
    /// the first returned 0, that is EOF, after which reads go to the second.
    pub fn reader_returned(&mut self, num_read: usize) -> (pass_on: bool)
        ensures
            pass_on == (num_read == 0),
            num_read == 0 ==> !final(self).reading_first(),
            num_read > 0 ==> final(self).reading_first() == old(self).reading_first()
                && final(self).reader_value() == old(self).reader_value(),
            final(self).read_writer_value() == old(self).read_writer_value(),
    {
        if num_read == 0 {
            self.reader = None;
            true
        } else {
            false
        }
    }

    /// The second value, for reads after the first reached EOF and for all writes.
    pub fn read_writer(&mut self) -> (r: &mut RW)
        ensures
            *r == old(self).read_writer_value(),
            final(self).read_writer_value() == *final(r),
            final(self).reading_first() == old(self).reading_first(),
            final(self).reader_value() == old(self).reader_value(),
    {
        self.read_writer
    }
}

} // verus!

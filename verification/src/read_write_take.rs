use vstd::prelude::*;

verus! {

/// Wraps a value that is read from and written to.
/// Passes through reads and writes to it.
/// Limits the number of bytes that can be read.
///
/// This is like `std::io::Take` that passes through writes. This type keeps the
/// count of bytes that may still be read; [`read_limit`](#method.read_limit) says how
/// much the next read may ask for, and [`record_read`](#method.record_read) counts
/// what it got. Whatever sequence of reads it passes through, the bytes they return
/// add up to at most the limit it was made with.
pub struct ReadWriteTake<'a, RW> {
    read_writer: &'a mut RW,
    remaining_bytes: u64,
    limit: Ghost<u64>,
}

impl<'a, RW> ReadWriteTake<'a, RW> {
    /// The number of bytes that may still be read.
    pub closed spec fn remaining(&self) -> u64 {
        self.remaining_bytes
    }

    /// The limit this wrapper was made with.
    pub closed spec fn limit(&self) -> u64 {
        self.limit@
    }

    /// The number of bytes counted as read so far: the sum of all recorded reads.
    pub closed spec fn total_read(&self) -> int {
        self.limit@ - self.remaining_bytes
    }

    /// The current value of the wrapped reader-writer.
    pub closed spec fn read_writer_value(&self) -> RW {
        *self.read_writer
    }

    /// Wraps `read_writer`; at most `len` bytes will be read from it.
    pub fn new(read_writer: &'a mut RW, len: u64) -> (r: ReadWriteTake<'a, RW>)
        ensures
            r.remaining() == len,
            r.limit() == len,
            r.total_read() == 0,
            r.read_writer_value() == *old(read_writer),
    {
        Self { read_writer, remaining_bytes: len, limit: Ghost(len) }
    }

    /// How many bytes the next read into a buffer of `buf_len` bytes may ask for:
    /// `None` when the limit is reached (the read returns 0 without reading),
    /// else the smaller of the buffer's length and the bytes still allowed.
    pub fn read_limit(&self, buf_len: usize) -> (r: Option<usize>)
        ensures
            self.remaining() == 0 ==> r is None,
            self.remaining() > 0 ==> r == Some(
                if (self.remaining() as int) < (buf_len as int) {
                    self.remaining() as usize
                } else {
                    buf_len
                },
            ),
    {
        if self.remaining_bytes == 0 {
            return None;
        }
        if self.remaining_bytes < buf_len as u64 {
            Some(self.remaining_bytes as usize)
        } else {
            Some(buf_len)
        }
    }

    /// Counts `num_read` bytes as read.
    pub fn record_read(&mut self, num_read: usize)
        requires
            num_read <= old(self).remaining(),
        ensures
            final(self).remaining() == old(self).remaining() - num_read,
            final(self).limit() == old(self).limit(),
            final(self).total_read() == old(self).total_read() + num_read,
            final(self).total_read() <= final(self).limit(),
            final(self).read_writer_value() == old(self).read_writer_value(),
    {
        self.remaining_bytes = self.remaining_bytes - num_read as u64;
    }

    /// The wrapped value, for passing reads and writes through to it.
    pub fn read_writer(&mut self) -> (r: &mut RW)
        ensures
            *r == old(self).read_writer_value(),
            final(self).read_writer_value() == *final(r),
            final(self).remaining() == old(self).remaining(),
            final(self).limit() == old(self).limit(),
    {
        self.read_writer
    }
}

} // verus!

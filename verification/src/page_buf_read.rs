//! `std::io::Read` for the buffer of [`page_buf`](crate::page_buf).
use vstd::prelude::*;

use crate::page_buf::{copy_len, FixedBuf};
use std::io::Read;

verus! {

impl Read for FixedBuf {
    /// Copies unread bytes into `buf` and consumes them: as many as fit.
    /// Returns how many bytes it copied.
    fn read(&mut self, buf: &mut [u8]) -> (r: std::io::Result<usize>)
        ensures
            r matches Ok(n) && n == copy_len(old(buf)@.len(), old(self)@.len())
                && final(buf)@ == old(self)@.readable().take(n as int) + old(buf)@.skip(n as int)
                && final(self)@ == old(self)@.consume(n as nat),
    {
        Ok(self.copy_into(buf))
    }
}

} // verus!

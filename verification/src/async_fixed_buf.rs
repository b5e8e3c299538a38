use vstd::prelude::*;

use crate::fixed_buf::{BufView, FixedBuf};

verus! {

/// A newtype that wraps [`FixedBuf`] for use with asynchronous readers and writers.
///
/// It dereferences to the wrapped buffer, so it has all of the buffer's methods.
pub struct AsyncFixedBuf<const SIZE: usize>(FixedBuf<SIZE>);

impl<const SIZE: usize> View for AsyncFixedBuf<SIZE> {
    type V = BufView;

    closed spec fn view(&self) -> BufView {
        self.0@
    }
}

impl<const SIZE: usize> AsyncFixedBuf<SIZE> {
    /// Creates a new FixedBuf and wraps it in an AsyncFixedBuf.
    ///
    /// See [`FixedBuf::new`] for details.
    pub fn new() -> (r: Self)
        ensures
            r@.wf(SIZE as nat),
            r@.mem == Seq::new(SIZE as nat, |i: int| 0u8),
            r@.read_index == 0,
            r@.write_index == 0,
    {
        AsyncFixedBuf(FixedBuf::new())
    }

    /// Drops the struct and returns its internal [`FixedBuf`].
    pub fn into_inner(self) -> (r: FixedBuf<SIZE>)
        ensures
            r@ == self@,
    {
        self.0
    }

    /// Makes a new empty buffer.
    ///
    /// Consumes `mem` and uses it as the internal memory array.
    pub fn empty(mem: [u8; SIZE]) -> (r: Self)
        ensures
            r@.wf(SIZE as nat),
            r@ == (BufView { mem: mem@, read_index: 0, write_index: 0 }),
    {
        Self(FixedBuf::empty(mem))
    }

    /// Makes a new full buffer containing the bytes in `mem`.
    /// Reading the buffer will return the bytes in `mem`.
    ///
    /// Consumes `mem` and uses it as the internal memory array.
    pub fn filled(mem: [u8; SIZE]) -> (r: Self)
        ensures
            r@.wf(SIZE as nat),
            r@ == (BufView { mem: mem@, read_index: 0, write_index: SIZE as nat }),
    {
        Self(FixedBuf::filled(mem))
    }
}

impl<const SIZE: usize> core::ops::Deref for AsyncFixedBuf<SIZE> {
    type Target = FixedBuf<SIZE>;

    fn deref(&self) -> (r: &FixedBuf<SIZE>)
        ensures
            r@ == self@,
    {
        &self.0
    }
}

impl<const SIZE: usize> core::ops::DerefMut for AsyncFixedBuf<SIZE> {
    fn deref_mut(&mut self) -> (r: &mut FixedBuf<SIZE>)
        ensures
            r@ == old(self)@,
            final(self)@ == final(r)@,
    {
        &mut self.0
    }
}

} // verus!

use vstd::prelude::*;

use crate::deframe::is_deframer;
use crate::page_buf::copy_len;
use crate::errors::{
    io_error, io_error_value, malformed_debug_text, IoErrorKind, MalformedInputError,
    NotEnoughSpaceError,
};
use crate::escape::{decimal_spec, escape_ascii, escape_ascii_spec, push_decimal};
use core::ops::Range;
use vstd::string::{StringExecFns, StringSliceAdditionalSpecFns};

verus! {

/// The abstract state of a buffer: its memory, where unread bytes start, and where
/// they end. The unread bytes are `mem[read_index..write_index]`; the bytes from
/// `write_index` on are free for writing.
pub struct BufView {
    pub mem: Seq<u8>,
    pub read_index: nat,
    pub write_index: nat,
}

impl BufView {
    /// The bytes that have been written and not yet read.
    pub open spec fn readable(self) -> Seq<u8> {
        self.mem.subrange(self.read_index as int, self.write_index as int)
    }

    /// The number of unread bytes.
    pub open spec fn len(self) -> nat {
        (self.write_index - self.read_index) as nat
    }

    /// The number of free bytes at the end of the memory.
    pub open spec fn writable_len(self) -> nat {
        (self.mem.len() - self.write_index) as nat
    }

    /// The state of every buffer of `size` bytes: the unread bytes lie within the
    /// memory, and a buffer with no unread bytes has both indices at zero, so that
    /// all of its memory is free for writing.
    pub open spec fn wf(self, size: nat) -> bool {
        &&& self.mem.len() == size
        &&& self.read_index <= self.write_index <= size
        &&& (self.read_index == self.write_index ==> self.write_index == 0)
    }

    /// The state after `n` unread bytes are read: once every byte has been read,
    /// both indices go back to zero.
    pub open spec fn consume(self, n: nat) -> BufView {
        if self.read_index + n == self.write_index {
            BufView { mem: self.mem, read_index: 0, write_index: 0 }
        } else {
            BufView { mem: self.mem, read_index: self.read_index + n, write_index: self.write_index }
        }
    }

    /// The state after `data` is written after the unread bytes.
    pub open spec fn append(self, data: Seq<u8>) -> BufView {
        BufView {
            mem: self.mem.subrange(0, self.write_index as int) + data + self.mem.subrange(
                (self.write_index + data.len()) as int,
                self.mem.len() as int,
            ),
            read_index: self.read_index,
            write_index: self.write_index + data.len(),
        }
    }

    /// The state after the unread bytes are moved to the front of the memory.
    pub open spec fn shifted(self) -> BufView {
        if self.read_index == 0 {
            self
        } else {
            BufView {
                mem: self.readable() + self.mem.subrange(self.len() as int, self.mem.len() as int),
                read_index: 0,
                write_index: self.len(),
            }
        }
    }

    /// The state with both indices at zero: no unread bytes.
    pub open spec fn cleared(self) -> BufView {
        BufView { mem: self.mem, read_index: 0, write_index: 0 }
    }
}

/// A frame that a deframer found in the unread bytes of `before`, with its contents at
/// `range` and its length `block_len`, was taken out: its contents lie at `mem_range` in
/// memory, and its bytes were consumed, leaving `after`.
pub open spec fn frame_taken(
    before: BufView,
    range: Range<usize>,
    block_len: usize,
    mem_range: Range<usize>,
    after: BufView,
) -> bool {
    &&& mem_range.start == before.read_index + range.start
    &&& mem_range.end == before.read_index + range.end
    &&& after == before.consume(block_len as nat)
}

/// What one call of a deframer function found in the unread bytes of `before`,
/// and what `deframe` then returned and left: an error for a malformed frame,
/// nothing for an incomplete frame, or the range in memory of the contents of a
/// complete frame, whose bytes are consumed. A malformed frame gives the
/// `InvalidData` error that [`MalformedInputError`] converts into.
pub open spec fn deframe_outcome(
    before: BufView,
    found: Result<Option<(Range<usize>, usize)>, MalformedInputError>,
    r: Result<Option<Range<usize>>, std::io::Error>,
    after: BufView,
) -> bool {
    match found {
        Err(e) => r == Err::<Option<Range<usize>>, std::io::Error>(malformed_frame_error(e))
            && after == before,
        Ok(None) => (r matches Ok(None)) && after == before,
        Ok(Some((range, block_len))) => {
            &&& r matches Ok(Some(mem_range))
            &&& frame_taken(before, range, block_len, mem_range, after)
        },
    }
}

/// The `InvalidData` error that a deframer's [`MalformedInputError`] `e` becomes:
/// its message is the debug form of `e`.
pub open spec fn malformed_frame_error(e: MalformedInputError) -> std::io::Error {
    io_error_value(IoErrorKind::InvalidData, malformed_debug_text(e@))
}

/// The text that [`FixedBuf::debug_string`] returns for a buffer of `size` bytes in
/// state `b`: its size, its free space at the end, its number of unread bytes, and
/// the escaped unread bytes.
pub open spec fn debug_text_spec(size: nat, b: BufView) -> Seq<char> {
    "FixedBuf<"@ + decimal_spec(size) + ">{"@ + decimal_spec(b.writable_len()) + " writable, "@
        + decimal_spec(b.len()) + " readable: \""@ + escape_ascii_spec(b.readable()) + "\"}"@
}

/// What [`FixedBuf::read_frame_step`] asks of its caller.
pub enum FrameStep {
    /// A complete frame was found and consumed; its contents are `mem()[range]`.
    Frame(Range<usize>),
    /// The buffer holds no complete frame: read more bytes into
    /// [`FixedBuf::writable`] and pass their number to [`FixedBuf::read_frame_input`].
    ReadMore,
}

/// The outcome of a frame step that found no complete frame: the unread bytes are
/// moved to the front, and the caller is asked to read more unless no space is left,
/// which is answered with an `InvalidData` error.
pub open spec fn frame_step_needs_input(
    before: BufView,
    r: Result<FrameStep, std::io::Error>,
    after: BufView,
) -> bool {
    &&& after == before.shifted()
    &&& after.readable() == before.readable()
    &&& before.shifted().writable_len() == 0 ==> r == Err::<FrameStep, std::io::Error>(
        io_error_value(IoErrorKind::InvalidData, "end of buffer full"@),
    )
    &&& before.shifted().writable_len() > 0 ==> (r matches Ok(FrameStep::ReadMore))
}

/// FixedBuf is a fixed-length byte buffer.
/// You can write bytes to it and then read them back.
///
/// It is not a circular buffer.  Call [`shift`](#method.shift) periodically to
/// move unread bytes to the front of the buffer.
#[derive(Copy, Clone, Eq, Hash, Ord, PartialEq, PartialOrd)]
pub struct FixedBuf<const SIZE: usize> {
    mem: [u8; SIZE],
    read_index: usize,
    write_index: usize,
}

impl<const SIZE: usize> View for FixedBuf<SIZE> {
    type V = BufView;

    closed spec fn view(&self) -> BufView {
        BufView {
            mem: self.mem@,
            read_index: self.read_index as nat,
            write_index: self.write_index as nat,
        }
    }
}

impl<const SIZE: usize> FixedBuf<SIZE> {
    #[verifier::type_invariant]
    closed spec fn inv(&self) -> bool {
        &&& self.read_index <= self.write_index <= SIZE
        &&& (self.read_index == self.write_index ==> self.write_index == 0)
    }

    /// Makes a new empty buffer with space for `SIZE` bytes.
    ///
    /// Be careful of stack overflows!
    pub fn new() -> (r: Self)
        ensures
            r@.wf(SIZE as nat),
            r@.mem == Seq::new(SIZE as nat, |i: int| 0u8),
            r@.read_index == 0,
            r@.write_index == 0,
    {
        let r = Self { mem: [0u8; SIZE], read_index: 0, write_index: 0 };
        proof {
            assert(r.mem@ =~= Seq::new(SIZE as nat, |i: int| 0u8));
        }
        r
    }

    /// Makes a new empty buffer.
    ///
    /// Consumes `mem` and uses it as the internal memory array.
    pub fn empty(mem: [u8; SIZE]) -> (r: Self)
        ensures
            r@.wf(SIZE as nat),
            r@ == (BufView { mem: mem@, read_index: 0, write_index: 0 }),
    {
        Self { mem, read_index: 0, write_index: 0 }
    }

    /// Makes a new full buffer containing the bytes in `mem`.
    /// Reading the buffer will return the bytes in `mem`.
    ///
    /// Consumes `mem` and uses it as the internal memory array.
    pub fn filled(mem: [u8; SIZE]) -> (r: Self)
        ensures
            r@.wf(SIZE as nat),
            r@ == (BufView { mem: mem@, read_index: 0, write_index: SIZE as nat }),
            r@.readable() == mem@,
    {
        let r = Self { mem, read_index: 0, write_index: SIZE };
        proof {
            assert(r@.readable() =~= mem@);
        }
        r
    }

    /// Drops the struct and returns its internal array.
    pub fn into_inner(self) -> (r: [u8; SIZE])
        ensures
            r@ == self@.mem,
    {
        self.mem
    }

    /// Returns the number of unread bytes in the buffer.
    pub fn len(&self) -> (r: usize)
        ensures
            self@.wf(SIZE as nat),
            r == self@.len(),
            r == self@.readable().len(),
    {
        proof {
            use_type_invariant(self);
        }
        self.write_index - self.read_index
    }

    /// Returns true if there are no unread bytes in the buffer.
    pub fn is_empty(&self) -> (r: bool)
        ensures
            self@.wf(SIZE as nat),
            r == (self@.len() == 0),
    {
        proof {
            use_type_invariant(self);
        }
        self.write_index == self.read_index
    }

    /// The number of free bytes at the end of the buffer: the length of
    /// [`writable`](#method.writable).
    pub(crate) fn writable_len(&self) -> (r: usize)
        ensures
            self@.wf(SIZE as nat),
            r == self@.writable_len(),
    {
        proof {
            use_type_invariant(self);
        }
        SIZE - self.write_index
    }

    /// Where the unread bytes start in the memory.
    pub(crate) fn read_index(&self) -> (r: usize)
        ensures
            self@.wf(SIZE as nat),
            r == self@.read_index,
    {
        proof {
            use_type_invariant(self);
        }
        self.read_index
    }

    /// Discards all data in the buffer.
    pub fn clear(&mut self)
        ensures
            final(self)@ == old(self)@.cleared(),
            final(self)@.wf(SIZE as nat),
    {
        proof {
            use_type_invariant(&*self);
        }
        self.read_index = 0;
        self.write_index = 0;
    }

    /// Copies all readable bytes to a string.
    /// Includes printable ASCII characters as-is.
    /// Converts non-printable characters to strings like "\n" and "\x19".
    pub fn escape_ascii(&self) -> (r: String)
        ensures
            r@ == escape_ascii_spec(self@.readable()),
    {
        escape_ascii(self.readable())
    }

    /// Describes the buffer for debugging, in the form
    /// `FixedBuf<8>{5 writable, 2 readable: "bc"}`: its size, the free space at
    /// the end, the number of unread bytes, and the escaped unread bytes.
    pub fn debug_string(&self) -> (r: String)
        ensures
            r@ == debug_text_spec(SIZE as nat, self@),
    {
        let mut text = String::new();
        text.append("FixedBuf<");
        push_decimal(&mut text, SIZE);
        text.append(">{");
        push_decimal(&mut text, self.writable_len());
        text.append(" writable, ");
        push_decimal(&mut text, self.len());
        text.append(" readable: \"");
        text.append(self.escape_ascii().as_str());
        text.append("\"}");
        text
    }

    /// Borrows the entire internal memory buffer.
    /// This is a low-level function.
    pub fn mem(&self) -> (r: &[u8])
        ensures
            self@.wf(SIZE as nat),
            r@ == self@.mem,
    {
        proof {
            use_type_invariant(self);
        }
        self.mem.as_slice()
    }

    /// Returns the slice of readable bytes in the buffer.
    /// After processing some bytes from the front of the slice,
    /// call [`read_bytes`](#method.read_bytes) to consume the bytes.
    pub fn readable(&self) -> (r: &[u8])
        ensures
            self@.wf(SIZE as nat),
            r@ == self@.readable(),
    {
        proof {
            use_type_invariant(self);
        }
        &self.mem[self.read_index..self.write_index]
    }

    /// Reads bytes from the buffer.
    ///
    /// The caller must not ask for more bytes than the buffer holds.
    pub fn read_bytes(&mut self, num_bytes: usize) -> (r: &[u8])
        requires
            num_bytes <= old(self)@.len(),
        ensures
            old(self)@.wf(SIZE as nat),
            final(self)@.wf(SIZE as nat),
            r@ == old(self)@.readable().take(num_bytes as int),
            final(self)@ == old(self)@.consume(num_bytes as nat),
            final(self)@.readable() == old(self)@.readable().skip(num_bytes as int),
    {
        proof {
            use_type_invariant(&*self);
        }
        let new_read_index = self.read_index + num_bytes;
        let old_read_index = self.read_index;
        if new_read_index == self.write_index {
            // All data has been read.  Reset the buffer.
            self.read_index = 0;
            self.write_index = 0;
        } else {
            self.read_index = new_read_index;
        }
        proof {
            assert(self@.readable() =~= old(self)@.readable().skip(num_bytes as int));
        }
        let r = &self.mem[old_read_index..new_read_index];
        proof {
            assert(r@ =~= old(self)@.readable().take(num_bytes as int));
        }
        r
    }

    /// Reads a single byte from the buffer.
    ///
    /// The buffer must not be empty.
    pub fn read_byte(&mut self) -> (r: u8)
        requires
            old(self)@.len() >= 1,
        ensures
            old(self)@.wf(SIZE as nat),
            final(self)@.wf(SIZE as nat),
            r == old(self)@.readable()[0],
            final(self)@ == old(self)@.consume(1),
            final(self)@.readable() == old(self)@.readable().skip(1),
    {
        let bytes = self.read_bytes(1);
        bytes[0]
    }

    /// Reads a single byte from the buffer.
    ///
    /// Returns `None` if the buffer is empty.
    pub fn try_read_byte(&mut self) -> (r: Option<u8>)
        ensures
            old(self)@.wf(SIZE as nat),
            final(self)@.wf(SIZE as nat),
            old(self)@.len() == 0 ==> r is None && final(self)@ == old(self)@,
            old(self)@.len() > 0 ==> r == Some(old(self)@.readable()[0])
                && final(self)@ == old(self)@.consume(1),
    {
        if self.is_empty() {
            None
        } else {
            Some(self.read_byte())
        }
    }

    /// Reads bytes from the buffer.
    ///
    /// Returns `None` if the buffer does not contain `num_bytes` bytes.
    pub fn try_read_bytes(&mut self, num_bytes: usize) -> (r: Option<&[u8]>)
        ensures
            old(self)@.wf(SIZE as nat),
            final(self)@.wf(SIZE as nat),
            old(self)@.len() < num_bytes ==> r is None && final(self)@ == old(self)@,
            old(self)@.len() >= num_bytes ==> (r matches Some(bytes) && bytes@ == old(
                self,
            )@.readable().take(num_bytes as int) && final(self)@ == old(self)@.consume(
                num_bytes as nat,
            )),
    {
        if self.len() < num_bytes {
            None
        } else {
            Some(self.read_bytes(num_bytes))
        }
    }

    /// Reads all the bytes from the buffer.
    ///
    /// The buffer becomes empty and subsequent writes can fill the whole buffer.
    pub fn read_all(&mut self) -> (r: &[u8])
        ensures
            old(self)@.wf(SIZE as nat),
            final(self)@.wf(SIZE as nat),
            r@ == old(self)@.readable(),
            final(self)@ == old(self)@.cleared(),
    {
        let n = self.len();
        let r = self.read_bytes(n);
        proof {
            assert(r@ =~= old(self)@.readable());
        }
        r
    }

    /// Reads bytes from the buffer and copies them into `dest`.
    ///
    /// Returns the number of bytes copied.
    ///
    /// Returns `0` when the buffer is empty or `dest` is zero-length.
    pub fn read_and_copy_bytes(&mut self, dest: &mut [u8]) -> (r: usize)
        ensures
            old(self)@.wf(SIZE as nat),
            final(self)@.wf(SIZE as nat),
            r == copy_len(old(dest)@.len(), old(self)@.len()),
            final(dest)@ == old(self)@.readable().take(r as int) + old(dest)@.skip(r as int),
            final(self)@ == old(self)@.consume(r as nat),
    {
        proof {
            use_type_invariant(&*self);
        }
        let readable_len = self.len();
        let len = if dest.len() < readable_len {
            dest.len()
        } else {
            readable_len
        };
        if len == 0 {
            proof {
                assert(dest@ =~= old(self)@.readable().take(0) + old(dest)@.skip(0));
            }
            return 0;
        }
        let start = self.read_index;
        let mut i: usize = 0;
        while i < len
            invariant
                i <= len,
                len <= dest@.len(),
                start == old(self)@.read_index,
                len <= old(self)@.len(),
                old(self)@.wf(SIZE as nat),
                self@ == old(self)@,
                dest@.len() == old(dest)@.len(),
                forall|j: int| 0 <= j < i ==> dest@[j] == old(self)@.readable()[j],
                forall|j: int| i <= j < dest@.len() ==> dest@[j] == old(dest)@[j],
            decreases len - i,
        {
            dest[i] = self.mem[start + i];
            i = i + 1;
        }
        proof {
            assert(dest@ =~= old(self)@.readable().take(len as int) + old(dest)@.skip(len as int));
        }
        self.read_bytes(len);
        len
    }

    /// Reads bytes from the buffer and copies them into `dest`, filling it,
    /// and returns `()`.
    ///
    /// Returns `None` if the buffer does not contain enough bytes to fill `dest`.
    ///
    /// Returns `()` if `dest` is zero-length.
    pub fn try_read_exact(&mut self, dest: &mut [u8]) -> (r: Option<()>)
        ensures
            old(self)@.wf(SIZE as nat),
            final(self)@.wf(SIZE as nat),
            old(self)@.len() < old(dest)@.len() ==> r is None && final(self)@ == old(self)@
                && final(dest)@ == old(dest)@,
            old(self)@.len() >= old(dest)@.len() ==> r is Some && final(dest)@ == old(
                self,
            )@.readable().take(old(dest)@.len() as int) && final(self)@ == old(self)@.consume(
                old(dest)@.len(),
            ),
    {
        if self.len() < dest.len() {
            return None;
        }
        let ghost n = dest@.len();
        self.read_and_copy_bytes(dest);
        proof {
            assert(dest@ =~= old(self)@.readable().take(n as int));
        }
        Some(())
    }

    /// Try to parse the buffer contents with `f`.
    ///
    /// `f` must return `None` to indicate that the buffer
    /// contains an incomplete data record.
    /// When `try_parse` returns None, the caller should add more data to the
    /// buffer and call `try_parse` again.
    ///
    /// Undoes any reads that `f` made to the buffer if it returns `None`.
    ///
    /// `f` should not write to the buffer.
    /// If `f` writes to the buffer and then returns `None`,
    /// the buffer's contents will become corrupted.
    pub fn try_parse<R, F>(&mut self, f: F) -> (r: Option<R>) where
        F: FnOnce(&mut FixedBuf<SIZE>) -> Option<R>,
        requires
            forall|b: &mut FixedBuf<SIZE>| #[trigger] f.requires((b,)),
        ensures
            old(self)@.wf(SIZE as nat),
            final(self)@.wf(SIZE as nat),
            r is Some ==> exists|b: &mut FixedBuf<SIZE>|
                *b == *old(self) && *final(b) == *final(self) && #[trigger] f.ensures((b,), r),
            r is None ==> exists|b: &mut FixedBuf<SIZE>|
                {
                    &&& *b == *old(self)
                    &&& #[trigger] f.ensures((b,), r)
                    &&& final(self)@ == (BufView {
                        mem: final(b)@.mem,
                        read_index: old(self)@.read_index,
                        write_index: old(self)@.write_index,
                    })
                },
    {
        proof {
            use_type_invariant(&*self);
        }
        let saved_read_index = self.read_index;
        let saved_write_index = self.write_index;
        let result = f(self);
        proof {
            use_type_invariant(&*self);
        }
        if let Some(value) = result {
            Some(value)
        } else {
            // Restore the indices in an order that keeps them consistent.
            self.read_index = 0;
            self.write_index = saved_write_index;
            self.read_index = saved_read_index;
            None
        }
    }

    /// Writes `s` into the buffer, after any unread bytes.
    ///
    /// Returns `Err` if the buffer doesn't have enough free space at the end
    /// for the whole string.
    ///
    /// See [`shift`](#method.shift).
    pub fn write_str(&mut self, s: &str) -> (r: Result<(), NotEnoughSpaceError>)
        ensures
            old(self)@.wf(SIZE as nat),
            final(self)@.wf(SIZE as nat),
            s.spec_bytes().len() > old(self)@.writable_len() ==> r is Err && final(self)@ == old(
                self,
            )@,
            s.spec_bytes().len() <= old(self)@.writable_len() ==> r is Ok && final(self)@ == old(
                self,
            )@.append(s.spec_bytes()),
    {
        match self.write_bytes(s.as_bytes()) {
            Ok(_) => Ok(()),
            Err(e) => Err(e),
        }
    }

    /// Tries to write `data` into the buffer, after any unread bytes.
    ///
    /// Returns `Ok(data.len())` if it wrote all of the bytes.
    ///
    /// Returns `NotEnoughSpaceError`
    /// if the buffer doesn't have enough free space at the end for all of the bytes.
    ///
    /// See [`shift`](#method.shift).
    pub fn write_bytes(&mut self, data: &[u8]) -> (r: Result<usize, NotEnoughSpaceError>)
        ensures
            old(self)@.wf(SIZE as nat),
            final(self)@.wf(SIZE as nat),
            data@.len() > old(self)@.writable_len() ==> r is Err && final(self)@ == old(self)@,
            data@.len() <= old(self)@.writable_len() ==> r == Ok::<usize, NotEnoughSpaceError>(
                data@.len() as usize,
            ) && final(self)@ == old(self)@.append(data@),
            data@.len() <= old(self)@.writable_len() ==> final(self)@.readable() == old(
                self,
            )@.readable() + data@,
    {
        proof {
            use_type_invariant(&*self);
        }
        if self.writable_len() < data.len() {
            return Err(NotEnoughSpaceError {  });
        }
        let start = self.write_index;
        let mut i: usize = 0;
        while i < data.len()
            invariant
                i <= data@.len(),
                start == old(self)@.write_index,
                start + data@.len() <= SIZE,
                old(self)@.wf(SIZE as nat),
                self@.read_index == old(self)@.read_index,
                self@.write_index == old(self)@.write_index,
                self@.mem.len() == SIZE,
                forall|j: int| 0 <= j < start ==> self@.mem[j] == old(self)@.mem[j],
                forall|j: int| start <= j < start + i ==> self@.mem[j] == data@[j - start],
                forall|j: int| start + i <= j < SIZE ==> self@.mem[j] == old(self)@.mem[j],
            decreases data@.len() - i,
        {
            self.mem[start + i] = data[i];
            i = i + 1;
        }
        self.wrote(data.len());
        proof {
            assert(self@.mem =~= old(self)@.append(data@).mem);
            assert(self@.readable() =~= old(self)@.readable() + data@);
        }
        Ok(data.len())
    }

    /// Returns the writable part of the buffer.
    ///
    /// To use this, first modify bytes at the beginning of the slice.
    /// Then call [`wrote(usize)`](#method.wrote)
    /// to commit those bytes into the buffer and make them available for reading.
    ///
    /// Returns an empty slice when the end of the buffer is full.
    ///
    /// See [`shift`](#method.shift).
    pub fn writable(&mut self) -> (r: &mut [u8])
        ensures
            old(self)@.wf(SIZE as nat),
            final(self)@.wf(SIZE as nat),
            r@ == old(self)@.mem.subrange(old(self)@.write_index as int, SIZE as int),
            final(self)@.read_index == old(self)@.read_index,
            final(self)@.write_index == old(self)@.write_index,
            final(self)@.mem == old(self)@.mem.subrange(0, old(self)@.write_index as int)
                + final(r)@,
    {
        proof {
            use_type_invariant(&*self);
        }
        let write_index = self.write_index;
        let mem: &mut [u8] = &mut self.mem;
        let (_unwritable, writable) = mem.split_at_mut(write_index);
        writable
    }

    /// The space that one copy from a reader fills: the
    /// [`writable`](#method.writable) part of the buffer, or an `InvalidData` error
    /// when there is no empty space at the end of the buffer.
    /// After reading `n` bytes into it, call [`wrote(n)`](#method.wrote).
    pub fn copy_destination(&mut self) -> (r: Result<&mut [u8], std::io::Error>)
        ensures
            old(self)@.wf(SIZE as nat),
            final(self)@.wf(SIZE as nat),
            final(self)@.read_index == old(self)@.read_index,
            final(self)@.write_index == old(self)@.write_index,
            old(self)@.writable_len() == 0 ==> (r matches Err(e) && e == io_error_value(
                IoErrorKind::InvalidData,
                "no empty space in buffer"@,
            )) && final(self)@ == old(self)@,
            old(self)@.writable_len() > 0 ==> (r matches Ok(dest) && dest@ == old(self)@.mem.subrange(
                old(self)@.write_index as int,
                SIZE as int,
            ) && final(self)@.mem == old(self)@.mem.subrange(0, old(self)@.write_index as int)
                + final(dest)@),
    {
        if self.writable_len() == 0 {
            return Err(io_error(IoErrorKind::InvalidData, "no empty space in buffer"));
        }
        Ok(self.writable())
    }

    /// Commits bytes into the buffer.
    /// Call this after writing to the front of the
    /// [`writable`](#method.writable) slice.
    ///
    /// This is a low-level method.
    ///
    /// The caller must not commit more bytes than there is free space at the end
    /// of the buffer.
    ///
    /// See [`writable()`](#method.writable).
    pub fn wrote(&mut self, num_bytes: usize)
        requires
            num_bytes <= old(self)@.writable_len(),
        ensures
            old(self)@.wf(SIZE as nat),
            final(self)@.wf(SIZE as nat),
            final(self)@ == (BufView {
                write_index: (old(self)@.write_index + num_bytes) as nat,
                ..old(self)@
            }),
    {
        proof {
            use_type_invariant(&*self);
        }
        if num_bytes == 0 {
            return;
        }
        let new_write_index = self.write_index + num_bytes;
        self.write_index = new_write_index;
    }

    /// Recovers buffer space.
    ///
    /// The buffer is not circular.
    /// After you read bytes, the space at the beginning of the buffer is unused.
    /// Call this method to move unread data to the beginning of the buffer and recover the space.
    /// This makes the free space available for writes, which go at the end of the buffer.
    pub fn shift(&mut self)
        ensures
            old(self)@.wf(SIZE as nat),
            final(self)@.wf(SIZE as nat),
            final(self)@ == old(self)@.shifted(),
            final(self)@.readable() == old(self)@.readable(),
            final(self)@.read_index == 0,
    {
        proof {
            use_type_invariant(&*self);
        }
        if self.read_index == 0 {
            return;
        }
        let read_index = self.read_index;
        let len = self.write_index - self.read_index;
        let mut i: usize = 0;
        while i < len
            invariant
                i <= len,
                read_index == old(self)@.read_index,
                len == old(self)@.len(),
                read_index > 0,
                old(self)@.wf(SIZE as nat),
                self@.read_index == old(self)@.read_index,
                self@.write_index == old(self)@.write_index,
                self@.mem.len() == SIZE,
                forall|j: int| 0 <= j < i ==> self@.mem[j] == old(self)@.mem[read_index + j],
                forall|j: int| i <= j < SIZE ==> self@.mem[j] == old(self)@.mem[j],
            decreases len - i,
        {
            self.mem[i] = self.mem[read_index + i];
            i = i + 1;
        }
        self.read_index = 0;
        self.write_index = len;
        proof {
            assert(self@.mem =~= old(self)@.shifted().mem);
            assert(self@.readable() =~= old(self)@.readable());
        }
    }

    /// This is a low-level function.
    /// Use [`read_frame_step`](#method.read_frame_step) instead.
    ///
    /// Calls `deframer_fn` to check if the buffer contains a complete frame.
    /// Consumes the frame bytes from the buffer
    /// and returns the range of the frame's contents in the internal memory.
    ///
    /// Use [`mem`](#method.mem) to immutably borrow the internal memory and
    /// construct the slice with `&buf.mem()[range]`.
    ///
    /// Returns `None` if the buffer is empty or contains an incomplete frame.
    ///
    /// Returns an `InvalidData` error when `deframer_fn` returns an error.
    pub fn deframe<F>(&mut self, deframer_fn: F) -> (r: Result<Option<Range<usize>>, std::io::Error>) where
        F: Fn(&[u8]) -> Result<Option<(Range<usize>, usize)>, MalformedInputError>,
        requires
            is_deframer(deframer_fn),
        ensures
            old(self)@.wf(SIZE as nat),
            final(self)@.wf(SIZE as nat),
            old(self)@.len() == 0 ==> (r matches Ok(None)) && final(self)@ == old(self)@,
            old(self)@.len() > 0 ==> exists|data: &[u8], found|
                data@ == old(self)@.readable() && #[trigger] deframer_fn.ensures((data,), found)
                    && deframe_outcome(old(self)@, found, r, final(self)@),
            r matches Ok(Some(mem_range)) ==> {
                &&& mem_range.start <= mem_range.end <= SIZE
                &&& final(self)@.mem == old(self)@.mem
                &&& old(self)@.read_index <= mem_range.start
                &&& mem_range.end <= old(self)@.write_index
            },
    {
        proof {
            use_type_invariant(&*self);
        }
        if self.is_empty() {
            return Ok(None);
        }
        let data = self.readable();
        let found = deframer_fn(data);
        match found {
            Err(e) => Err(std::io::Error::from(e)),
            Ok(None) => Ok(None),
            Ok(Some((data_range, block_len))) => {
                let mem_start = self.read_index + data_range.start;
                let mem_end = self.read_index + data_range.end;
                self.read_bytes(block_len);
                Ok(Some(Range { start: mem_start, end: mem_end }))
            },
        }
    }

    /// One step of reading a frame from a reader into the buffer.
    ///
    /// If the buffer holds a complete frame, consumes it and returns
    /// [`FrameStep::Frame`] with the range of its contents in [`mem`](#method.mem).
    /// Otherwise calls [`shift`](#method.shift) and returns [`FrameStep::ReadMore`]:
    /// the caller reads once into [`writable`](#method.writable) and passes the number
    /// of bytes read to [`read_frame_input`](#method.read_frame_input).
    ///
    /// Returns an `InvalidData` error when `deframer_fn` returns an error
    /// or when the buffer is full and holds no complete frame.
    pub fn read_frame_step<F>(&mut self, deframer_fn: F) -> (r: Result<FrameStep, std::io::Error>) where
        F: Fn(&[u8]) -> Result<Option<(Range<usize>, usize)>, MalformedInputError>,
        requires
            is_deframer(deframer_fn),
        ensures
            old(self)@.wf(SIZE as nat),
            final(self)@.wf(SIZE as nat),
            old(self)@.len() == 0 ==> frame_step_needs_input(old(self)@, r, final(self)@),
            old(self)@.len() > 0 ==> exists|data: &[u8], found|
                data@ == old(self)@.readable() && #[trigger] deframer_fn.ensures((data,), found)
                    && match found {
                    Err(e) => r == Err::<FrameStep, std::io::Error>(malformed_frame_error(e))
                        && final(self)@ == old(self)@,
                    Ok(None) => frame_step_needs_input(old(self)@, r, final(self)@),
                    Ok(Some((range, block_len))) => {
                        &&& r matches Ok(FrameStep::Frame(mem_range))
                        &&& frame_taken(old(self)@, range, block_len, mem_range, final(self)@)
                    },
                },
            r matches Ok(FrameStep::Frame(mem_range)) ==> {
                &&& mem_range.start <= mem_range.end <= SIZE
                &&& final(self)@.mem.subrange(mem_range.start as int, mem_range.end as int)
                    == old(self)@.mem.subrange(mem_range.start as int, mem_range.end as int)
            },
    {
        if !self.is_empty() {
            match self.deframe(deframer_fn) {
                Err(e) => return Err(e),
                Ok(Some(frame_range)) => return Ok(FrameStep::Frame(frame_range)),
                Ok(None) => {},
            }
        }
        self.shift();
        if self.writable_len() == 0 {
            return Err(io_error(IoErrorKind::InvalidData, "end of buffer full"));
        }
        Ok(FrameStep::ReadMore)
    }

    /// Records the result of the read that [`FrameStep::ReadMore`] asked for:
    /// `num_read` bytes were read into [`writable`](#method.writable).
    ///
    /// Returns `Ok(true)` when bytes were read: call
    /// [`read_frame_step`](#method.read_frame_step) again.
    /// Returns `Ok(false)` when the reader reached EOF and the buffer is empty.
    /// Returns an `UnexpectedEof` error when the reader reached EOF
    /// and the buffer holds an incomplete frame.
    pub fn read_frame_input(&mut self, num_read: usize) -> (r: Result<bool, std::io::Error>)
        requires
            num_read <= old(self)@.writable_len(),
        ensures
            old(self)@.wf(SIZE as nat),
            final(self)@.wf(SIZE as nat),
            num_read == 0 && old(self)@.len() == 0 ==> (r matches Ok(false)) && final(self)@
                == old(self)@,
            num_read == 0 && old(self)@.len() > 0 ==> r == Err::<bool, std::io::Error>(
                io_error_value(IoErrorKind::UnexpectedEof, "eof after reading part of a frame"@),
            ) && final(self)@ == old(self)@,
            num_read > 0 ==> (r matches Ok(true)) && final(self)@ == (BufView {
                write_index: (old(self)@.write_index + num_read) as nat,
                ..old(self)@
            }),
            num_read > 0 ==> final(self)@.readable() == old(self)@.readable()
                + old(self)@.mem.subrange(
                old(self)@.write_index as int,
                old(self)@.write_index + num_read,
            ),
    {
        proof {
            use_type_invariant(&*self);
        }
        if num_read == 0 {
            if self.is_empty() {
                return Ok(false);
            }
            return Err(io_error(IoErrorKind::UnexpectedEof, "eof after reading part of a frame"));
        }
        self.wrote(num_read);
        Ok(true)
    }
}

impl<const SIZE: usize> std::io::Write for FixedBuf<SIZE> {
    /// Writes all of `data` after the unread bytes, or nothing and an `InvalidData`
    /// error when the space at the end of the buffer is too small.
    fn write(&mut self, data: &[u8]) -> (r: std::io::Result<usize>)
        ensures
            data@.len() > old(self)@.writable_len() ==> r == Err::<usize, std::io::Error>(
                io_error_value(IoErrorKind::InvalidData, "not enough space in buffer"@),
            ) && final(self)@ == old(self)@,
            data@.len() <= old(self)@.writable_len() ==> (r matches Ok(n) && n == data@.len())
                && final(self)@ == old(self)@.append(data@),
    {
        match self.write_bytes(data) {
            Ok(n) => Ok(n),
            Err(e) => Err(std::io::Error::from(e)),
        }
    }

    fn flush(&mut self) -> (r: std::io::Result<()>)
        ensures
            r is Ok,
            final(self)@ == old(self)@,
    {
        Ok(())
    }
}

impl<const SIZE: usize> std::io::Read for FixedBuf<SIZE> {
    /// Copies unread bytes into `buf` and consumes them: as many as fit.
    fn read(&mut self, buf: &mut [u8]) -> (r: std::io::Result<usize>)
        ensures
            r matches Ok(n) && n == copy_len(old(buf)@.len(), old(self)@.len())
                && final(buf)@ == old(self)@.readable().take(n as int) + old(buf)@.skip(n as int)
                && final(self)@ == old(self)@.consume(n as nat),
    {
        Ok(self.read_and_copy_bytes(buf))
    }
}

impl<const SIZE: usize> Default for FixedBuf<SIZE> {
    fn default() -> (r: Self)
        ensures
            r@.wf(SIZE as nat),
            r@.mem == Seq::new(SIZE as nat, |i: int| 0u8),
            r@.read_index == 0,
            r@.write_index == 0,
    {
        Self::new()
    }
}

} // verus!

//! A byte buffer that holds a few KB: [`BUFFER_LEN`] bytes.
use vstd::prelude::*;

use crate::errors::{io_error, io_error_value, IoErrorKind};
use crate::escape::{decimal_spec, escape_ascii, escape_ascii_spec, push_decimal};
use crate::fixed_buf::BufView;
use vstd::string::{StringExecFns, StringSliceAdditionalSpecFns};

verus! {

/// The number of bytes that can be stored in a [`FixedBuf`].
pub const BUFFER_LEN: usize = 4 * 1024;

/// `delim` occurs in `data` starting at index `n`.
pub open spec fn delim_at(data: Seq<u8>, delim: Seq<u8>, n: int) -> bool {
    &&& 0 <= n
    &&& n + delim.len() <= data.len()
    &&& data.subrange(n, n + delim.len()) == delim
}

/// `n` is the first index of `data` where `delim` starts.
pub open spec fn first_delim_at(data: Seq<u8>, delim: Seq<u8>, n: int) -> bool {
    &&& delim_at(data, delim, n)
    &&& forall|i: int| 0 <= i < n ==> !#[trigger] delim_at(data, delim, i)
}

/// Whether `delim` occurs in `data` starting at `start`.
fn delim_matches_at(data: &[u8], start: usize, delim: &[u8]) -> (r: bool)
    requires
        start + delim@.len() <= data@.len(),
    ensures
        r == delim_at(data@, delim@, start as int),
{
    let data_len = data.len();
    let mut k: usize = 0;
    while k < delim.len()
        invariant
            data_len == data@.len(),
            k <= delim@.len(),
            start + delim@.len() <= data@.len(),
            forall|m: int| 0 <= m < k ==> data@[start + m] == delim@[m],
        decreases delim@.len() - k,
    {
        if data[start + k] != delim[k] {
            proof {
                assert(data@.subrange(start as int, start + delim@.len())[k as int] != delim@[k as int]);
            }
            return false;
        }
        k = k + 1;
    }
    proof {
        assert(data@.subrange(start as int, start + delim@.len()) =~= delim@);
    }
    true
}

/// Finds where `delim` first occurs in `data`.
fn find_delim(data: &[u8], delim: &[u8]) -> (r: Option<usize>)
    requires
        delim@.len() > 0,
    ensures
        r matches Some(n) ==> first_delim_at(data@, delim@, n as int),
        r is None ==> forall|i: int| !#[trigger] delim_at(data@, delim@, i),
{
    if data.len() < delim.len() {
        return None;
    }
    let last = data.len() - delim.len();
    proof {
        assert(last < usize::MAX);
    }
    let mut i: usize = 0;
    while i <= last
        invariant
            last + delim@.len() == data@.len(),
            delim@.len() > 0,
            last < usize::MAX,
            forall|j: int| 0 <= j < i ==> !#[trigger] delim_at(data@, delim@, j),
        decreases last + 1 - i,
    {
        if delim_matches_at(data, i, delim) {
            return Some(i);
        }
        i = i + 1;
    }
    None
}

/// The text that [`FixedBuf::debug_string`] returns for a buffer in state `b`:
/// its free space at the end, its number of unread bytes, and the escaped unread bytes.
pub open spec fn debug_text_spec(b: BufView) -> Seq<char> {
    "FixedBuf{"@ + decimal_spec(b.writable_len()) + " writable, "@ + decimal_spec(b.len())
        + " readable: \""@ + escape_ascii_spec(b.readable()) + "\"}"@
}

/// How many unread bytes one read copies into a buffer of `dest_len` bytes when
/// `available` bytes are unread: as many as fit.
pub open spec fn copy_len(dest_len: nat, available: nat) -> nat {
    if dest_len < available {
        dest_len
    } else {
        available
    }
}

/// The first `delim`, of `delim_len` bytes, was found `n` bytes into the unread bytes
/// of `before`: the bytes before it lie at `range` in memory, and they and the
/// delimiter were consumed, leaving `after`.
pub open spec fn line_taken(
    before: BufView,
    delim_len: nat,
    n: int,
    range: core::ops::Range<usize>,
    after: BufView,
) -> bool {
    &&& range.start == before.read_index
    &&& range.end == before.read_index + n
    &&& after == before.consume((n + delim_len) as nat)
}

/// The outcome of a delimiter step that found no delimiter: the unread bytes are moved
/// to the front, and the caller is asked to read more unless no space is left, which is
/// answered with an `InvalidData` error.
pub open spec fn delimited_step_needs_input(
    before: BufView,
    r: Result<DelimitedStep, std::io::Error>,
    after: BufView,
) -> bool {
    &&& after == before.shifted()
    &&& after.readable() == before.readable()
    &&& before.shifted().writable_len() == 0 ==> r == Err::<DelimitedStep, std::io::Error>(
        io_error_value(IoErrorKind::InvalidData, "end of buffer full"@),
    )
    &&& before.shifted().writable_len() > 0 ==> (r matches Ok(DelimitedStep::ReadMore))
}

/// What [`FixedBuf::read_delimited_step`] asks of its caller.
pub enum DelimitedStep {
    /// The delimiter was found: the bytes before it are `mem()[range]`;
    /// they and the delimiter were consumed.
    Found(core::ops::Range<usize>),
    /// The delimiter is not in the buffer: read more bytes into
    /// [`FixedBuf::writable`] and pass their number to
    /// [`FixedBuf::read_delimited_input`].
    ReadMore,
}

/// FixedBuf is a byte buffer that holds a few KB.
/// You can write bytes to it and then read them back.
///
/// Use `read_delimited_step` to read lines and other delimited messages.
///
/// It is not a circular buffer.  You can call [`shift`](#method.shift) periodically to
/// move unread bytes to the front of the buffer.
#[derive(Clone, Copy, Eq, Hash, PartialEq)]
pub struct FixedBuf {
    inner: crate::fixed_buf::FixedBuf<BUFFER_LEN>,
}

impl View for FixedBuf {
    type V = BufView;

    closed spec fn view(&self) -> BufView {
        self.inner@
    }
}

impl FixedBuf {
    /// Makes a new buffer with 4KB of internal memory.
    pub fn new() -> (r: FixedBuf)
        ensures
            r@.wf(BUFFER_LEN as nat),
            r@.mem == Seq::new(BUFFER_LEN as nat, |i: int| 0u8),
            r@.read_index == 0,
            r@.write_index == 0,
    {
        FixedBuf { inner: crate::fixed_buf::FixedBuf::new() }
    }

    /// Makes a new FixedBuf which uses the specified memory.
    ///
    /// This function is the inverse of [`into_inner`](#method.into_inner).
    pub fn with_mem(buf: [u8; BUFFER_LEN]) -> (r: FixedBuf)
        ensures
            r@.wf(BUFFER_LEN as nat),
            r@ == (BufView { mem: buf@, read_index: 0, write_index: 0 }),
    {
        FixedBuf { inner: crate::fixed_buf::FixedBuf::empty(buf) }
    }

    /// Drops the struct and returns its internal memory.
    ///
    /// This function is the inverse of [`with_mem`](#method.with_mem).
    pub fn into_inner(self) -> (r: [u8; BUFFER_LEN])
        ensures
            r@ == self@.mem,
    {
        self.inner.into_inner()
    }

    /// Returns the number of unread bytes in the buffer.
    pub fn len(&self) -> (r: usize)
        ensures
            self@.wf(BUFFER_LEN as nat),
            r == self@.len(),
    {
        self.inner.len()
    }

    /// Writes `s` into the buffer, after any unread bytes.
    ///
    /// The caller must leave room: the end of the buffer must have free space
    /// for the whole string.
    pub fn append(&mut self, s: &str)
        requires
            0 < old(self)@.writable_len(),
            s.spec_bytes().len() <= old(self)@.writable_len(),
        ensures
            final(self)@.wf(BUFFER_LEN as nat),
            final(self)@ == old(self)@.append(s.spec_bytes()),
    {
        self.inner.write_bytes(s.as_bytes());
    }

    /// Writes `s` into the buffer, after any unread bytes.
    ///
    /// Returns `None` if the buffer doesn't have enough free space at the end for the whole string.
    pub fn try_append(&mut self, s: &str) -> (r: Option<()>)
        ensures
            old(self)@.wf(BUFFER_LEN as nat),
            final(self)@.wf(BUFFER_LEN as nat),
            (0 < old(self)@.writable_len() && s.spec_bytes().len() <= old(self)@.writable_len())
                ==> r is Some && final(self)@ == old(self)@.append(s.spec_bytes()),
            !(0 < old(self)@.writable_len() && s.spec_bytes().len() <= old(self)@.writable_len())
                ==> r is None && final(self)@ == old(self)@,
    {
        let bytes = s.as_bytes();
        let full = self.writable_len() == 0;
        if full {
            return None;
        }
        match self.inner.write_bytes(bytes) {
            Ok(_) => Some(()),
            Err(_) => None,
        }
    }

    fn writable_len(&self) -> (r: usize)
        ensures
            self@.wf(BUFFER_LEN as nat),
            r == self@.writable_len(),
    {
        self.inner.writable_len()
    }

    /// Returns the writable part of the buffer.
    ///
    /// To use this, first modify bytes at the beginning of the slice.
    /// Then call [`wrote(usize)`](#method.wrote) to commit those bytes into the buffer
    /// and make them available for reading.
    ///
    /// Returns `None` when the end of the buffer is full.  See [`shift`](#method.shift).
    pub fn writable(&mut self) -> (r: Option<&mut [u8]>)
        ensures
            old(self)@.wf(BUFFER_LEN as nat),
            final(self)@.wf(BUFFER_LEN as nat),
            old(self)@.writable_len() == 0 ==> r is None && final(self)@ == old(self)@,
            old(self)@.writable_len() > 0 ==> (r matches Some(w) && w@ == old(self)@.mem.subrange(
                old(self)@.write_index as int,
                BUFFER_LEN as int,
            ) && final(self)@.mem == old(self)@.mem.subrange(0, old(self)@.write_index as int)
                + final(w)@),
            final(self)@.read_index == old(self)@.read_index,
            final(self)@.write_index == old(self)@.write_index,
    {
        if self.writable_len() == 0 {
            return None;
        }
        Some(self.inner.writable())
    }

    /// Commit bytes into the buffer.
    /// Call this after writing to the front of the [`writable`](#method.writable) slice.
    ///
    /// This is a low-level method.
    ///
    /// The caller must not commit more bytes than the writable slice holds.
    pub fn wrote(&mut self, num_bytes: usize)
        requires
            num_bytes <= old(self)@.writable_len(),
        ensures
            final(self)@.wf(BUFFER_LEN as nat),
            final(self)@ == (BufView {
                write_index: (old(self)@.write_index + num_bytes) as nat,
                ..old(self)@
            }),
    {
        self.inner.wrote(num_bytes)
    }

    /// Borrows the entire internal memory buffer, where
    /// [`DelimitedStep::Found`] locates the bytes before the delimiter.
    pub fn mem(&self) -> (r: &[u8])
        ensures
            self@.wf(BUFFER_LEN as nat),
            r@ == self@.mem,
    {
        self.inner.mem()
    }

    /// Returns the slice of readable bytes in the buffer.
    /// After processing some bytes from the front of the slice, call
    /// [`read`](#method.read) to consume the bytes.
    pub fn readable(&self) -> (r: &[u8])
        ensures
            self@.wf(BUFFER_LEN as nat),
            r@ == self@.readable(),
    {
        self.inner.readable()
    }

    /// Describes the buffer for debugging, in the form
    /// `FixedBuf{4093 writable, 2 readable: "bc"}`: the free space at the end,
    /// the number of unread bytes, and the escaped unread bytes.
    pub fn debug_string(&self) -> (r: String)
        ensures
            r@ == debug_text_spec(self@),
    {
        let mut text = String::new();
        text.append("FixedBuf{");
        push_decimal(&mut text, self.writable_len());
        text.append(" writable, ");
        push_decimal(&mut text, self.len());
        text.append(" readable: \"");
        text.append(escape_ascii(self.readable()).as_str());
        text.append("\"}");
        text
    }

    /// Read all the bytes from the buffer.
    /// The buffer becomes empty and subsequent writes can fill the whole buffer.
    pub fn read_all(&mut self) -> (r: &[u8])
        ensures
            final(self)@.wf(BUFFER_LEN as nat),
            r@ == old(self)@.readable(),
            final(self)@ == old(self)@.cleared(),
    {
        self.inner.read_all()
    }

    /// Recovers buffer space.
    ///
    /// The buffer is not circular.
    /// After you read bytes, the space at the beginning of the buffer is unused.
    /// Call this method to move unread data to the beginning of the buffer and recover the space.
    /// This makes the free space available for writes, which go at the end of the buffer.
    pub fn shift(&mut self)
        ensures
            final(self)@.wf(BUFFER_LEN as nat),
            final(self)@ == old(self)@.shifted(),
            final(self)@.readable() == old(self)@.readable(),
    {
        self.inner.shift()
    }

    /// One step of reading until a delimiter.
    ///
    /// If the unread bytes hold `delim`, consumes the bytes up to and including its
    /// first occurrence and returns [`DelimitedStep::Found`] with the range in memory of
    /// the bytes before it. Otherwise calls [`shift`](#method.shift) and returns
    /// [`DelimitedStep::ReadMore`]: the caller reads once into
    /// [`writable`](#method.writable) and passes the number of bytes read to
    /// [`read_delimited_input`](#method.read_delimited_input).
    ///
    /// Returns an `InvalidData` error if the buffer is full and holds no `delim`.
    pub fn read_delimited_step(&mut self, delim: &[u8]) -> (r: Result<DelimitedStep, std::io::Error>)
        requires
            delim@.len() > 0,
        ensures
            final(self)@.wf(BUFFER_LEN as nat),
            forall|n: int| #[trigger]
                first_delim_at(old(self)@.readable(), delim@, n) ==> {
                    &&& r matches Ok(DelimitedStep::Found(range))
                    &&& line_taken(old(self)@, delim@.len(), n, range, final(self)@)
                },
            (forall|i: int| !#[trigger] delim_at(old(self)@.readable(), delim@, i))
                ==> delimited_step_needs_input(old(self)@, r, final(self)@),
            r matches Ok(DelimitedStep::Found(range)) ==> range.start <= range.end <= BUFFER_LEN
                && final(self)@.mem == old(self)@.mem,
            r matches Ok(DelimitedStep::Found(range)) ==> old(self)@.readable()
                == final(self)@.mem.subrange(range.start as int, range.end as int) + delim@
                + final(self)@.readable(),
    {
        let start = self.read_offset();
        match find_delim(self.readable(), delim) {
            Some(delim_index) => {
                proof {
                    let n = delim_index as int;
                    assert forall|m: int| #[trigger]
                        first_delim_at(old(self)@.readable(), delim@, m) implies m == n by {
                        if m < n {
                            assert(!delim_at(old(self)@.readable(), delim@, m));
                        } else if m > n {
                            assert(!delim_at(old(self)@.readable(), delim@, n));
                        }
                    }
                }
                let result_start = start;
                let result_end = start + delim_index;
                self.inner.read_bytes(delim_index + delim.len());
                proof {
                    let n = delim_index as int;
                    let before = old(self)@.readable();
                    assert(self@.mem.subrange(result_start as int, result_end as int)
                        =~= before.subrange(0, n));
                    assert(before =~= before.subrange(0, n) + before.subrange(n, n + delim@.len())
                        + before.subrange(n + delim@.len(), before.len() as int));
                }
                Ok(DelimitedStep::Found(core::ops::Range { start: result_start, end: result_end }))
            },
            None => {
                self.inner.shift();
                if self.writable_len() == 0 {
                    return Err(io_error(IoErrorKind::InvalidData, "end of buffer full"));
                }
                Ok(DelimitedStep::ReadMore)
            },
        }
    }

    /// Records the result of the read that [`DelimitedStep::ReadMore`] asked for:
    /// `num_read` bytes were read into [`writable`](#method.writable).
    ///
    /// Returns `Ok(())` when bytes were read: call
    /// [`read_delimited_step`](#method.read_delimited_step) again.
    /// Returns a `NotFound` error when the reader reached EOF (an `UnexpectedEof` error
    /// if unread bytes do not start at the front of the memory).
    pub fn read_delimited_input(&mut self, num_read: usize) -> (r: Result<(), std::io::Error>)
        requires
            num_read <= old(self)@.writable_len(),
        ensures
            final(self)@.wf(BUFFER_LEN as nat),
            num_read == 0 ==> final(self)@ == old(self)@,
            num_read == 0 && old(self)@.read_index == 0 ==> r == Err::<(), std::io::Error>(
                io_error_value(IoErrorKind::NotFound, "eof with no data read"@),
            ),
            num_read == 0 && old(self)@.read_index > 0 ==> r == Err::<(), std::io::Error>(
                io_error_value(IoErrorKind::UnexpectedEof, "eof before delim read"@),
            ),
            num_read > 0 ==> r is Ok && final(self)@ == (BufView {
                write_index: (old(self)@.write_index + num_read) as nat,
                ..old(self)@
            }),
            num_read > 0 ==> final(self)@.readable() == old(self)@.readable()
                + old(self)@.mem.subrange(
                old(self)@.write_index as int,
                old(self)@.write_index + num_read,
            ),
    {
        if num_read == 0 {
            if self.read_offset() == 0 {
                return Err(io_error(IoErrorKind::NotFound, "eof with no data read"));
            }
            return Err(io_error(IoErrorKind::UnexpectedEof, "eof before delim read"));
        }
        self.inner.wrote(num_read);
        Ok(())
    }

    /// Copies as many unread bytes as fit into `dest` and consumes them.
    pub(crate) fn copy_into(&mut self, dest: &mut [u8]) -> (r: usize)
        ensures
            r == copy_len(old(dest)@.len(), old(self)@.len()),
            final(dest)@ == old(self)@.readable().take(r as int) + old(dest)@.skip(r as int),
            final(self)@ == old(self)@.consume(r as nat),
    {
        self.inner.read_and_copy_bytes(dest)
    }

    fn read_offset(&self) -> (r: usize)
        ensures
            self@.wf(BUFFER_LEN as nat),
            r == self@.read_index,
    {
        self.inner.read_index()
    }
}

/// Reading a given number of unread bytes out of a buffer.
///
/// [`FixedBuf`] has `read` through this trait as well as through `std::io::Read`,
/// whose `read` copies into a slice: bring this trait into scope to call
/// `buf.read(num_bytes)`.
pub trait ConsumeBytes {
    /// The number of unread bytes.
    spec fn unread_len(&self) -> nat;

    /// Read bytes from the buffer.
    ///
    /// The caller must not ask for more bytes than the buffer holds.
    fn read(&mut self, num_bytes: usize) -> &[u8]
        requires
            num_bytes <= old(self).unread_len(),
    ;
}

impl ConsumeBytes for FixedBuf {
    open spec fn unread_len(&self) -> nat {
        self@.len()
    }

    /// Returns the first `num_bytes` unread bytes and consumes them.
    fn read(&mut self, num_bytes: usize) -> (r: &[u8])
        ensures
            final(self)@.wf(BUFFER_LEN as nat),
            r@ == old(self)@.readable().take(num_bytes as int),
            final(self)@ == old(self)@.consume(num_bytes as nat),
    {
        self.inner.read_bytes(num_bytes)
    }
}

impl std::io::Write for FixedBuf {
    /// Writes all of `data` after the unread bytes, or nothing and an `InvalidData`
    /// error when the end of the buffer is full or too small for `data`.
    fn write(&mut self, data: &[u8]) -> (r: std::io::Result<usize>)
        ensures
            final(self)@.wf(BUFFER_LEN as nat),
            (0 < old(self)@.writable_len() && data@.len() <= old(self)@.writable_len()) ==> (r matches Ok(n)
                && n == data@.len()) && final(self)@ == old(self)@.append(data@),
            !(0 < old(self)@.writable_len() && data@.len() <= old(self)@.writable_len())
                ==> final(self)@ == old(self)@,
            old(self)@.writable_len() == 0 ==> r == Err::<usize, std::io::Error>(
                io_error_value(IoErrorKind::InvalidData, "end of buffer full"@),
            ),
            0 < old(self)@.writable_len() < data@.len() ==> r == Err::<usize, std::io::Error>(
                io_error_value(IoErrorKind::InvalidData, "Not enough free space in buffer"@),
            ),
    {
        let writable_len = self.writable_len();
        if writable_len == 0 {
            return Err(io_error(IoErrorKind::InvalidData, "end of buffer full"));
        }
        if writable_len < data.len() {
            return Err(io_error(IoErrorKind::InvalidData, "Not enough free space in buffer"));
        }
        match self.inner.write_bytes(data) {
            Ok(n) => Ok(n),
            Err(e) => Err(std::io::Error::from(e)),
        }
    }

    fn flush(&mut self) -> (r: std::io::Result<()>)
        ensures
            r is Ok,
            final(self)@ == old(self)@,
    {
        Ok(())
    }
}

impl Default for FixedBuf {
    fn default() -> (r: Self)
        ensures
            r@.wf(BUFFER_LEN as nat),
            r@.mem == Seq::new(BUFFER_LEN as nat, |i: int| 0u8),
            r@.read_index == 0,
            r@.write_index == 0,
    {
        Self::new()
    }
}

} // verus!

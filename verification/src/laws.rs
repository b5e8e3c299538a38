//! Properties that hold across the buffer operations.
use vstd::prelude::*;

use crate::deframe::{deframe_crlf, deframe_line, deframe_null, frame_result_valid, is_deframer};
use crate::errors::MalformedInputError;
use crate::escape::{escape_ascii_spec, escape_byte_spec};
use crate::fixed_buf::{deframe_outcome, frame_step_needs_input, frame_taken, BufView, FrameStep};
use crate::page_buf::{
    copy_len, delimited_step_needs_input, first_delim_at, line_taken, DelimitedStep,
};
use core::ops::Range;

verus! {

/// Writing `data` after the unread bytes, when it fits, keeps the buffer valid and
/// makes the unread bytes the old unread bytes followed by `data`: a later read
/// gives back exactly what was written, after what was there before.
pub proof fn law_write_then_read(b: BufView, size: nat, data: Seq<u8>)
    requires
        b.wf(size),
        data.len() <= b.writable_len(),
    ensures
        b.append(data).wf(size),
        b.append(data).readable() == b.readable() + data,
        b.append(data).len() == b.len() + data.len(),
{
    assert(b.append(data).readable() =~= b.readable() + data);
}

/// Reading `n` unread bytes keeps the buffer valid and leaves the unread bytes
/// that followed them.
pub proof fn law_read_takes_prefix(b: BufView, size: nat, n: nat)
    requires
        b.wf(size),
        n <= b.len(),
    ensures
        b.consume(n).wf(size),
        b.consume(n).readable() == b.readable().skip(n as int),
        b.consume(n).mem == b.mem,
{
    assert(b.consume(n).readable() =~= b.readable().skip(n as int));
}

/// Reading `m` bytes and then `n` bytes leaves the buffer as reading `m + n` bytes at once.
pub proof fn law_reads_compose(b: BufView, size: nat, m: nat, n: nat)
    requires
        b.wf(size),
        m + n <= b.len(),
    ensures
        b.consume(m).consume(n) == b.consume(m + n),
{
}

/// A buffer with no unread bytes has all of its memory free for writing:
/// after `read_all`, subsequent writes can fill the whole buffer.
pub proof fn law_empty_buffer_is_all_free(b: BufView, size: nat)
    requires
        b.wf(size),
        b.len() == 0,
    ensures
        b.writable_len() == size,
        b.read_index == 0,
{
}

/// Reading every unread byte leaves an empty buffer whose whole memory is free.
pub proof fn law_read_all_frees_buffer(b: BufView, size: nat)
    requires
        b.wf(size),
    ensures
        b.consume(b.len()) == b.cleared(),
        b.cleared().wf(size),
        b.cleared().writable_len() == size,
        b.cleared().readable() == Seq::<u8>::empty(),
{
    assert(b.cleared().readable() =~= Seq::<u8>::empty());
}

/// The memory is split in three: bytes already read, unread bytes, and free space.
pub proof fn law_sizes_add_up(b: BufView, size: nat)
    requires
        b.wf(size),
    ensures
        b.read_index + b.len() + b.writable_len() == size,
        b.readable().len() == b.len(),
{
}

/// Shifting keeps the unread bytes and recovers the space of the bytes already
/// read: afterwards everything but the unread bytes is free for writing.
pub proof fn law_shift_recovers_space(b: BufView, size: nat)
    requires
        b.wf(size),
    ensures
        b.shifted().wf(size),
        b.shifted().readable() == b.readable(),
        b.shifted().writable_len() == size - b.len(),
{
    assert(b.shifted().readable() =~= b.readable());
}

/// Writing bytes into the free space and then committing `n` of them appends
/// the first `n` written bytes to the unread bytes.
pub proof fn law_fill_then_commit(b: BufView, size: nat, written: Seq<u8>, n: nat)
    requires
        b.wf(size),
        written.len() == b.writable_len(),
        n <= b.writable_len(),
    ensures
        ({
            let filled = BufView {
                mem: b.mem.subrange(0, b.write_index as int) + written,
                ..b
            };
            let committed = BufView { write_index: b.write_index + n, ..filled };
            &&& committed.wf(size)
            &&& committed.readable() == b.readable() + written.take(n as int)
        }),
{
    let filled = BufView { mem: b.mem.subrange(0, b.write_index as int) + written, ..b };
    let committed = BufView { write_index: b.write_index + n, ..filled };
    assert(committed.readable() =~= b.readable() + written.take(n as int));
}

/// Escaping a concatenation gives the concatenation of the escapes.
pub proof fn law_escape_concat(a: Seq<u8>, b: Seq<u8>)
    ensures
        escape_ascii_spec(a + b) == escape_ascii_spec(a) + escape_ascii_spec(b),
    decreases b.len(),
{
    if b.len() == 0 {
        assert(a + b =~= a);
        assert(escape_ascii_spec(a) + escape_ascii_spec(b) =~= escape_ascii_spec(a));
    } else {
        law_escape_concat(a, b.drop_last());
        assert((a + b).drop_last() =~= a + b.drop_last());
        assert((a + b).last() == b.last());
    }
}

/// A byte that is printable ASCII and none of `'`, `"` and `\` is not escaped.
pub open spec fn plain_byte(b: u8) -> bool {
    0x20 <= b <= 0x7e && b != 0x27 && b != 0x22 && b != 0x5c
}

/// Text made only of plain bytes escapes to itself, one character per byte.
pub proof fn law_escape_keeps_plain_text(s: Seq<u8>)
    requires
        forall|i: int| 0 <= i < s.len() ==> plain_byte(#[trigger] s[i]),
    ensures
        escape_ascii_spec(s) == s.map_values(|b: u8| b as char),
    decreases s.len(),
{
    if s.len() > 0 {
        law_escape_keeps_plain_text(s.drop_last());
        assert(escape_byte_spec(s.last()) =~= seq![s.last() as char]);
        assert(s.map_values(|b: u8| b as char) =~= s.drop_last().map_values(|b: u8| b as char).push(
            s.last() as char,
        ));
    } else {
        assert(s.map_values(|b: u8| b as char) =~= Seq::<char>::empty());
    }
}

/// The provided line deframers behave as deframer functions, so they can be
/// passed to `FixedBuf::deframe` and `FixedBuf::read_frame_step`.
pub proof fn law_provided_deframers_are_deframers()
    ensures
        is_deframer(deframe_crlf),
        is_deframer(deframe_line),
        is_deframer(deframe_null),
{
    assert forall|d: &[u8], res: Result<Option<(Range<usize>, usize)>, MalformedInputError>|
        #[trigger] deframe_crlf.ensures((d,), res) implies frame_result_valid(d@, res) by {}
    assert forall|d: &[u8], res: Result<Option<(Range<usize>, usize)>, MalformedInputError>|
        #[trigger] deframe_line.ensures((d,), res) implies frame_result_valid(d@, res) by {}
    assert forall|d: &[u8], res: Result<Option<(Range<usize>, usize)>, MalformedInputError>|
        #[trigger] deframe_null.ensures((d,), res) implies frame_result_valid(d@, res) by {}
}

/// A line written with its `\n` terminator, and anything after it, deframes back to
/// exactly that line: its contents are the line and its length counts the `\n`.
pub proof fn law_line_round_trip(
    d: &[u8],
    line: Seq<u8>,
    rest: Seq<u8>,
    res: Result<Option<(Range<usize>, usize)>, MalformedInputError>,
)
    requires
        forall|i: int| 0 <= i < line.len() ==> #[trigger] line[i] != 0x0a && line[i] != 0x0d,
        d@ == line + seq![0x0au8] + rest,
        deframe_line.ensures((d,), res),
    ensures
        res matches Ok(Some((range, block_len))) && range.start == 0 && range.end == line.len()
            && block_len == line.len() + 1,
{
    let data = d@;
    assert(data[line.len() as int] == 0x0a);
    assert forall|i: int| 0 <= i < line.len() implies data[i] != 0x0a by {
        assert(data[i] == line[i]);
    }
    match res {
        Ok(Some((range, block_len))) => {
            if block_len - 1 < line.len() {
                assert(data[block_len - 1] == line[block_len - 1]);
            } else if block_len - 1 > line.len() {
                assert(data[line.len() as int] != 0x0a);
            }
            if line.len() > 0 {
                assert(data[line.len() - 1] == line[line.len() - 1]);
            }
        },
        Ok(None) => {
            assert(data[line.len() as int] != 0x0a);
        },
        Err(_) => {},
    }
}

/// A run of read steps ends with, as its unread bytes, the bytes that were unread when
/// it started followed by every chunk that the reader delivered, in order. A step that
/// asks for more input keeps the unread bytes (`read_delimited_step`, `read_frame_step`),
/// and recording a read of `n` bytes appends the `n` bytes delivered after them
/// (`read_delimited_input`, `read_frame_input`). `unread[i]` is the unread bytes before
/// the `i`-th read, which delivered `chunks[i]`.
pub proof fn law_read_run_keeps_every_byte(unread: Seq<Seq<u8>>, chunks: Seq<Seq<u8>>)
    requires
        unread.len() == chunks.len() + 1,
        forall|i: int| 0 <= i < chunks.len() ==> #[trigger] unread[i + 1] == unread[i] + chunks[i],
    ensures
        unread.last() == unread[0] + chunks.flatten(),
    decreases chunks.len(),
{
    if chunks.len() == 0 {
        assert(unread[0] + chunks.flatten() =~= unread[0]);
    } else {
        let k = chunks.len() - 1;
        law_read_run_keeps_every_byte(unread.drop_last(), chunks.drop_last());
        assert(unread.drop_last()[k] == unread[k]);
        chunks.drop_last().lemma_flatten_push(chunks[k]);
        assert(chunks.drop_last().push(chunks[k]) =~= chunks);
        assert(unread[k + 1] == unread[k] + chunks[k]);
        assert(unread.last() =~= unread[0] + chunks.flatten());
    }
}

/// A run of delimited reads returns the bytes before the first `delim` among all the
/// bytes it saw (those unread when it started, then every chunk the reader delivered),
/// consumes that `delim`, and keeps the bytes after it. The last step found `delim`
/// first at `n` in its unread bytes and split them into `line`, `delim` and `rest`
/// (`read_delimited_step`).
pub proof fn law_delimited_run(
    unread: Seq<Seq<u8>>,
    chunks: Seq<Seq<u8>>,
    delim: Seq<u8>,
    n: int,
    line: Seq<u8>,
    rest: Seq<u8>,
)
    requires
        unread.len() == chunks.len() + 1,
        forall|i: int| 0 <= i < chunks.len() ==> #[trigger] unread[i + 1] == unread[i] + chunks[i],
        first_delim_at(unread.last(), delim, n),
        line.len() == n,
        unread.last() == line + delim + rest,
    ensures
        first_delim_at(unread[0] + chunks.flatten(), delim, n),
        line == (unread[0] + chunks.flatten()).take(n),
        rest == (unread[0] + chunks.flatten()).skip(n + delim.len()),
{
    law_read_run_keeps_every_byte(unread, chunks);
    let all = unread[0] + chunks.flatten();
    assert(all.take(n) =~= line);
    assert(all.skip(n + delim.len()) =~= rest);
}

/// When a frame step finds no complete frame, it moves the unread bytes to the front and
/// asks for more input whenever any byte of memory is not unread, even if the end of the
/// memory was full before the move; only a buffer whose every byte is unread answers
/// that it is full.
pub proof fn law_frame_step_reads_unless_all_unread(
    b: BufView,
    size: nat,
    r: Result<FrameStep, std::io::Error>,
    after: BufView,
)
    requires
        b.wf(size),
        frame_step_needs_input(b, r, after),
    ensures
        after.readable() == b.readable(),
        after.read_index == 0,
        b.len() < size ==> (r matches Ok(FrameStep::ReadMore)) && after.writable_len() == size
            - b.len(),
        b.len() == size ==> r is Err,
{
    assert(b.shifted().writable_len() == size - b.len());
}

/// When a delimiter step finds no delimiter, it moves the unread bytes to the front and
/// asks for more input whenever any byte of memory is not unread; only a buffer whose
/// every byte is unread answers that it is full.
pub proof fn law_delimited_step_reads_unless_all_unread(
    b: BufView,
    size: nat,
    r: Result<DelimitedStep, std::io::Error>,
    after: BufView,
)
    requires
        b.wf(size),
        delimited_step_needs_input(b, r, after),
    ensures
        after.readable() == b.readable(),
        after.read_index == 0,
        b.len() < size ==> (r matches Ok(DelimitedStep::ReadMore)) && after.writable_len() == size
            - b.len(),
        b.len() == size ==> r is Err,
{
    assert(b.shifted().writable_len() == size - b.len());
}

/// Taking a frame that a deframer found in the unread bytes gives the range in memory
/// that holds exactly the frame's contents, as the deframer located them in the unread
/// bytes, and leaves unread exactly the bytes after the frame: the next frame starts there.
pub proof fn law_taken_frame_is_the_found_frame(
    b: BufView,
    size: nat,
    range: Range<usize>,
    block_len: usize,
    mem_range: Range<usize>,
    after: BufView,
)
    requires
        b.wf(size),
        frame_result_valid(b.readable(), Ok(Some((range, block_len)))),
        frame_taken(b, range, block_len, mem_range, after),
    ensures
        after.wf(size),
        after.mem.subrange(mem_range.start as int, mem_range.end as int) == b.readable().subrange(
            range.start as int,
            range.end as int,
        ),
        after.readable() == b.readable().skip(block_len as int),
{
    assert(after.mem.subrange(mem_range.start as int, mem_range.end as int) =~= b.readable().subrange(
        range.start as int,
        range.end as int,
    ));
    assert(after.readable() =~= b.readable().skip(block_len as int));
}

/// What `deframe` returns and leaves for each answer of the deframer: the contents of a
/// complete frame, located in memory, with the frame consumed; nothing and the buffer
/// unchanged for an incomplete frame; an error and the buffer unchanged for a malformed one.
pub proof fn law_deframe_follows_the_deframer(
    b: BufView,
    size: nat,
    found: Result<Option<(Range<usize>, usize)>, MalformedInputError>,
    r: Result<Option<Range<usize>>, std::io::Error>,
    after: BufView,
)
    requires
        b.wf(size),
        frame_result_valid(b.readable(), found),
        deframe_outcome(b, found, r, after),
    ensures
        found matches Ok(Some((range, block_len))) ==> {
            &&& r matches Ok(Some(mem_range))
            &&& after.mem.subrange(mem_range.start as int, mem_range.end as int)
                == b.readable().subrange(range.start as int, range.end as int)
            &&& after.readable() == b.readable().skip(block_len as int)
        },
        found matches Ok(None) ==> (r matches Ok(None)) && after == b,
        found is Err ==> r is Err && after == b,
{
    if let Ok(Some((range, block_len))) = found {
        let mem_range = r->Ok_0->Some_0;
        law_taken_frame_is_the_found_frame(b, size, range, block_len, mem_range, after);
    }
}

/// Taking the line before the first delimiter gives the range in memory that holds
/// exactly the unread bytes before the delimiter, and leaves unread exactly the bytes
/// after the delimiter.
pub proof fn law_taken_line_is_before_first_delim(
    b: BufView,
    size: nat,
    delim: Seq<u8>,
    n: int,
    range: Range<usize>,
    after: BufView,
)
    requires
        b.wf(size),
        first_delim_at(b.readable(), delim, n),
        line_taken(b, delim.len(), n, range, after),
    ensures
        after.wf(size),
        after.mem.subrange(range.start as int, range.end as int) == b.readable().take(n),
        b.readable().subrange(n, n + delim.len()) == delim,
        after.readable() == b.readable().skip(n + delim.len()),
{
    assert(after.mem.subrange(range.start as int, range.end as int) =~= b.readable().take(n));
    assert(after.readable() =~= b.readable().skip(n + delim.len()));
}

/// Where `delim` first occurs in `data`, at `n`, it does occur there, and it occurs at
/// no earlier index.
pub proof fn law_first_delim_is_an_occurrence(data: Seq<u8>, delim: Seq<u8>, n: int)
    requires
        first_delim_at(data, delim, n),
    ensures
        0 <= n,
        n + delim.len() <= data.len(),
        data.subrange(n, n + delim.len()) == delim,
        forall|i: int| 0 <= i < n ==> #[trigger] data.subrange(i, i + delim.len()) != delim,
{
    assert forall|i: int| 0 <= i < n implies #[trigger] data.subrange(i, i + delim.len()) != delim by {
        assert(!crate::page_buf::delim_at(data, delim, i));
    }
}

/// Wherever `delim` occurs in `data`, at any index `m`, there is a first occurrence, at
/// `m` or before it: the delimiter step finds it.
pub proof fn law_every_occurrence_has_a_first(data: Seq<u8>, delim: Seq<u8>, m: int)
    requires
        0 <= m,
        m + delim.len() <= data.len(),
        data.subrange(m, m + delim.len()) == delim,
    ensures
        exists|n: int| 0 <= n <= m && #[trigger] first_delim_at(data, delim, n),
    decreases m,
{
    if forall|i: int| 0 <= i < m ==> !#[trigger] crate::page_buf::delim_at(data, delim, i) {
        assert(first_delim_at(data, delim, m));
    } else {
        let i = choose|i: int| 0 <= i < m && #[trigger] crate::page_buf::delim_at(data, delim, i);
        law_every_occurrence_has_a_first(data, delim, i);
    }
}

/// A read copies as many unread bytes as fit: no more than either the room in the
/// destination or the unread bytes, and all of one of them. So it copies nothing only
/// when the destination is empty or nothing is unread.
pub proof fn law_read_copies_as_many_as_fit(dest_len: nat, available: nat)
    ensures
        copy_len(dest_len, available) <= dest_len,
        copy_len(dest_len, available) <= available,
        copy_len(dest_len, available) == dest_len || copy_len(dest_len, available) == available,
        dest_len > 0 && available > 0 ==> copy_len(dest_len, available) > 0,
{
}

} // verus!

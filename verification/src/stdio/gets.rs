//! Reading a line from a stream.

use crate::errno::ErrorNumber;
use crate::stdio::FILE;
use vstd::prelude::*;

verus! {

/// The line feed, which ends a line.
pub const LINE_FEED: u8 = 10;

/// Whether `i` is the index of the first line feed in `bytes`.
pub open spec fn is_first_line_feed(bytes: Seq<u8>, i: int) -> bool {
    &&& 0 <= i < bytes.len()
    &&& bytes[i] == LINE_FEED
    &&& forall|j: int| 0 <= j < i ==> bytes[j] != LINE_FEED
}

/// Length of the first line of `bytes`, its line feed included; the length of
/// `bytes` where no line feed ends it.
pub open spec fn line_end(bytes: Seq<u8>) -> int {
    if exists|i: int| is_first_line_feed(bytes, i) {
        (choose|i: int| is_first_line_feed(bytes, i)) + 1
    } else {
        bytes.len() as int
    }
}

/// Number of the pending bytes that one copy moves to a destination with
/// `room` free bytes, of which the last is kept for the terminator: the first
/// line, or as much of it as fits.
pub open spec fn gets_copy_len(pending: Seq<u8>, room: int) -> int {
    if line_end(pending) <= room - 1 {
        line_end(pending)
    } else {
        room - 1
    }
}

/// The index just past the first line feed is found from any index that
/// holds a line feed and is preceded by none.
pub proof fn lemma_line_end_at(bytes: Seq<u8>, i: int)
    requires
        is_first_line_feed(bytes, i),
    ensures
        line_end(bytes) == i + 1,
{
    let c = choose|k: int| is_first_line_feed(bytes, k);
    assert(c == i) by {
        if c < i {
            assert(bytes[c] != LINE_FEED);
        } else if c > i {
            assert(bytes[i] != LINE_FEED);
        }
    }
}

/// Where `bytes` holds no line feed, its first line is all of it.
pub proof fn lemma_line_end_without_feed(bytes: Seq<u8>)
    requires
        forall|j: int| 0 <= j < bytes.len() ==> bytes[j] != LINE_FEED,
    ensures
        line_end(bytes) == bytes.len(),
{
    assert forall|i: int| !is_first_line_feed(bytes, i) by {}
}

/// The first line of `bytes` is not longer than `bytes`, and it holds no
/// line feed before its last byte.
pub proof fn lemma_line_end_bounds(bytes: Seq<u8>)
    ensures
        0 <= line_end(bytes) <= bytes.len(),
        forall|j: int| 0 <= j < line_end(bytes) - 1 ==> bytes[j] != LINE_FEED,
        line_end(bytes) < bytes.len() ==> line_end(bytes) > 0 && bytes[line_end(bytes) - 1]
            == LINE_FEED,
{
    if exists|i: int| is_first_line_feed(bytes, i) {
        let c = choose|i: int| is_first_line_feed(bytes, i);
        assert(is_first_line_feed(bytes, c));
    } else {
        assert forall|j: int| 0 <= j < bytes.len() implies bytes[j] != LINE_FEED by {
            if bytes[j] == LINE_FEED {
                lemma_some_feed_is_first(bytes, j);
            }
        }
    }
}

/// A sequence that holds a line feed holds a first one.
proof fn lemma_some_feed_is_first(bytes: Seq<u8>, j: int)
    requires
        0 <= j < bytes.len(),
        bytes[j] == LINE_FEED,
    ensures
        exists|i: int| is_first_line_feed(bytes, i),
    decreases j,
{
    if exists|k: int| 0 <= k < j && bytes[k] == LINE_FEED {
        let k = choose|k: int| 0 <= k < j && bytes[k] == LINE_FEED;
        lemma_some_feed_is_first(bytes, k);
    } else {
        assert(is_first_line_feed(bytes, j));
    }
}

/// A line that is gathered in two copies is the line that one copy gathers
/// from the bytes of both.
///
/// When a copy has moved all of `first` without meeting a line feed and
/// without filling the destination, which is when more data is asked for,
/// and `second` is what comes next, then the two copies move between them
/// what one copy moves from `first` followed by `second`.
pub proof fn lemma_gets_copy_continues(first: Seq<u8>, second: Seq<u8>, room: int)
    requires
        first.len() > 0,
        first.len() < room - 1,
        gets_copy_len(first, room) == first.len(),
        first[first.len() - 1] != LINE_FEED,
    ensures
        gets_copy_len(first + second, room) == first.len() + gets_copy_len(
            second,
            room - first.len(),
        ),
        (first + second).take(gets_copy_len(first + second, room)) == first + second.take(
            gets_copy_len(second, room - first.len()),
        ),
{
    let both = first + second;
    lemma_line_end_bounds(first);
    lemma_line_end_bounds(second);
    assert(line_end(first) == first.len());
    assert forall|j: int| 0 <= j < first.len() implies first[j] != LINE_FEED by {}
    assert(line_end(both) == first.len() + line_end(second)) by {
        if exists|i: int| is_first_line_feed(second, i) {
            let c = choose|i: int| is_first_line_feed(second, i);
            assert(is_first_line_feed(second, c));
            assert(is_first_line_feed(both, first.len() + c)) by {
                assert(both[first.len() + c] == second[c]);
                assert forall|j: int| 0 <= j < first.len() + c implies both[j] != LINE_FEED by {
                    if j < first.len() {
                        assert(both[j] == first[j]);
                    } else {
                        assert(both[j] == second[j - first.len()]);
                    }
                }
            }
            lemma_line_end_at(both, first.len() + c);
            lemma_line_end_at(second, c);
        } else {
            assert(line_end(second) == second.len());
            lemma_line_end_bounds(second);
            assert forall|j: int| 0 <= j < both.len() implies both[j] != LINE_FEED by {
                if j < first.len() {
                    assert(both[j] == first[j]);
                } else {
                    assert(both[j] == second[j - first.len()]);
                    if second[j - first.len()] == LINE_FEED {
                        lemma_some_feed_is_first(second, j - first.len());
                    }
                }
            }
            lemma_line_end_without_feed(both);
        }
    }
    let n = gets_copy_len(second, room - first.len());
    assert(both.take(first.len() + n) =~= first + second.take(n));
}

/// Where a line-read stands when it waits for more data: the number of bytes
/// that it has stored in the destination so far.
#[derive(Debug)]
pub struct GetsProgress {
    copied: usize,
}

impl GetsProgress {
    /// Number of bytes stored in the destination so far.
    pub closed spec fn stored(self) -> int {
        self.copied as int
    }
}

/// The next thing to do in a line-read.
#[derive(Debug)]
pub enum GetsStep {
    /// Read at most `capacity` bytes from descriptor `fd` into the stream's
    /// read space, and resume with the result of the read.
    Read { fd: i32, capacity: usize, progress: GetsProgress },
    /// Done: the destination holds a line of that many bytes and, behind it,
    /// the terminator.
    Line(usize),
    /// Done with nothing to hand out, and the error to record, if any.
    Null(Option<ErrorNumber>),
}

impl GetsStep {
    /// Whether the step asks for a read of at most `capacity` bytes from
    /// descriptor `fd`, with `copied` bytes stored so far.
    pub open spec fn asks_for(self, fd: int, capacity: int, copied: int) -> bool {
        self matches GetsStep::Read { fd: f, capacity: c, progress } && f == fd && c == capacity
            && progress.stored() == copied
    }
}

/// What one copy from the read buffer, which holds `pending`, to the
/// destination does, from the state in which `copied` bytes are stored.
///
/// With room for the terminator only, the line is complete. With an empty
/// buffer, more data is asked for. Else the first pending line, or as much of
/// it as fits, moves to the destination; the line is complete if its line
/// feed was moved or the destination is full, and else more data is asked
/// for.
pub open spec fn gets_copies(
    before: FILE,
    pending: Seq<u8>,
    dest_before: Seq<u8>,
    copied: int,
    after: FILE,
    dest_after: Seq<u8>,
    step: GetsStep,
) -> bool {
    let room = dest_before.len() - copied;
    let n = gets_copy_len(pending, room);
    &&& after.wf()
    &&& after.same_but_reading(before)
    &&& after.at_eof() == before.at_eof()
    &&& after.in_error() == before.in_error()
    &&& after.read_buffer()->Some_0.storage() == before.read_buffer()->Some_0.storage()
    &&& if room == 1 {
        &&& after.read_buffer() == before.read_buffer()
        &&& dest_after == dest_before.update(copied, 0u8)
        &&& step == GetsStep::Line(copied as usize)
    } else if pending.len() == 0 {
        &&& after.read_buffer() == before.read_buffer()
        &&& dest_after == dest_before
        &&& step.asks_for(before.descriptor(), before.read_buffer()->Some_0.room(), copied)
    } else {
        &&& after.read_buffer()->Some_0.pending() == pending.skip(n)
        &&& if pending[n - 1] == LINE_FEED || copied + n == dest_before.len() - 1 {
            &&& dest_after == dest_before.subrange(0, copied) + pending.take(n) + seq![0u8]
                + dest_before.skip(copied + n + 1)
            &&& step == GetsStep::Line((copied + n) as usize)
        } else {
            &&& dest_after == dest_before.subrange(0, copied) + pending.take(n)
                + dest_before.skip(copied + n)
            &&& after.read_buffer()->Some_0.get_at() == 0
            &&& after.read_buffer()->Some_0.put_at() == 0
            &&& step.asks_for(
                before.descriptor(),
                before.read_buffer()->Some_0.capacity(),
                copied + n,
            )
        }
    }
}

/// Moves the first pending line, or as much of it as fits, to the
/// destination behind the `copied` bytes that it holds.
fn gets_copy(dest: &mut [u8], stream: &mut FILE, copied: usize) -> (r: GetsStep)
    requires
        old(stream).wf(),
        old(stream).read_buffer() is Some,
        copied < old(dest)@.len(),
    ensures
        final(dest)@.len() == old(dest)@.len(),
        gets_copies(
            *old(stream),
            old(stream).read_buffer()->Some_0.pending(),
            old(dest)@,
            copied as int,
            *final(stream),
            final(dest)@,
            r,
        ),
{
    let room: usize = dest.len() - copied;
    if room == 1 {
        dest[copied] = 0;
        return GetsStep::Line(copied);
    }
    let ghost pending = stream.read_buffer()->Some_0.pending();
    let mut n: usize = 0;
    let mut ended: bool = false;
    let mut space: usize = 0;
    match &stream.read {
        Some(buffer) => {
            let bytes = buffer.get_slice();
            space = buffer.data.len() - buffer.put_pos;
            while n < bytes.len() && n < room - 1 && !ended
                invariant
                    bytes@ == pending,
                    n <= bytes@.len(),
                    n <= room - 1,
                    room == dest@.len() - copied,
                    copied + room <= usize::MAX,
                    dest@.len() == old(dest)@.len(),
                    forall|j: int| 0 <= j < n - (if ended { 1int } else { 0int }) ==> pending[j] != LINE_FEED,
                    ended ==> n > 0 && pending[n - 1] == LINE_FEED,
                    dest@ == old(dest)@.subrange(0, copied as int) + pending.take(n as int) + old(
                        dest,
                    )@.skip(copied + n),
                decreases bytes@.len() - n + (if ended { 0int } else { 1int }),
            {
                let byte: u8 = bytes[n];
                dest[copied + n] = byte;
                if byte == LINE_FEED {
                    ended = true;
                }
                n = n + 1;
                assert(dest@ =~= old(dest)@.subrange(0, copied as int) + pending.take(n as int)
                    + old(dest)@.skip(copied + n));
            }
        },
        None => {},
    }
    proof {
        if ended {
            lemma_line_end_at(pending, n - 1);
        } else {
            if exists|i: int| is_first_line_feed(pending, i) {
                let c = choose|i: int| is_first_line_feed(pending, i);
                assert(c >= n);
            }
        }
        assert(n == gets_copy_len(pending, room as int) || pending.len() == 0);
    }
    if n == 0 {
        assert(dest@ =~= old(dest)@);
        return GetsStep::Read {
            fd: stream.fd.as_raw(),
            capacity: space,
            progress: GetsProgress { copied },
        };
    }
    match &mut stream.read {
        Some(buffer) => {
            buffer.get(n);
        },
        None => {},
    }
    if ended || copied + n == dest.len() - 1 {
        dest[copied + n] = 0;
        assert(dest@ =~= old(dest)@.subrange(0, copied as int) + pending.take(n as int)
            + seq![0u8] + old(dest)@.skip(copied + n + 1));
        GetsStep::Line(copied + n)
    } else {
        let whole: usize = match &stream.read {
            Some(buffer) => buffer.data.len(),
            None => 0,
        };
        GetsStep::Read { fd: stream.fd.as_raw(), capacity: whole, progress: GetsProgress { copied: copied + n } }
    }
}

/// Begins a line-read: moves bytes from the stream to `dest` until a line
/// feed is moved, `dest` has room for the terminator only, or the descriptor
/// reports the end of its data; then puts the terminator behind them.
///
/// A destination without room for the terminator is an invalid argument, a
/// stream that was not opened for reading is a bad descriptor, and a stream
/// that has met the end of its data, or whose error flag is set, hands out
/// nothing and asks for no read; none of these changes anything. Else the
/// first copy is made, as [`gets_copies`] says.
pub fn fgets(dest: &mut [u8], stream: &mut FILE) -> (r: GetsStep)
    requires
        old(stream).wf(),
    ensures
        final(dest)@.len() == old(dest)@.len(),
        final(stream).wf(),
        final(stream).keeps_flags(*old(stream)),
        if old(dest)@.len() == 0 {
            *final(stream) == *old(stream) && final(dest)@ == old(dest)@ && r == GetsStep::Null(
                Some(ErrorNumber::Inval),
            )
        } else if old(stream).read_buffer() is None {
            *final(stream) == *old(stream) && final(dest)@ == old(dest)@ && r == GetsStep::Null(
                Some(ErrorNumber::Badf),
            )
        } else if old(stream).at_eof() || old(stream).in_error() {
            *final(stream) == *old(stream) && final(dest)@ == old(dest)@ && r == GetsStep::Null(
                None,
            )
        } else {
            gets_copies(
                *old(stream),
                old(stream).read_buffer()->Some_0.pending(),
                old(dest)@,
                0,
                *final(stream),
                final(dest)@,
                r,
            )
        },
{
    if dest.len() < 1 {
        return GetsStep::Null(Some(ErrorNumber::Inval));
    }
    if stream.read.is_none() {
        return GetsStep::Null(Some(ErrorNumber::Badf));
    }
    if stream.is_eof || stream.is_error {
        return GetsStep::Null(None);
    }
    gets_copy(dest, stream, 0)
}

/// Whether a line-read that waits with `progress` can be resumed on `dest`
/// and `stream` with the result `read_len`: the destination has room behind
/// what is stored, and the result is -1 for a failed read or a count that the
/// read space can hold.
pub open spec fn gets_resumable(
    dest: Seq<u8>,
    stream: FILE,
    progress: GetsProgress,
    read_len: isize,
) -> bool {
    &&& stream.wf()
    &&& stream.read_buffer() matches Some(b) && -1 <= read_len as int <= b.room()
    &&& progress.stored() + 1 < dest.len()
}

/// Resumes a line-read with the result of the read that it asked for: -1 for
/// a failed read, else the number of bytes that were read into the stream's
/// read space.
///
/// A failed read sets the stream's error flag and hands out nothing. A read
/// of no bytes sets the end-of-data flag and completes the line with what is
/// stored. Else the bytes read join the buffer and the next copy is made, as
/// [`gets_copies`] says.
pub fn fgets_resume(
    dest: &mut [u8],
    stream: &mut FILE,
    progress: GetsProgress,
    read_len: isize,
) -> (r: GetsStep)
    requires
        gets_resumable(old(dest)@, *old(stream), progress, read_len),
    ensures
        final(dest)@.len() == old(dest)@.len(),
        final(stream).wf(),
        final(stream).same_but_reading(*old(stream)),
        final(stream).keeps_flags(*old(stream)),
        read_len == -1 ==> {
            &&& r == GetsStep::Null(None)
            &&& final(dest)@ == old(dest)@
            &&& final(stream).in_error()
            &&& final(stream).at_eof() == old(stream).at_eof()
            &&& final(stream).read_buffer() == old(stream).read_buffer()
        },
        read_len == 0 ==> {
            &&& r == GetsStep::Line(progress.stored() as usize)
            &&& final(dest)@ == old(dest)@.update(progress.stored(), 0u8)
            &&& final(stream).at_eof()
            &&& final(stream).in_error() == old(stream).in_error()
            &&& final(stream).read_buffer() == old(stream).read_buffer()
        },
        read_len > 0 ==> gets_copies(
            *old(stream),
            old(stream).read_buffer()->Some_0.pending() + old(
                stream,
            ).read_buffer()->Some_0.storage().subrange(
                old(stream).read_buffer()->Some_0.put_at(),
                old(stream).read_buffer()->Some_0.put_at() + read_len,
            ),
            old(dest)@,
            progress.stored(),
            *final(stream),
            final(dest)@,
            r,
        ),
{
    if read_len == -1 {
        stream.is_error = true;
        return GetsStep::Null(None);
    }
    if read_len == 0 {
        stream.is_eof = true;
        dest[progress.copied] = 0;
        return GetsStep::Line(progress.copied);
    }
    match &mut stream.read {
        Some(buffer) => {
            buffer.put(read_len as usize);
        },
        None => {},
    }
    gets_copy(dest, stream, progress.copied)
}

} // verus!

//! Writing a string to a stream.

use crate::errno::ErrorNumber;
use crate::fd::{write_all_step, write_event_ok, WriteAll};
use crate::stdio::gets::LINE_FEED;
use crate::stdio::{BufferingKind, EOF, FILE};
use crate::string::{lemma_text_len_bounds, text_len, text_of};
use vstd::prelude::*;

verus! {

/// Whether `bytes` holds a line feed.
pub open spec fn has_line_feed(bytes: Seq<u8>) -> bool {
    exists|j: int| 0 <= j < bytes.len() && bytes[j] == LINE_FEED
}

/// Where a string-write stands when it waits for a write to the descriptor:
/// the number of bytes of the string that it has taken, whether a line feed
/// was among them, and whether the write belongs to the flush that ends the
/// operation.
#[derive(Debug)]
pub struct PutsProgress {
    offset: usize,
    fed: bool,
    finishing: bool,
}

impl PutsProgress {
    /// Number of bytes of the string that were taken so far.
    pub closed spec fn taken(self) -> int {
        self.offset as int
    }

    /// Whether a line feed was taken since the operation began.
    pub closed spec fn has_fed(self) -> bool {
        self.fed
    }

    /// Whether the flush in course is the one that ends the operation.
    pub closed spec fn last_flush(self) -> bool {
        self.finishing
    }
}

/// The next thing to do in a string-write.
#[derive(Debug)]
pub enum PutsStep {
    /// Write the stream's pending bytes to descriptor `fd`, and resume with
    /// the raw result of the write.
    Write { fd: i32, progress: PutsProgress },
    /// Done, with the value to return and the error to record, if any.
    Done { written: i32, errno: Option<ErrorNumber> },
}

impl PutsStep {
    /// Whether the step asks for a write to descriptor `fd`, with `taken`
    /// bytes of the string taken, `fed` saying whether a line feed was among
    /// them, and the flush being the last or not.
    pub open spec fn asks_for(self, fd: int, taken: int, fed: bool, last_flush: bool) -> bool {
        self matches PutsStep::Write { fd: f, progress } && f == fd && progress.taken() == taken
            && progress.has_fed() == fed && progress.last_flush() == last_flush
    }
}

/// What a string-write returns when it has taken `taken` bytes: that number,
/// or the largest number that fits with a range error.
pub open spec fn puts_result(taken: int) -> PutsStep {
    if taken <= i32::MAX {
        PutsStep::Done { written: taken as i32, errno: None }
    } else {
        PutsStep::Done { written: i32::MAX, errno: Some(ErrorNumber::Range) }
    }
}

/// What one copy from the string in `s` to the write buffer does, when
/// `taken` bytes of the string are taken, the buffer holds `pending` and has
/// `room` free bytes, and `fed` says whether a line feed was taken since the
/// operation began.
///
/// The bytes that follow in the string go behind the pending ones, as many
/// as there is room for, and the room shrinks by their number. If that fills
/// the buffer, a flush is asked for. Else the string is taken whole: a flush
/// is asked for under the policy without buffering, and under the policy by
/// lines if a line feed was taken since the operation began; it is the last
/// one. Without it, and where nothing is pending, the operation is done, and
/// the buffer has room left.
pub open spec fn puts_copies(
    before: FILE,
    pending: Seq<u8>,
    room: int,
    s: Seq<u8>,
    taken: int,
    fed: bool,
    after: FILE,
    step: PutsStep,
) -> bool {
    let text = text_of(s);
    let n = if text.len() - taken <= room {
        text.len() - taken
    } else {
        room
    };
    let feeds = fed || has_line_feed(text.subrange(taken, taken + n));
    &&& after.wf()
    &&& after.same_but_writing(before)
    &&& after.in_error() == before.in_error()
    &&& after.write_buffer()->Some_0.capacity() == before.write_buffer()->Some_0.capacity()
    &&& after.write_buffer()->Some_0.pending() == pending + text.subrange(taken, taken + n)
    &&& after.write_buffer()->Some_0.room() == room - n
    &&& if n == room {
        step.asks_for(before.descriptor(), taken + n, feeds, false)
    } else if (before.policy() == BufferingKind::Unbuffered || (before.policy()
        == BufferingKind::Line && feeds)) && pending.len() + n > 0 {
        step.asks_for(before.descriptor(), taken + n, feeds, true)
    } else {
        step == puts_result(taken + n)
    }
}

/// Takes bytes of the string into the write buffer until the buffer is full
/// or the string ends.
fn puts_copy(s: &[u8], stream: &mut FILE, taken: usize, fed: bool) -> (r: PutsStep)
    requires
        old(stream).wf(),
        old(stream).write_buffer() is Some,
        taken <= text_len(s@),
    ensures
        puts_copies(
            *old(stream),
            old(stream).write_buffer()->Some_0.pending(),
            old(stream).write_buffer()->Some_0.room(),
            s@,
            taken as int,
            fed,
            *final(stream),
            r,
        ),
{
    proof {
        lemma_text_len_bounds(s@);
    }
    let ghost text = text_of(s@);
    let ghost pending = stream.write_buffer()->Some_0.pending();
    let ghost room = stream.write_buffer()->Some_0.room();
    let fd: i32 = stream.fd.as_raw();
    let policy = stream.buffering;
    let mut offset: usize = taken;
    let mut feeds: bool = fed;
    let mut full: bool = false;
    let mut empty: bool = true;
    match &mut stream.write {
        Some(buffer) => {
            while buffer.put_pos < buffer.data.len() && offset < s.len() && s[offset] != 0
                invariant
                    buffer.wf(),
                    buffer.capacity() == old(stream).write_buffer()->Some_0.capacity(),
                    buffer.capacity() > 0,
                    taken <= offset <= text_len(s@),
                    text_len(s@) <= s@.len(),
                    forall|j: int| 0 <= j < text_len(s@) ==> s@[j] != 0,
                    text_len(s@) < s@.len() ==> s@[text_len(s@)] == 0,
                    text == text_of(s@),
                    buffer.room() == room - (offset - taken),
                    buffer.pending() == pending + text.subrange(taken as int, offset as int),
                    feeds == (fed || has_line_feed(text.subrange(taken as int, offset as int))),
                decreases s@.len() - offset,
            {
                let byte: u8 = s[offset];
                buffer.put_byte(byte);
                proof {
                    let a = text.subrange(taken as int, offset as int);
                    let b = text.subrange(taken as int, offset + 1);
                    assert(b =~= a.push(byte));
                    assert(pending + b =~= (pending + a).push(byte));
                    if byte == LINE_FEED {
                        assert(b[b.len() - 1] == LINE_FEED);
                    } else if has_line_feed(b) {
                        let j = choose|j: int| 0 <= j < b.len() && b[j] == LINE_FEED;
                        assert(a[j] == LINE_FEED);
                    }
                    if has_line_feed(a) {
                        let j = choose|j: int| 0 <= j < a.len() && a[j] == LINE_FEED;
                        assert(b[j] == LINE_FEED);
                    }
                }
                if byte == LINE_FEED {
                    feeds = true;
                }
                offset = offset + 1;
            }
            full = buffer.put_pos == buffer.data.len();
            empty = buffer.put_pos == buffer.get_pos;
            assert(pending + text.subrange(taken as int, taken as int) =~= pending);
        },
        None => {},
    }
    if full {
        return PutsStep::Write {
            fd,
            progress: PutsProgress { offset, fed: feeds, finishing: false },
        };
    }
    let flushes: bool = match policy {
        BufferingKind::Unbuffered => true,
        BufferingKind::Line => feeds,
        BufferingKind::Full => false,
    };
    if flushes && !empty {
        return PutsStep::Write {
            fd,
            progress: PutsProgress { offset, fed: feeds, finishing: true },
        };
    }
    puts_count(offset)
}

/// The value that a string-write returns when it has taken `taken` bytes.
fn puts_count(taken: usize) -> (r: PutsStep)
    ensures
        r == puts_result(taken as int),
{
    if taken <= 0x7fff_ffff {
        PutsStep::Done { written: taken as i32, errno: None }
    } else {
        PutsStep::Done { written: i32::MAX, errno: Some(ErrorNumber::Range) }
    }
}

/// What a string-write returns on a stream whose error flag is set: nothing
/// is taken, and no error is recorded anew.
pub open spec fn puts_refused() -> PutsStep {
    PutsStep::Done { written: EOF, errno: None }
}

/// Begins a string-write: takes the string in `s`, which ends before its
/// first zero byte, into the stream's write buffer, and asks for a flush
/// whenever the buffer is full and, as the policy says, at the end.
///
/// A stream that was not opened for writing is a bad descriptor, and a
/// stream whose error flag is set takes nothing; neither changes anything.
/// Else the first copy is made, as [`puts_copies`] says. When the operation
/// is done, the buffer is not full.
pub fn fputs(s: &[u8], stream: &mut FILE) -> (r: PutsStep)
    requires
        old(stream).wf(),
    ensures
        final(stream).wf(),
        final(stream).keeps_flags(*old(stream)),
        match old(stream).write_buffer() {
            None => *final(stream) == *old(stream) && r == (PutsStep::Done {
                written: EOF,
                errno: Some(ErrorNumber::Badf),
            }),
            Some(buffer) => if old(stream).in_error() {
                *final(stream) == *old(stream) && r == puts_refused()
            } else {
                &&& puts_copies(
                    *old(stream),
                    buffer.pending(),
                    buffer.room(),
                    s@,
                    0,
                    false,
                    *final(stream),
                    r,
                )
                &&& r is Done ==> final(stream).write_buffer()->Some_0.room() > 0
            },
        },
{
    if stream.write.is_none() {
        return PutsStep::Done { written: EOF, errno: Some(ErrorNumber::Badf) };
    }
    if stream.is_error {
        return PutsStep::Done { written: EOF, errno: None };
    }
    puts_copy(s, stream, 0, false)
}

/// Whether a string-write of `s` that waits with `progress` can be resumed
/// on `stream` with the raw result `written`: the progress lies inside the
/// string, and the result is a failure of the taxonomy or a count of at most
/// the pending bytes.
pub open spec fn puts_resumable(
    s: Seq<u8>,
    stream: FILE,
    progress: PutsProgress,
    written: isize,
) -> bool {
    &&& stream.wf()
    &&& stream.write_buffer() matches Some(b) && write_event_ok(
        b.pending().len() as int,
        0,
        Some(written),
    )
    &&& 0 <= progress.taken() <= text_len(s)
}

/// Resumes a string-write with the raw result of the write that it asked
/// for.
///
/// A failed write ends the operation with [`EOF`] and the error, sets the
/// stream's error flag, and what was pending is dropped. A write that
/// accepted part of the pending bytes is followed by a write of the rest,
/// and leaves the rest where it is. When all is written, the buffer is
/// empty; the operation is done if the flush was the last one, and else the
/// next copy is made into the empty buffer, as [`puts_copies`] says, with
/// what is known of line feeds taken so far. When the operation is done, the
/// buffer is not full.
pub fn fputs_resume(s: &[u8], stream: &mut FILE, progress: PutsProgress, written: isize) -> (r:
    PutsStep)
    requires
        puts_resumable(s@, *old(stream), progress, written),
    ensures
        final(stream).wf(),
        final(stream).same_but_writing(*old(stream)),
        final(stream).keeps_flags(*old(stream)),
        final(stream).write_buffer()->Some_0.capacity() == old(
            stream,
        ).write_buffer()->Some_0.capacity(),
        r is Done ==> final(stream).write_buffer()->Some_0.room() > 0,
        match write_all_step(
            old(stream).descriptor(),
            old(stream).write_buffer()->Some_0.pending().len() as int,
            0,
            Some(written),
        ) {
            WriteAll::Write { fd, from } => {
                &&& r.asks_for(
                    old(stream).descriptor(),
                    progress.taken(),
                    progress.has_fed(),
                    progress.last_flush(),
                )
                &&& final(stream).in_error() == old(stream).in_error()
                &&& final(stream).write_buffer()->Some_0.pending() == old(
                    stream,
                ).write_buffer()->Some_0.pending().skip(from as int)
                &&& final(stream).write_buffer()->Some_0.room() == old(
                    stream,
                ).write_buffer()->Some_0.room()
            },
            WriteAll::Done(Err(e)) => {
                &&& r == (PutsStep::Done { written: EOF, errno: Some(e) })
                &&& final(stream).in_error()
                &&& final(stream).write_buffer()->Some_0.pending().len() == 0
                &&& final(stream).write_buffer()->Some_0.room() == final(stream).write_buffer()->Some_0.capacity()
            },
            WriteAll::Done(Ok(_)) => if progress.last_flush() {
                &&& r == puts_result(progress.taken())
                &&& final(stream).in_error() == old(stream).in_error()
                &&& final(stream).write_buffer()->Some_0.pending().len() == 0
                &&& final(stream).write_buffer()->Some_0.room() == final(stream).write_buffer()->Some_0.capacity()
            } else {
                puts_copies(
                    *old(stream),
                    Seq::<u8>::empty(),
                    old(stream).write_buffer()->Some_0.capacity(),
                    s@,
                    progress.taken(),
                    progress.has_fed(),
                    *final(stream),
                    r,
                )
            },
        },
{
    let fd: i32 = stream.fd.as_raw();
    let step = match &mut stream.write {
        Some(buffer) => buffer.flush(&stream.fd, Some(written)),
        None => WriteAll::Done(Ok(())),
    };
    match step {
        WriteAll::Write { fd: _, from: _ } => PutsStep::Write { fd, progress },
        WriteAll::Done(Err(e)) => {
            stream.is_error = true;
            PutsStep::Done { written: EOF, errno: Some(e) }
        },
        WriteAll::Done(Ok(_)) => {
            if progress.finishing {
                puts_count(progress.offset)
            } else {
                puts_copy(s, stream, progress.offset, progress.fed)
            }
        },
    }
}

} // verus!

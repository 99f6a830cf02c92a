//! Closing a stream.

use crate::errno::{classifiable, error_of_code, ErrorNumber};
use crate::fd::{write_all, write_all_step, write_event_ok, FileDescriptor, WriteAll};
use crate::stdio::{Buffer, EOF, FILE};
use crate::syscall::SyscallResult;
use vstd::prelude::*;

verus! {

/// A stream that is being closed and still has bytes to write.
#[derive(Debug)]
pub struct PendingWrite {
    fd: FileDescriptor,
    write: Buffer,
    done: usize,
}

/// A stream that is being closed and has only its descriptor left.
#[derive(Debug)]
pub struct PendingClose {
    fd: FileDescriptor,
    error: Option<ErrorNumber>,
}

impl PendingWrite {
    /// Number of the descriptor.
    pub closed spec fn descriptor(self) -> int {
        self.fd.raw()
    }

    /// The bytes that were pending when the stream was closed.
    pub closed spec fn bytes(self) -> Seq<u8> {
        self.write.pending()
    }

    /// How many of them are written.
    pub closed spec fn written(self) -> int {
        self.done as int
    }

    /// The invariant: the count of written bytes lies inside the bytes.
    pub closed spec fn wf(self) -> bool {
        self.write.wf() && self.done <= self.write.pending().len()
    }

    /// The bytes that are still to write.
    pub fn remaining(&self) -> (r: &[u8])
        requires
            self.wf(),
        ensures
            r@ == self.bytes().skip(self.written()),
    {
        let all = self.write.get_slice();
        vstd::slice::slice_subrange(all, self.done, all.len())
    }
}

impl PendingClose {
    /// Number of the descriptor.
    pub closed spec fn descriptor(self) -> int {
        self.fd.raw()
    }

    /// The error that a write met, if one did.
    pub closed spec fn write_error(self) -> Option<ErrorNumber> {
        self.error
    }

    /// Whether a write met an error, so that the result of closing counts
    /// for nothing.
    pub fn has_write_error(&self) -> (r: bool)
        ensures
            r == self.write_error() is Some,
    {
        self.error.is_some()
    }
}

/// The next thing to do to close a stream.
#[derive(Debug)]
pub enum CloseStep {
    /// Write what [`PendingWrite::remaining`] gives to descriptor `fd`, and
    /// go on with the raw result.
    Write { fd: i32, writing: PendingWrite },
    /// Close descriptor `fd`, and finish with the raw result.
    Close { fd: i32, closing: PendingClose },
}

impl CloseStep {
    /// Whether the step asks for a write to descriptor `fd` of `bytes`, of
    /// which `written` are written.
    pub open spec fn asks_to_write(self, fd: int, bytes: Seq<u8>, written: int) -> bool {
        self matches CloseStep::Write { fd: f, writing } && f == fd && writing.wf()
            && writing.descriptor() == fd && writing.bytes() == bytes && writing.written()
            == written
    }

    /// Whether the step asks to close descriptor `fd`, after writes that met
    /// `error` or none.
    pub open spec fn asks_to_close(self, fd: int, error: Option<ErrorNumber>) -> bool {
        self matches CloseStep::Close { fd: f, closing } && f == fd && closing.descriptor() == fd
            && closing.write_error() == error
    }
}

/// Begins to close a stream, which is given up. The pending bytes of the
/// write buffer are written first; a stream without any goes on to close its
/// descriptor.
pub fn fclose(stream: FILE) -> (r: CloseStep)
    requires
        stream.wf(),
    ensures
        match stream.write_buffer() {
            Some(b) if b.pending().len() > 0 => r.asks_to_write(
                stream.descriptor(),
                b.pending(),
                0,
            ),
            _ => r.asks_to_close(stream.descriptor(), None),
        },
{
    let FILE { fd, read: _, write, buffering: _, is_eof: _, is_error: _ } = stream;
    let raw: i32 = fd.as_raw();
    match write {
        Some(buffer) => {
            if buffer.put_pos > buffer.get_pos {
                CloseStep::Write { fd: raw, writing: PendingWrite { fd, write: buffer, done: 0 } }
            } else {
                CloseStep::Close { fd: raw, closing: PendingClose { fd, error: None } }
            }
        },
        None => CloseStep::Close { fd: raw, closing: PendingClose { fd, error: None } },
    }
}

/// Goes on closing a stream with the raw result of the write that was asked
/// for. A write that accepted part of the bytes is followed by a write of the
/// rest. When all is written, or a write has failed, the descriptor is
/// closed; the error of a failed write is kept for the end.
pub fn fclose_written(writing: PendingWrite, written: isize) -> (r: CloseStep)
    requires
        writing.wf(),
        write_event_ok(writing.bytes().len() as int, writing.written(), Some(written)),
    ensures
        match write_all_step(
            writing.descriptor(),
            writing.bytes().len() as int,
            writing.written(),
            Some(written),
        ) {
            WriteAll::Write { fd, from } => r.asks_to_write(
                writing.descriptor(),
                writing.bytes(),
                from as int,
            ),
            WriteAll::Done(Err(e)) => r.asks_to_close(writing.descriptor(), Some(e)),
            WriteAll::Done(Ok(_)) => r.asks_to_close(writing.descriptor(), None),
        },
{
    let PendingWrite { fd, write, done } = writing;
    let raw: i32 = fd.as_raw();
    match write_all(&fd, write.get_slice(), done, Some(written)) {
        WriteAll::Write { fd: _, from } => CloseStep::Write {
            fd: raw,
            writing: PendingWrite { fd, write, done: from },
        },
        WriteAll::Done(Err(e)) => CloseStep::Close {
            fd: raw,
            closing: PendingClose { fd, error: Some(e) },
        },
        WriteAll::Done(Ok(_)) => CloseStep::Close {
            fd: raw,
            closing: PendingClose { fd, error: None },
        },
    }
}

/// Finishes closing a stream with the raw result of closing its descriptor,
/// and gives the value to return and the error to record. After a failed
/// write the result is [`EOF`] with that write's error, whatever closing
/// gave. Else a failed close gives [`EOF`] with its error, and a close that
/// went well gives 0.
pub fn fclose_closed(closing: PendingClose, closed: isize) -> (r: (i32, Option<ErrorNumber>))
    requires
        closing.write_error() is None ==> classifiable(closed),
    ensures
        match closing.write_error() {
            Some(e) => r == (EOF, Some(e)),
            None => if closed.failed() {
                r == (EOF, error_of_code(-closed))
            } else {
                r == (0i32, None::<ErrorNumber>)
            },
        },
{
    let PendingClose { fd, error } = closing;
    match error {
        Some(e) => (EOF, Some(e)),
        None => match fd.try_drop(closed) {
            Ok(_) => (0, None),
            Err(e) => (EOF, Some(e)),
        },
    }
}

} // verus!

//! Buffered streams over file descriptors.
//!
//! A stream holds a descriptor, a read buffer if it was opened for reading,
//! a write buffer if it was opened for writing, and a buffering policy fixed
//! when it was made. The operations on it are written as steps: each step
//! either finishes or names the one system call that it needs, and is
//! resumed with that call's raw result.

pub mod close;
pub mod gets;
pub mod open;
pub mod puts;
pub mod standard;

pub use crate::stdio::close::{fclose, fclose_closed, fclose_written, CloseStep};
pub use crate::stdio::gets::{fgets, fgets_resume, GetsStep};
pub use crate::stdio::open::{fopen, fopen_resume, OpenStep};
pub use crate::stdio::puts::{fputs, fputs_resume, PutsStep};

use crate::errno::ErrorNumber;
use crate::fd::{write_all, write_all_step, write_event_ok, FileDescriptor, WriteAll};
use crate::heap::array_layout;
use vstd::prelude::*;

verus! {

/// What a stream operation returns where it has nothing else to return.
pub const EOF: i32 = -1;

/// Capacity of each buffer of a stream: 64 KiB.
pub const DEFAULT_BUFLEN: usize = 65536;

/// Descriptor of standard input.
pub const STDIN_FILENO: i32 = 0;

/// Descriptor of standard output.
pub const STDOUT_FILENO: i32 = 1;

/// Descriptor of standard error.
pub const STDERR_FILENO: i32 = 2;

/// A ring of bytes that is filled at one cursor and emptied at another. The
/// read cursor never passes the write cursor, and both go back to the start
/// as soon as they meet.
#[derive(Debug)]
pub struct Buffer {
    data: Vec<u8>,
    get_pos: usize,
    put_pos: usize,
}

impl Buffer {
    /// The backing storage.
    pub closed spec fn storage(self) -> Seq<u8> {
        self.data@
    }

    /// The read cursor.
    pub closed spec fn get_at(self) -> int {
        self.get_pos as int
    }

    /// The write cursor.
    pub closed spec fn put_at(self) -> int {
        self.put_pos as int
    }

    /// The buffer's invariant.
    pub open spec fn wf(self) -> bool {
        &&& 0 <= self.get_at() <= self.put_at() <= self.storage().len()
        &&& self.get_at() == self.put_at() ==> self.put_at() == 0
    }

    /// Number of bytes that the storage holds.
    pub open spec fn capacity(self) -> int {
        self.storage().len() as int
    }

    /// The bytes that were put and not yet got, oldest first.
    pub open spec fn pending(self) -> Seq<u8> {
        self.storage().subrange(self.get_at(), self.put_at())
    }

    /// Number of bytes that can still be put.
    pub open spec fn room(self) -> int {
        self.capacity() - self.put_at()
    }

    /// An empty buffer over the given storage.
    pub fn from_storage(data: Vec<u8>) -> (b: Buffer)
        ensures
            b.wf(),
            b.storage() == data@,
            b.get_at() == 0,
            b.put_at() == 0,
    {
        Buffer { data, get_pos: 0, put_pos: 0 }
    }

    /// An empty buffer of capacity `len`. A capacity that does not fit a
    /// signed machine word gives no buffer, and the allocator is not asked;
    /// else the allocator is asked, and there is no buffer where it cannot
    /// give the storage.
    pub fn try_new(len: usize) -> (r: Result<Buffer, ()>)
        ensures
            len > isize::MAX ==> r is Err,
            r matches Ok(b) ==> b.wf() && b.capacity() == len && b.get_at() == 0 && b.put_at()
                == 0,
    {
        broadcast use vstd::layout::layout_of_primitives;

        if array_layout::<u8>(len).is_err() {
            return Err(());
        }
        let mut data: Vec<u8> = Vec::new();
        if data.try_reserve(len).is_err() {
            Buffer::in_storage(None, len)
        } else {
            Buffer::in_storage(Some(data), len)
        }
    }

    /// An empty buffer of capacity `len` in the storage that the allocator
    /// gave, if it gave any.
    pub fn in_storage(storage: Option<Vec<u8>>, len: usize) -> (r: Result<Buffer, ()>)
        requires
            storage matches Some(v) ==> v@.len() == 0,
        ensures
            match storage {
                Some(_) => r matches Ok(b) && b.wf() && b.capacity() == len && b.get_at() == 0
                    && b.put_at() == 0,
                None => r is Err,
            },
    {
        match storage {
            Some(mut data) => {
                data.resize(len, 0u8);
                Ok(Buffer::from_storage(data))
            },
            None => Err(()),
        }
    }

    /// The bytes that were put and not yet got.
    pub fn get_slice(&self) -> (r: &[u8])
        requires
            self.wf(),
        ensures
            r@ == self.pending(),
    {
        vstd::slice::slice_subrange(self.data.as_slice(), self.get_pos, self.put_pos)
    }

    /// The part of the storage that can still be put to. What the caller
    /// writes there becomes part of the buffer's contents once it is put.
    pub fn put_slice(&mut self) -> (r: &mut [u8])
        requires
            old(self).wf(),
        ensures
            r@ == old(self).storage().subrange(old(self).put_at(), old(self).capacity()),
            final(self).storage() == old(self).storage().subrange(0, old(self).put_at())
                + final(r)@,
            final(self).get_at() == old(self).get_at(),
            final(self).put_at() == old(self).put_at(),
    {
        let at: usize = self.put_pos;
        let (_, tail) = self.data.as_mut_slice().split_at_mut(at);
        tail
    }

    /// Takes the `n` oldest pending bytes out of the buffer. When none is
    /// left, both cursors go back to the start.
    pub fn get(&mut self, n: usize)
        requires
            old(self).wf(),
            n <= old(self).pending().len(),
        ensures
            final(self).wf(),
            final(self).storage() == old(self).storage(),
            final(self).pending() == old(self).pending().skip(n as int),
            n == old(self).pending().len() ==> final(self).get_at() == 0 && final(self).put_at()
                == 0,
            n < old(self).pending().len() ==> final(self).get_at() == old(self).get_at() + n
                && final(self).put_at() == old(self).put_at(),
    {
        self.get_pos = self.get_pos + n;
        if self.get_pos == self.put_pos {
            self.get_pos = 0;
            self.put_pos = 0;
        }
        assert(self.pending() =~= old(self).pending().skip(n as int));
    }

    /// Makes the `n` bytes behind the write cursor part of the contents.
    pub fn put(&mut self, n: usize)
        requires
            old(self).wf(),
            n <= old(self).room(),
        ensures
            final(self).wf(),
            final(self).storage() == old(self).storage(),
            final(self).get_at() == old(self).get_at(),
            final(self).put_at() == old(self).put_at() + n,
            final(self).pending() == old(self).pending() + old(self).storage().subrange(
                old(self).put_at(),
                old(self).put_at() + n,
            ),
    {
        assert(self.put_pos + n <= self.data.len());
        self.put_pos = self.put_pos + n;
        assert(self.pending() =~= old(self).pending() + old(self).storage().subrange(
            old(self).put_at(),
            old(self).put_at() + n,
        ));
    }

    /// Puts one byte.
    fn put_byte(&mut self, byte: u8)
        requires
            old(self).wf(),
            old(self).room() > 0,
        ensures
            final(self).wf(),
            final(self).capacity() == old(self).capacity(),
            final(self).get_at() == old(self).get_at(),
            final(self).put_at() == old(self).put_at() + 1,
            final(self).pending() == old(self).pending().push(byte),
    {
        let at: usize = self.put_pos;
        assert(at < self.data.len());
        self.data[at] = byte;
        self.put_pos = at + 1;
        assert(self.pending() =~= old(self).pending().push(byte));
    }

    /// One step of writing the pending bytes out through `fd`. `event` is
    /// `None` to begin, and the raw result of the last write after that.
    ///
    /// While the step answers [`WriteAll::Write`], the caller writes what
    /// [`Buffer::get_slice`] then gives and reports the result. What a write
    /// accepted leaves the buffer. When the step answers [`WriteAll::Done`]
    /// the buffer is empty, also after a failure: what could not be written
    /// is dropped.
    pub fn flush(&mut self, fd: &FileDescriptor, event: Option<isize>) -> (r: WriteAll)
        requires
            old(self).wf(),
            write_event_ok(old(self).pending().len() as int, 0, event),
        ensures
            final(self).wf(),
            final(self).storage() == old(self).storage(),
            r == write_all_step(fd.raw(), old(self).pending().len() as int, 0, event),
            match r {
                WriteAll::Write { fd: _, from } => final(self).pending() == old(
                    self,
                ).pending().skip(from as int) && final(self).pending().len() > 0
                    && final(self).put_at() == old(self).put_at(),
                WriteAll::Done(_) => final(self).get_at() == 0 && final(self).put_at() == 0,
            },
    {
        let step = write_all(fd, self.get_slice(), 0, event);
        match step {
            WriteAll::Write { fd: _, from } => {
                self.get(from);
            },
            WriteAll::Done(_) => {
                let rest: usize = self.put_pos - self.get_pos;
                self.get(rest);
            },
        }
        step
    }
}

/// When a stream's write buffer is written out.
#[derive(Clone, Copy, Debug, PartialEq, Eq, Structural)]
pub enum BufferingKind {
    /// After every write to the stream.
    Unbuffered,
    /// After a write to the stream that held a line feed.
    Line,
    /// When the buffer is full.
    Full,
}

/// A buffered stream over a file descriptor.
#[derive(Debug)]
pub struct FILE {
    fd: FileDescriptor,
    read: Option<Buffer>,
    write: Option<Buffer>,
    buffering: BufferingKind,
    is_eof: bool,
    is_error: bool,
}

impl FILE {
    /// Number of the stream's descriptor.
    pub closed spec fn descriptor(self) -> int {
        self.fd.raw()
    }

    /// The read buffer; `None` for a stream that was not opened for reading.
    pub closed spec fn read_buffer(self) -> Option<Buffer> {
        self.read
    }

    /// The write buffer; `None` for a stream that was not opened for writing.
    pub closed spec fn write_buffer(self) -> Option<Buffer> {
        self.write
    }

    /// The buffering policy, fixed when the stream was made.
    pub closed spec fn policy(self) -> BufferingKind {
        self.buffering
    }

    /// Whether the descriptor has reported the end of its data.
    pub closed spec fn at_eof(self) -> bool {
        self.is_eof
    }

    /// Whether a read or a write on the descriptor has failed. The flag is
    /// never cleared: from then on the stream hands out nothing and takes
    /// nothing, until it is closed and opened anew.
    pub closed spec fn in_error(self) -> bool {
        self.is_error
    }

    /// The stream's invariant: its buffers keep theirs, and a write buffer
    /// has room for at least one byte when it is empty.
    pub open spec fn wf(self) -> bool {
        &&& self.read_buffer() matches Some(b) ==> b.wf()
        &&& self.write_buffer() matches Some(b) ==> b.wf() && b.capacity() > 0
    }

    /// Whether the flags that `before` has raised are raised in `self` too:
    /// neither the end-of-data flag nor the error flag is ever taken back.
    pub open spec fn keeps_flags(self, before: FILE) -> bool {
        &&& before.at_eof() ==> self.at_eof()
        &&& before.in_error() ==> self.in_error()
    }

    /// Whether `self` differs from `other` at most in its read buffer and
    /// its two flags.
    pub open spec fn same_but_reading(self, other: FILE) -> bool {
        &&& self.descriptor() == other.descriptor()
        &&& self.write_buffer() == other.write_buffer()
        &&& self.policy() == other.policy()
        &&& self.read_buffer() is Some <==> other.read_buffer() is Some
    }

    /// Whether `self` differs from `other` at most in its write buffer and
    /// its error flag.
    pub open spec fn same_but_writing(self, other: FILE) -> bool {
        &&& self.descriptor() == other.descriptor()
        &&& self.read_buffer() == other.read_buffer()
        &&& self.policy() == other.policy()
        &&& self.at_eof() == other.at_eof()
        &&& self.write_buffer() is Some <==> other.write_buffer() is Some
    }

    /// Whether the stream is a fresh one over descriptor `fd` under the
    /// policy `buffering`: neither flag is set, and it has an empty read
    /// buffer of [`DEFAULT_BUFLEN`] bytes exactly if `is_readable`, and such
    /// a write buffer exactly if `is_writable`.
    pub open spec fn is_fresh(
        self,
        fd: int,
        is_readable: bool,
        is_writable: bool,
        buffering: BufferingKind,
    ) -> bool {
        &&& self.wf()
        &&& self.descriptor() == fd
        &&& self.policy() == buffering
        &&& !self.at_eof()
        &&& !self.in_error()
        &&& self.read_buffer() is Some <==> is_readable
        &&& self.write_buffer() is Some <==> is_writable
        &&& self.read_buffer() matches Some(b) ==> b.capacity() == DEFAULT_BUFLEN
            && b.pending().len() == 0
        &&& self.write_buffer() matches Some(b) ==> b.capacity() == DEFAULT_BUFLEN
            && b.pending().len() == 0
    }

    /// A stream over `fd` with a read buffer if `is_readable`, a write
    /// buffer if `is_writable`, both empty and of [`DEFAULT_BUFLEN`] bytes,
    /// and neither flag set. Where the allocator cannot give a buffer, the
    /// descriptor comes back with the error, for the caller to close. A
    /// stream without buffers is always made.
    pub fn from_parts(
        fd: FileDescriptor,
        is_readable: bool,
        is_writable: bool,
        buffering: BufferingKind,
    ) -> (r: Result<FILE, (ErrorNumber, FileDescriptor)>)
        ensures
            match r {
                Ok(f) => f.is_fresh(fd.raw(), is_readable, is_writable, buffering),
                Err((e, back)) => e == ErrorNumber::Nomem && back == fd && (is_readable
                    || is_writable),
            },
    {
        let read = if is_readable {
            Some(Buffer::try_new(DEFAULT_BUFLEN))
        } else {
            None
        };
        if matches!(read, Some(Err(_))) {
            return FILE::with_buffers(fd, read, None, buffering);
        }
        let write = if is_writable {
            Some(Buffer::try_new(DEFAULT_BUFLEN))
        } else {
            None
        };
        FILE::with_buffers(fd, read, write, buffering)
    }

    /// Whether `buffer` is what the allocator gave for a buffer of a fresh
    /// stream, where one was asked for.
    pub open spec fn is_fresh_buffer(buffer: Option<Result<Buffer, ()>>) -> bool {
        buffer matches Some(Ok(b)) ==> b.wf() && b.capacity() == DEFAULT_BUFLEN && b.get_at() == 0
            && b.put_at() == 0
    }

    /// A stream over `fd` with the buffers that the allocator gave. `None`
    /// stands for a buffer that was not asked for, and `Some(Err(..))` for
    /// one that the allocator could not give: with one of these the
    /// descriptor comes back with the error, and else the stream is made.
    pub fn with_buffers(
        fd: FileDescriptor,
        read: Option<Result<Buffer, ()>>,
        write: Option<Result<Buffer, ()>>,
        buffering: BufferingKind,
    ) -> (r: Result<FILE, (ErrorNumber, FileDescriptor)>)
        requires
            FILE::is_fresh_buffer(read),
            FILE::is_fresh_buffer(write),
        ensures
            match r {
                Ok(f) => !(read is Some && read->Some_0 is Err) && !(write is Some
                    && write->Some_0 is Err) && f.is_fresh(
                    fd.raw(),
                    read is Some,
                    write is Some,
                    buffering,
                ),
                Err((e, back)) => e == ErrorNumber::Nomem && back == fd && ((read is Some
                    && read->Some_0 is Err) || (write is Some && write->Some_0 is Err)),
            },
    {
        let read = match read {
            Some(Ok(b)) => Some(b),
            Some(Err(_)) => {
                return Err((ErrorNumber::Nomem, fd));
            },
            None => None,
        };
        let write = match write {
            Some(Ok(b)) => Some(b),
            Some(Err(_)) => {
                return Err((ErrorNumber::Nomem, fd));
            },
            None => None,
        };
        Ok(FILE { fd, read, write, buffering, is_eof: false, is_error: false })
    }

    /// The stream's descriptor.
    pub fn fd(&self) -> (r: &FileDescriptor)
        ensures
            r.raw() == self.descriptor(),
    {
        &self.fd
    }

    /// Whether the descriptor has reported the end of its data.
    pub fn is_eof(&self) -> (r: bool)
        ensures
            r == self.at_eof(),
    {
        self.is_eof
    }

    /// Whether a read or a write on the descriptor has failed.
    pub fn is_error(&self) -> (r: bool)
        ensures
            r == self.in_error(),
    {
        self.is_error
    }

    /// The part of the read buffer that a read from the descriptor fills.
    pub fn read_space(&mut self) -> (r: &mut [u8])
        requires
            old(self).wf(),
            old(self).read_buffer() is Some,
        ensures
            final(self).same_but_reading(*old(self)),
            final(self).at_eof() == old(self).at_eof(),
            final(self).in_error() == old(self).in_error(),
            old(self).read_buffer() matches Some(before) && final(self).read_buffer() matches Some(
                after,
            ) && r@ == before.storage().subrange(before.put_at(), before.capacity())
                && after.storage() == before.storage().subrange(0, before.put_at()) + final(r)@
                && after.get_at() == before.get_at() && after.put_at() == before.put_at(),
    {
        match &mut self.read {
            Some(b) => b.put_slice(),
            None => vstd::pervasive::unreached(),
        }
    }

    /// The bytes of the write buffer that wait to be written to the
    /// descriptor. There are none for a stream that was not opened for
    /// writing.
    pub fn write_pending(&self) -> (r: &[u8])
        requires
            self.wf(),
        ensures
            match self.write_buffer() {
                Some(b) => r@ == b.pending(),
                None => r@.len() == 0,
            },
    {
        match &self.write {
            Some(b) => b.get_slice(),
            None => &[],
        }
    }
}

/// A handle that may be missing, as an argument of the stream operations: a
/// missing one is an invalid argument.
pub fn require_handle<T>(handle: Option<T>) -> (r: Result<T, ErrorNumber>)
    ensures
        match handle {
            Some(h) => r == Ok::<T, ErrorNumber>(h),
            None => r == Err::<T, ErrorNumber>(ErrorNumber::Inval),
        },
{
    match handle {
        Some(h) => Ok(h),
        None => Err(ErrorNumber::Inval),
    }
}

} // verus!

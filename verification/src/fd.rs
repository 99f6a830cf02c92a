//! Open file handles, and the protocol for writing a whole byte string
//! through one.
//!
//! The library performs no system call. Where an operation needs one, it
//! names the call as an action and takes the call's raw result as an event.

use crate::errno::{classifiable, error_of_code, ErrorNumber};
use crate::syscall::SyscallResult;
use crate::text::{push_signed_decimal, signed_decimal};
use vstd::prelude::*;
use vstd::string::StringExecFns;
use vstd::std_specs::convert::{FromSpecImpl, TryFromSpecImpl};

verus! {

/// An open file handle that the runtime owns. Its value fits the signed
/// handle type of the operating system. The handle is neither copied nor
/// cloned: whoever closes it gives it up.
#[derive(Debug, Hash)]
pub struct FileDescriptor {
    fd: u32,
}

/// A number that no file handle can have.
#[derive(Copy, Clone, Debug, PartialEq, Eq, Structural, Hash)]
pub struct InvalidFileDescriptor(pub isize);

impl InvalidFileDescriptor {
    /// The sentence that reports the number.
    pub open spec fn text(self) -> Seq<char> {
        "invalid file descriptor: "@ + signed_decimal(self.0 as int)
            + " is not representable by int"@
    }

    /// The sentence that reports the number.
    pub fn to_string(&self) -> (r: String)
        ensures
            r@ == self.text(),
    {
        let mut out = String::from_str("invalid file descriptor: ");
        push_signed_decimal(&mut out, self.0 as i64);
        out.append(" is not representable by int");
        out
    }
}

/// Whether `value` can be a file handle: it is not negative and fits a
/// signed 32-bit integer.
pub open spec fn is_handle(value: int) -> bool {
    0 <= value <= i32::MAX
}

impl FileDescriptor {
    #[verifier::type_invariant]
    closed spec fn fits(self) -> bool {
        self.fd <= i32::MAX
    }

    /// The handle's number.
    pub closed spec fn raw(self) -> int {
        self.fd as int
    }

    /// The handle's number, as the operating system takes it.
    pub fn as_raw(&self) -> (r: i32)
        ensures
            r == self.raw(),
            is_handle(r as int),
    {
        proof {
            use_type_invariant(self);
        }
        self.fd as i32
    }

    /// Classifies the result of closing the handle. The handle is given up
    /// whatever the result: it cannot be closed twice.
    pub fn try_drop(self, closed: isize) -> (r: Result<(), ErrorNumber>)
        requires
            classifiable(closed),
        ensures
            closed.failed() ==> r == Err::<(), ErrorNumber>(error_of_code(-closed)->Some_0),
            !closed.failed() ==> r == Ok::<(), ErrorNumber>(()),
    {
        match ErrorNumber::from_failure(closed) {
            Some(e) => Err(e),
            None => Ok(()),
        }
    }
}

/// The next thing to do while a whole byte string is written through a
/// descriptor that may accept it in pieces.
#[derive(Debug, PartialEq, Eq)]
pub enum WriteAll {
    /// Write the bytes from index `from` on to descriptor `fd`, and report
    /// the raw result.
    Write { fd: i32, from: usize },
    /// Nothing is left to write, or a write failed.
    Done(Result<(), ErrorNumber>),
}

/// Whether `event` can follow when `done` of `len` bytes are written: it is
/// no result at all, a failure of the taxonomy, or a count that is not
/// negative and at most what was offered.
pub open spec fn write_event_ok(len: int, done: int, event: Option<isize>) -> bool {
    match event {
        Some(rc) => classifiable(rc) && (!rc.failed() ==> 0 <= rc as int <= len - done),
        None => true,
    }
}

/// The decision of [`write_all`]: a failed write ends the writing with its
/// error; otherwise the count that was accepted is added to what is done, and
/// the writing ends when all is done.
pub open spec fn write_all_step(fd: int, len: int, done: int, event: Option<isize>) -> WriteAll {
    let accepted: int = match event {
        Some(rc) => rc as int,
        None => 0,
    };
    if event is Some && event->Some_0.failed() {
        WriteAll::Done(Err(error_of_code(-accepted)->Some_0))
    } else if done + accepted == len {
        WriteAll::Done(Ok(()))
    } else {
        WriteAll::Write { fd: fd as i32, from: (done + accepted) as usize }
    }
}

/// One step of writing all of `data` through `fd`, of which `done` bytes are
/// written already. `event` is `None` to begin, and the raw result of the
/// last write after that. A write that accepts only part of what it was
/// offered is followed by a write of the rest; nothing is written twice and
/// nothing is skipped.
pub fn write_all(fd: &FileDescriptor, data: &[u8], done: usize, event: Option<isize>) -> (r:
    WriteAll)
    requires
        done <= data@.len(),
        write_event_ok(data@.len() as int, done as int, event),
    ensures
        r == write_all_step(fd.raw(), data@.len() as int, done as int, event),
{
    let accepted: usize = match event {
        Some(rc) => {
            if let Some(e) = ErrorNumber::from_failure(rc) {
                return WriteAll::Done(Err(e));
            }
            rc as usize
        },
        None => 0,
    };
    assert(done + accepted <= data.len());
    if done + accepted == data.len() {
        WriteAll::Done(Ok(()))
    } else {
        WriteAll::Write { fd: fd.as_raw(), from: done + accepted }
    }
}

/// Number of bytes that the first `i` writes of a run accepted between
/// them.
pub open spec fn accepted_before(results: Seq<isize>, i: int) -> int
    decreases i,
{
    if i <= 0 {
        0
    } else {
        accepted_before(results, i - 1) + results[i - 1] as int
    }
}

/// Whether `results` are the raw results of the writes that [`write_all`]
/// asks for, one after the other, to write `len` bytes from the start: each
/// is a result that can follow, and each but the last is followed by another
/// write.
pub open spec fn is_write_run(fd: int, len: int, results: Seq<isize>) -> bool {
    forall|i: int|
        0 <= i < results.len() ==> {
            &&& 0 <= #[trigger] accepted_before(results, i) <= len
            &&& write_event_ok(len, accepted_before(results, i), Some(results[i]))
            &&& i < results.len() - 1 ==> write_all_step(
                fd,
                len,
                accepted_before(results, i),
                Some(results[i]),
            ) is Write
        }
}

/// In a run of writes, each write is offered the bytes from where the
/// writes before it stopped, so that no byte is written twice and none is
/// skipped.
pub proof fn lemma_write_all_continues(fd: int, len: int, results: Seq<isize>, i: int)
    requires
        is_write_run(fd, len, results),
        0 <= i < results.len() - 1,
    ensures
        write_all_step(fd, len, accepted_before(results, i), Some(results[i])) == (WriteAll::Write {
            fd: fd as i32,
            from: accepted_before(results, i + 1) as usize,
        }),
{
    assert(0 <= accepted_before(results, i) <= len);
    assert(accepted_before(results, i + 1) == accepted_before(results, i) + results[i]);
}

/// A run of writes ends after its last write, and when it ends well, the
/// writes have accepted all the bytes between them.
pub proof fn lemma_write_all_completes(fd: int, len: int, results: Seq<isize>)
    requires
        results.len() > 0,
        is_write_run(fd, len, results),
        write_all_step(
            fd,
            len,
            accepted_before(results, results.len() - 1),
            Some(results.last()),
        ) == WriteAll::Done(Ok(())),
    ensures
        accepted_before(results, results.len() as int) == len,
{
    let n = results.len() as int;
    assert(0 <= accepted_before(results, n - 1) <= len);
    assert(accepted_before(results, n) == accepted_before(results, n - 1) + results[n - 1]);
}

impl TryFrom<isize> for FileDescriptor {
    type Error = InvalidFileDescriptor;

    fn try_from(value: isize) -> (r: Result<FileDescriptor, InvalidFileDescriptor>) {
        if 0 <= value && value <= 0x7fff_ffff {
            Ok(FileDescriptor { fd: value as u32 })
        } else {
            Err(InvalidFileDescriptor(value))
        }
    }
}

impl TryFromSpecImpl<isize> for FileDescriptor {
    open spec fn obeys_try_from_spec() -> bool {
        true
    }

    open spec fn try_from_spec(value: isize) -> Result<FileDescriptor, InvalidFileDescriptor> {
        if is_handle(value as int) {
            Ok(handle_of(value as int))
        } else {
            Err(InvalidFileDescriptor(value))
        }
    }
}

impl TryFrom<i32> for FileDescriptor {
    type Error = InvalidFileDescriptor;

    fn try_from(value: i32) -> (r: Result<FileDescriptor, InvalidFileDescriptor>) {
        if 0 <= value {
            Ok(FileDescriptor { fd: value as u32 })
        } else {
            Err(InvalidFileDescriptor(value as isize))
        }
    }
}

impl TryFromSpecImpl<i32> for FileDescriptor {
    open spec fn obeys_try_from_spec() -> bool {
        true
    }

    open spec fn try_from_spec(value: i32) -> Result<FileDescriptor, InvalidFileDescriptor> {
        if is_handle(value as int) {
            Ok(handle_of(value as int))
        } else {
            Err(InvalidFileDescriptor(value as isize))
        }
    }
}

impl From<FileDescriptor> for i32 {
    fn from(fd: FileDescriptor) -> (r: i32) {
        fd.as_raw()
    }
}

impl FromSpecImpl<FileDescriptor> for i32 {
    open spec fn obeys_from_spec() -> bool {
        true
    }

    open spec fn from_spec(fd: FileDescriptor) -> i32 {
        fd.raw() as i32
    }
}

/// The handle whose number is `value`.
pub closed spec fn handle_of(value: int) -> FileDescriptor {
    FileDescriptor { fd: value as u32 }
}

/// A handle made from a number has that number.
pub broadcast proof fn lemma_handle_of_raw(value: int)
    requires
        is_handle(value),
    ensures
        #[trigger] handle_of(value).raw() == value,
{
}

} // verus!

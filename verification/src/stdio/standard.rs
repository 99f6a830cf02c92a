//! The three standard streams, and the choice of the buffering policy of
//! standard output by what it is connected to.

use crate::errno::{classifiable, ErrorNumber};
use crate::fd::{lemma_handle_of_raw, FileDescriptor};
use crate::stdio::{BufferingKind, FILE, STDERR_FILENO, STDIN_FILENO, STDOUT_FILENO};
use crate::syscall::SyscallResult;
use crate::types::stat;
use vstd::prelude::*;

verus! {

/// Path of the null device.
pub const NULL_DEVICE: [u8; 9] = [47, 100, 101, 118, 47, 110, 117, 108, 108];

/// What is known of standard output after its status was asked for.
#[derive(Clone, Copy, Debug, PartialEq, Eq, Structural)]
pub enum ProbeStep {
    /// Standard output is a character device: read the link that names its
    /// target into a buffer as long as [`NULL_DEVICE`], and decide by it.
    ReadLink,
    /// The policy is settled.
    Decided(BufferingKind),
}

/// The policy of standard output as far as its status settles it: by lines
/// where the status cannot be had, full buffering for anything but a
/// character device, and for a character device the link decides.
pub open spec fn probe_decision(status: isize, record: stat) -> ProbeStep {
    if status.failed() {
        ProbeStep::Decided(BufferingKind::Line)
    } else if record.names_char_device() {
        ProbeStep::ReadLink
    } else {
        ProbeStep::Decided(BufferingKind::Full)
    }
}

/// The policy of standard output where it is a character device: full
/// buffering if the link names the null device, and by lines where it names
/// anything else or cannot be read.
pub open spec fn link_decision(read: isize, target: Seq<u8>) -> BufferingKind {
    if !read.failed() && target.take(read as int) =~= NULL_DEVICE@ {
        BufferingKind::Full
    } else {
        BufferingKind::Line
    }
}

/// Decides the policy of standard output from the raw result of asking for
/// its status and the record that the call filled in.
pub fn stdout_probe(status: isize, record: &stat) -> (r: ProbeStep)
    requires
        classifiable(status),
    ensures
        r == probe_decision(status, *record),
{
    if ErrorNumber::from_failure(status).is_some() {
        ProbeStep::Decided(BufferingKind::Line)
    } else if record.is_char_device() {
        ProbeStep::ReadLink
    } else {
        ProbeStep::Decided(BufferingKind::Full)
    }
}

/// Decides the policy of standard output from the raw result of reading the
/// link that names its target, and the buffer that the call filled.
pub fn stdout_probe_link(read: isize, target: &[u8]) -> (r: BufferingKind)
    requires
        classifiable(read),
        !read.failed() ==> 0 <= read as int <= target@.len(),
    ensures
        r == link_decision(read, target@),
{
    if ErrorNumber::from_failure(read).is_some() {
        return BufferingKind::Line;
    }
    let len: usize = read as usize;
    if len != 9 {
        assert(target@.take(read as int).len() != NULL_DEVICE@.len());
        return BufferingKind::Line;
    }
    let mut i: usize = 0;
    while i < 9
        invariant
            i <= 9,
            len == 9,
            read == 9,
            len <= target@.len(),
            forall|j: int| 0 <= j < i ==> target@[j] == NULL_DEVICE@[j],
        decreases 9 - i,
    {
        if target[i] != NULL_DEVICE[i] {
            proof {
                let taken = target@.take(read as int);
                assert(taken[i as int] != NULL_DEVICE@[i as int]);
                assert(taken != NULL_DEVICE@);
            }
            return BufferingKind::Line;
        }
        i = i + 1;
    }
    assert(target@.take(read as int) =~= NULL_DEVICE@);
    BufferingKind::Full
}

/// The stream over standard input: unbuffered, for reading.
pub fn standard_input() -> (r: Result<FILE, (ErrorNumber, FileDescriptor)>)
    ensures
        r matches Ok(f) ==> f.is_fresh(
            STDIN_FILENO as int,
            true,
            false,
            BufferingKind::Unbuffered,
        ),
        r matches Err((e, fd)) ==> e == ErrorNumber::Nomem && fd.raw() == STDIN_FILENO,
{
    broadcast use lemma_handle_of_raw;

    match FileDescriptor::try_from(STDIN_FILENO) {
        Ok(fd) => FILE::from_parts(fd, true, false, BufferingKind::Unbuffered),
        Err(_) => vstd::pervasive::unreached(),
    }
}

/// The stream over standard error: unbuffered, for writing.
pub fn standard_error() -> (r: Result<FILE, (ErrorNumber, FileDescriptor)>)
    ensures
        r matches Ok(f) ==> f.is_fresh(
            STDERR_FILENO as int,
            false,
            true,
            BufferingKind::Unbuffered,
        ),
        r matches Err((e, fd)) ==> e == ErrorNumber::Nomem && fd.raw() == STDERR_FILENO,
{
    broadcast use lemma_handle_of_raw;

    match FileDescriptor::try_from(STDERR_FILENO) {
        Ok(fd) => FILE::from_parts(fd, false, true, BufferingKind::Unbuffered),
        Err(_) => vstd::pervasive::unreached(),
    }
}

/// The stream over standard output, for writing, under the policy that the
/// probe of its target has settled.
pub fn standard_output(buffering: BufferingKind) -> (r: Result<
    FILE,
    (ErrorNumber, FileDescriptor),
>)
    ensures
        r matches Ok(f) ==> f.is_fresh(STDOUT_FILENO as int, false, true, buffering),
        r matches Err((e, fd)) ==> e == ErrorNumber::Nomem && fd.raw() == STDOUT_FILENO,
{
    broadcast use lemma_handle_of_raw;

    match FileDescriptor::try_from(STDOUT_FILENO) {
        Ok(fd) => FILE::from_parts(fd, false, true, buffering),
        Err(_) => vstd::pervasive::unreached(),
    }
}

} // verus!

//! Opening a stream: the open-mode strings, and the two steps around the
//! call that opens the file.

use crate::errno::{classifiable, error_of_code, ErrorNumber};
use crate::fd::{is_handle, lemma_handle_of_raw, FileDescriptor};
use crate::stdio::{BufferingKind, FILE};
use crate::string::{lemma_text_len_at, lemma_text_len_bounds, text_len, text_of};
use crate::syscall::SyscallResult;
use vstd::prelude::*;

verus! {

/// Open for reading only.
pub const O_RDONLY: i32 = 0o0;

/// Open for writing only.
pub const O_WRONLY: i32 = 0o1;

/// Open for reading and writing.
pub const O_RDWR: i32 = 0o2;

/// Create the file if it does not exist.
pub const O_CREAT: i32 = 0o100;

/// Cut the file to length zero.
pub const O_TRUNC: i32 = 0o1000;

/// Write at the end of the file.
pub const O_APPEND: i32 = 0o2000;

/// Close the descriptor when the process runs another program.
pub const O_CLOEXEC: i32 = 0o2000000;

/// Permissions of a file that opening creates: reading and writing for
/// owner, group and others.
pub const CREATE_MODE: u32 = 0o666;

/// The letter `a`.
pub const LETTER_A: u8 = 97;

/// The letter `b`.
pub const LETTER_B: u8 = 98;

/// The letter `r`.
pub const LETTER_R: u8 = 114;

/// The letter `w`.
pub const LETTER_W: u8 = 119;

/// The plus sign.
pub const PLUS: u8 = 43;

/// What an open-mode string asks for.
#[derive(Clone, Copy, Debug, PartialEq, Eq, Structural)]
pub struct OpenMode {
    pub flags: i32,
    pub is_readable: bool,
    pub is_writable: bool,
}

/// Whether what follows the first letter of a mode is accepted: nothing,
/// `b`, `+`, `+b` or `b+`.
pub open spec fn mode_suffix_ok(text: Seq<u8>) -> bool {
    ||| text.len() == 1
    ||| text.len() == 2 && (text[1] == LETTER_B || text[1] == PLUS)
    ||| text.len() == 3 && text[1] == PLUS && text[2] == LETTER_B
    ||| text.len() == 3 && text[1] == LETTER_B && text[2] == PLUS
}

/// Whether a mode asks for both directions: a plus sign stands in it.
pub open spec fn mode_updates(text: Seq<u8>) -> bool {
    (text.len() >= 2 && text[1] == PLUS) || (text.len() >= 3 && text[2] == PLUS)
}

/// What the mode `text` asks for; `None` for a text that is no mode.
///
/// A mode is `r`, `w` or `a`, followed by nothing, `b`, `+`, `+b` or `b+`.
/// `r` reads an existing file, `w` writes a file that is created or cut to
/// length zero, `a` writes at the end of a file that is created if need be;
/// with `+` the stream both reads and writes. `b` changes nothing.
pub open spec fn mode_of(text: Seq<u8>) -> Option<OpenMode> {
    if !mode_suffix_ok(text) {
        None
    } else {
        let access = if mode_updates(text) {
            O_RDWR
        } else if text[0] == LETTER_R {
            O_RDONLY
        } else {
            O_WRONLY
        };
        if text[0] == LETTER_R {
            Some(
                OpenMode {
                    flags: access | O_CLOEXEC,
                    is_readable: true,
                    is_writable: mode_updates(text),
                },
            )
        } else if text[0] == LETTER_W {
            Some(
                OpenMode {
                    flags: access | O_CREAT | O_TRUNC | O_CLOEXEC,
                    is_readable: mode_updates(text),
                    is_writable: true,
                },
            )
        } else if text[0] == LETTER_A {
            Some(
                OpenMode {
                    flags: access | O_CREAT | O_APPEND | O_CLOEXEC,
                    is_readable: mode_updates(text),
                    is_writable: true,
                },
            )
        } else {
            None
        }
    }
}

/// Reads an open-mode string, which ends before its first zero byte.
pub fn parse_mode(mode: &[u8]) -> (r: Option<OpenMode>)
    ensures
        r == mode_of(text_of(mode@)),
{
    proof {
        lemma_text_len_bounds(mode@);
    }
    let ghost text = text_of(mode@);
    if mode.len() == 0 || mode[0] == 0 {
        proof {
            lemma_text_len_at(mode@, 0);
        }
        return None;
    }
    let second: u8 = if mode.len() > 1 {
        mode[1]
    } else {
        0
    };
    let third: u8 = if mode.len() > 2 && second != 0 {
        mode[2]
    } else {
        0
    };
    let fourth: u8 = if mode.len() > 3 && third != 0 {
        mode[3]
    } else {
        0
    };
    proof {
        if second == 0 {
            lemma_text_len_at(mode@, 1);
        } else if third == 0 {
            lemma_text_len_at(mode@, 2);
        } else if fourth == 0 {
            lemma_text_len_at(mode@, 3);
        } else {
            assert(text_len(mode@) >= 4) by {
                if text_len(mode@) < 4 {
                    assert(mode@[text_len(mode@)] == 0);
                }
            }
        }
        assert(text.len() == text_len(mode@));
        assert(forall|j: int| 0 <= j < text.len() ==> text[j] == mode@[j]);
    }
    if fourth != 0 {
        return None;
    }
    let updates: bool = if second == 0 {
        false
    } else if third == 0 {
        if second == PLUS {
            true
        } else if second == LETTER_B {
            false
        } else {
            return None;
        }
    } else {
        if (second == PLUS && third == LETTER_B) || (second == LETTER_B && third == PLUS) {
            true
        } else {
            return None;
        }
    };
    let first: u8 = mode[0];
    let access: i32 = if updates {
        O_RDWR
    } else if first == LETTER_R {
        O_RDONLY
    } else {
        O_WRONLY
    };
    if first == LETTER_R {
        Some(OpenMode { flags: access | O_CLOEXEC, is_readable: true, is_writable: updates })
    } else if first == LETTER_W {
        Some(
            OpenMode {
                flags: access | O_CREAT | O_TRUNC | O_CLOEXEC,
                is_readable: updates,
                is_writable: true,
            },
        )
    } else if first == LETTER_A {
        Some(
            OpenMode {
                flags: access | O_CREAT | O_APPEND | O_CLOEXEC,
                is_readable: updates,
                is_writable: true,
            },
        )
    } else {
        None
    }
}

/// The first thing to do to open a stream.
#[derive(Debug, PartialEq, Eq)]
pub enum OpenStep {
    /// Open the file with these flags and, for a file that is created, these
    /// permissions; then finish with the raw result.
    Open { flags: i32, mode: u32, request: OpenMode },
    /// The mode is no mode: nothing is opened.
    Failed(ErrorNumber),
}

/// Begins to open a stream: reads the mode and names the call that opens the
/// file. A text that is no mode is an invalid argument, and then no call is
/// asked for, so that no descriptor is opened.
pub fn fopen(mode: &[u8]) -> (r: OpenStep)
    ensures
        match mode_of(text_of(mode@)) {
            Some(m) => r == (OpenStep::Open { flags: m.flags, mode: CREATE_MODE, request: m }),
            None => r == OpenStep::Failed(ErrorNumber::Inval),
        },
{
    match parse_mode(mode) {
        Some(m) => OpenStep::Open { flags: m.flags, mode: CREATE_MODE, request: m },
        None => OpenStep::Failed(ErrorNumber::Inval),
    }
}

/// Whether the raw result of opening a file can be taken: it is a failure
/// of the taxonomy or a number that a file handle can have.
pub open spec fn open_result_ok(opened: isize) -> bool {
    &&& classifiable(opened)
    &&& !opened.failed() ==> is_handle(opened as int)
}

/// Finishes opening a stream with the raw result of the call that opens the
/// file. A failed call is reported as its member of the taxonomy. Else the
/// stream is made over the new descriptor, fully buffered, with the buffers
/// that the mode asks for; where the allocator cannot give them, the
/// descriptor comes back with the error, for the caller to close.
pub fn fopen_resume(request: OpenMode, opened: isize) -> (r: Result<
    FILE,
    (ErrorNumber, Option<FileDescriptor>),
>)
    requires
        open_result_ok(opened),
    ensures
        match r {
            Ok(f) => !opened.failed() && f.is_fresh(
                opened as int,
                request.is_readable,
                request.is_writable,
                BufferingKind::Full,
            ),
            Err((e, None)) => opened.failed() && Some(e) == error_of_code(-opened),
            Err((e, Some(fd))) => !opened.failed() && e == ErrorNumber::Nomem && fd.raw()
                == opened,
        },
{
    broadcast use lemma_handle_of_raw;

    let fd: FileDescriptor = match ErrorNumber::from_syscall::<FileDescriptor>(opened) {
        Ok(fd) => fd,
        Err(e) => {
            return Err((e, None));
        },
    };
    match FILE::from_parts(fd, request.is_readable, request.is_writable, BufferingKind::Full) {
        Ok(f) => Ok(f),
        Err((e, fd)) => Err((e, Some(fd))),
    }
}

} // verus!

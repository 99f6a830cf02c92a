//! Classification of raw system-call results.
//!
//! The kernel hands back one signed machine word. The words from -4095 to -1
//! stand for a failure whose code is the word's negation; every other word is
//! a value.

use vstd::prelude::*;
use vstd::std_specs::convert::TryFromSpec;

verus! {

/// The smallest word that stands for a failure.
pub const ERROR_MIN: isize = -4095;

/// The largest word that stands for a failure.
pub const ERROR_MAX: isize = -1;

/// Whether `rax` lies in the range that the kernel reserves for failures.
pub open spec fn is_error_word(rax: int) -> bool {
    -4095 <= rax <= -1
}

/// What the calls of the C interface return for a failed system call.
pub const FAILED: isize = -1;

/// Turns a raw result into what the C interface returns: a failure becomes
/// -1, and its code goes to the thread's error slot; a value stays as it is
/// and leaves the slot alone.
pub fn wrap_syscall(errno: &mut i32, rax: isize) -> (r: isize)
    ensures
        is_error_word(rax as int) ==> r == FAILED && *final(errno) == -rax,
        !is_error_word(rax as int) ==> r == rax && *final(errno) == *old(errno),
{
    if rax >= ERROR_MIN && rax <= ERROR_MAX {
        *errno = (-rax) as i32;
        FAILED
    } else {
        rax
    }
}

/// A raw result that can be told apart into a value and a failure code.
pub trait SyscallResult: Sized {
    /// Whether the result stands for a failure.
    spec fn failed(self) -> bool;

    /// The failure code that the result carries, where it stands for one.
    spec fn failure_code(self) -> i32;

    fn is_error(self) -> (r: bool)
        ensures
            r == self.failed(),
    ;

    /// The value converted to `T`, or the failure code.
    ///
    /// A value that `T` cannot represent is left out: there is no result to
    /// give for it.
    fn into_value<T: TryFrom<Self>>(self) -> (r: Result<T, i32>)
        requires
            T::obeys_try_from_spec(),
            !self.failed() ==> T::try_from_spec(self) is Ok,
        ensures
            self.failed() ==> r == Err::<T, i32>(self.failure_code()),
            !self.failed() ==> r == Ok::<T, i32>(T::try_from_spec(self)->Ok_0),
    ;
}

impl SyscallResult for isize {
    open spec fn failed(self) -> bool {
        is_error_word(self as int)
    }

    open spec fn failure_code(self) -> i32 {
        (-self) as i32
    }

    fn is_error(self) -> (r: bool) {
        self >= ERROR_MIN && self <= ERROR_MAX
    }

    fn into_value<T: TryFrom<Self>>(self) -> (r: Result<T, i32>) {
        if !self.is_error() {
            match T::try_from(self) {
                Ok(v) => Ok(v),
                Err(_) => vstd::pervasive::unreached(),
            }
        } else {
            Err((-self) as i32)
        }
    }
}

} // verus!

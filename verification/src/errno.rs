//! The closed taxonomy of failure causes recognised by the runtime.

use crate::syscall::SyscallResult;
use vstd::prelude::*;
use vstd::std_specs::convert::TryFromSpec;
use vstd::string::StringExecFns;

verus! {

/// Bad file descriptor.
pub const EBADF: i32 = 9;

/// Cannot allocate memory.
pub const ENOMEM: i32 = 12;

/// Invalid argument.
pub const EINVAL: i32 = 22;

/// Numerical result out of range.
pub const ERANGE: i32 = 34;

/// Function not implemented.
pub const ENOSYS: i32 = 38;

/// A failure cause. The set is closed: a raw code outside it has no
/// representation here.
#[derive(Clone, Copy, Debug, PartialEq, Eq, Structural)]
pub enum ErrorNumber {
    Badf,
    Nomem,
    Inval,
    Range,
    Nosys,
}

/// The member of the taxonomy that carries `code`, if there is one.
pub open spec fn error_of_code(code: int) -> Option<ErrorNumber> {
    if code == 9 {
        Some(ErrorNumber::Badf)
    } else if code == 12 {
        Some(ErrorNumber::Nomem)
    } else if code == 22 {
        Some(ErrorNumber::Inval)
    } else if code == 34 {
        Some(ErrorNumber::Range)
    } else if code == 38 {
        Some(ErrorNumber::Nosys)
    } else {
        None
    }
}

/// Whether a raw system-call result can be classified: it is a value, or a
/// failure whose code belongs to the taxonomy.
pub open spec fn classifiable(result: isize) -> bool {
    result.failed() ==> error_of_code(-result) is Some
}

impl ErrorNumber {
    /// The numeric code of each member.
    pub open spec fn code(self) -> int {
        match self {
            ErrorNumber::Badf => 9,
            ErrorNumber::Nomem => 12,
            ErrorNumber::Inval => 22,
            ErrorNumber::Range => 34,
            ErrorNumber::Nosys => 38,
        }
    }

    /// The symbolic name of each member.
    pub open spec fn name(self) -> Seq<char> {
        match self {
            ErrorNumber::Badf => "EBADF"@,
            ErrorNumber::Nomem => "ENOMEM"@,
            ErrorNumber::Inval => "EINVAL"@,
            ErrorNumber::Range => "ERANGE"@,
            ErrorNumber::Nosys => "ENOSYS"@,
        }
    }

    /// The sentence that explains each member.
    pub open spec fn explanation(self) -> Seq<char> {
        match self {
            ErrorNumber::Badf => "Bad file descriptor"@,
            ErrorNumber::Nomem => "Cannot allocate memory"@,
            ErrorNumber::Inval => "Invalid argument"@,
            ErrorNumber::Range => "Numerical result out of range"@,
            ErrorNumber::Nosys => "Function not implemented"@,
        }
    }

    /// The explanation, a space, and the symbolic name in parentheses.
    pub open spec fn text(self) -> Seq<char> {
        self.explanation() + " ("@ + self.name() + ")"@
    }

    /// The member that carries `code`; `None` for a code outside the taxonomy.
    pub fn from_int(code: i32) -> (r: Option<ErrorNumber>)
        ensures
            r == error_of_code(code as int),
    {
        if code == EBADF {
            Some(ErrorNumber::Badf)
        } else if code == ENOMEM {
            Some(ErrorNumber::Nomem)
        } else if code == EINVAL {
            Some(ErrorNumber::Inval)
        } else if code == ERANGE {
            Some(ErrorNumber::Range)
        } else if code == ENOSYS {
            Some(ErrorNumber::Nosys)
        } else {
            None
        }
    }

    /// Whether [`ErrorNumber::from_syscall`] has an answer for `result`.
    pub fn can_classify(result: isize) -> (r: bool)
        ensures
            r == classifiable(result),
    {
        if result.is_error() {
            ErrorNumber::from_int((-result) as i32).is_some()
        } else {
            true
        }
    }

    /// The member of the taxonomy that a failed system call reports; `None`
    /// for a result that is a value.
    pub fn from_failure(result: isize) -> (r: Option<ErrorNumber>)
        requires
            classifiable(result),
        ensures
            result.failed() ==> r == error_of_code(-result) && r is Some,
            !result.failed() ==> r is None,
    {
        if result.is_error() {
            ErrorNumber::from_int((-result) as i32)
        } else {
            None
        }
    }

    /// Classifies a raw system-call result: the value converted to `T`, or
    /// the member of the taxonomy that the failure code names.
    ///
    /// A failure code outside the taxonomy, and a value that `T` cannot
    /// represent, are left out: the runtime has no result for them.
    pub fn from_syscall<T: TryFrom<isize>>(result: isize) -> (r: Result<T, ErrorNumber>)
        requires
            T::obeys_try_from_spec(),
            classifiable(result),
            !result.failed() ==> T::try_from_spec(result) is Ok,
        ensures
            result.failed() ==> r == Err::<T, ErrorNumber>(error_of_code(-result)->Some_0),
            !result.failed() ==> r == Ok::<T, ErrorNumber>(T::try_from_spec(result)->Ok_0),
    {
        match result.into_value::<T>() {
            Ok(v) => Ok(v),
            Err(e) => {
                match ErrorNumber::from_int(e) {
                    Some(n) => Err(n),
                    None => vstd::pervasive::unreached(),
                }
            },
        }
    }

    pub fn into_int(self) -> (r: i32)
        ensures
            r == self.code(),
            error_of_code(r as int) == Some(self),
    {
        match self {
            ErrorNumber::Badf => EBADF,
            ErrorNumber::Nomem => ENOMEM,
            ErrorNumber::Inval => EINVAL,
            ErrorNumber::Range => ERANGE,
            ErrorNumber::Nosys => ENOSYS,
        }
    }

    pub fn into_str(self) -> (r: &'static str)
        ensures
            r@ == self.name(),
    {
        match self {
            ErrorNumber::Badf => "EBADF",
            ErrorNumber::Nomem => "ENOMEM",
            ErrorNumber::Inval => "EINVAL",
            ErrorNumber::Range => "ERANGE",
            ErrorNumber::Nosys => "ENOSYS",
        }
    }

    pub fn description(self) -> (r: &'static str)
        ensures
            r@ == self.explanation(),
    {
        match self {
            ErrorNumber::Badf => "Bad file descriptor",
            ErrorNumber::Nomem => "Cannot allocate memory",
            ErrorNumber::Inval => "Invalid argument",
            ErrorNumber::Range => "Numerical result out of range",
            ErrorNumber::Nosys => "Function not implemented",
        }
    }

    /// The text under which the error is reported.
    pub fn to_string(self) -> (r: String)
        ensures
            r@ == self.text(),
    {
        let mut s = String::from_str(self.description());
        s.append(" (");
        s.append(self.into_str());
        s.append(")");
        s
    }
}

} // verus!

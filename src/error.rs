//! Driver errors and the status codes that carry them across the guest boundary.

use vstd::prelude::*;

verus! {

/// Error shared by every peripheral capability.
///
/// The guest status code of each variant is fixed (see [`Errno`]).
#[derive(Clone, Copy, PartialEq, Eq, Structural, Debug)]
pub enum Error {
    InvalidArg,
    Unexpected,
    Failed,
    NoDevice,
    Unsupported,
}

/// Status enumeration visible to the guest: success, or one driver error.
#[derive(Clone, Copy, PartialEq, Eq, Structural, Debug)]
pub enum Errno {
    Success,
    InvalidArg,
    Unexpected,
    Failed,
    NoDevice,
    Unsupported,
}

/// The status that stands for a driver error.
pub open spec fn errno_of(e: Error) -> Errno {
    match e {
        Error::InvalidArg => Errno::InvalidArg,
        Error::Unexpected => Errno::Unexpected,
        Error::Failed => Errno::Failed,
        Error::NoDevice => Errno::NoDevice,
        Error::Unsupported => Errno::Unsupported,
    }
}

/// The driver error that a status stands for; `None` for `Ok`.
pub open spec fn error_of(s: Errno) -> Option<Error> {
    match s {
        Errno::Success => None,
        Errno::InvalidArg => Some(Error::InvalidArg),
        Errno::Unexpected => Some(Error::Unexpected),
        Errno::Failed => Some(Error::Failed),
        Errno::NoDevice => Some(Error::NoDevice),
        Errno::Unsupported => Some(Error::Unsupported),
    }
}

/// The status of a driver outcome: `Ok` on success, else the error's status.
pub open spec fn status_of<T>(r: Result<T, Error>) -> Errno {
    match r {
        Ok(_) => Errno::Success,
        Err(e) => errno_of(e),
    }
}

/// Maps a driver error to its guest status.
pub fn errno_from_error(e: Error) -> (r: Errno)
    ensures
        r == errno_of(e),
{
    match e {
        Error::InvalidArg => Errno::InvalidArg,
        Error::Unexpected => Errno::Unexpected,
        Error::Failed => Errno::Failed,
        Error::NoDevice => Errno::NoDevice,
        Error::Unsupported => Errno::Unsupported,
    }
}

/// Maps a guest status back to the driver error it carries.
pub fn error_from_errno(s: Errno) -> (r: Option<Error>)
    ensures
        r == error_of(s),
{
    match s {
        Errno::Success => None,
        Errno::InvalidArg => Some(Error::InvalidArg),
        Errno::Unexpected => Some(Error::Unexpected),
        Errno::Failed => Some(Error::Failed),
        Errno::NoDevice => Some(Error::NoDevice),
        Errno::Unsupported => Some(Error::Unsupported),
    }
}

impl Errno {
    /// The status of a call that succeeded.
    pub fn success() -> (r: Errno)
        ensures
            r == Errno::Success,
    {
        Errno::Success
    }

    /// The wire value of a status: its ordinal, stable across the guest ABI.
    pub open spec fn code_of(self) -> u16 {
        match self {
            Errno::Success => 0,
            Errno::InvalidArg => 1,
            Errno::Unexpected => 2,
            Errno::Failed => 3,
            Errno::NoDevice => 4,
            Errno::Unsupported => 5,
        }
    }

    /// Encodes the status as its wire value.
    pub fn code(self) -> (r: u16)
        ensures
            r == self.code_of(),
    {
        match self {
            Errno::Success => 0,
            Errno::InvalidArg => 1,
            Errno::Unexpected => 2,
            Errno::Failed => 3,
            Errno::NoDevice => 4,
            Errno::Unsupported => 5,
        }
    }

    /// Decodes a wire value; `None` for a value that no status has.
    pub fn from_code(c: u16) -> (r: Option<Errno>)
        ensures
            r matches Some(s) ==> s.code_of() == c,
            r is None <==> c > 5,
    {
        match c {
            0 => Some(Errno::Success),
            1 => Some(Errno::InvalidArg),
            2 => Some(Errno::Unexpected),
            3 => Some(Errno::Failed),
            4 => Some(Errno::NoDevice),
            5 => Some(Errno::Unsupported),
            _ => None,
        }
    }

    /// Whether the status reports success.
    pub fn is_ok(self) -> (r: bool)
        ensures
            r == (self == Errno::Success),
    {
        match self {
            Errno::Success => true,
            _ => false,
        }
    }
}

/// Maps a driver outcome to the guest status that reports it.
pub fn status_from_result<T>(r: &Result<T, Error>) -> (s: Errno)
    ensures
        s == status_of(*r),
{
    match r {
        Ok(_) => Errno::Success,
        Err(e) => errno_from_error(*e),
    }
}

/// Each driver error survives the trip through its status and back, and no
/// two errors share a status or a wire value; success has a status of its own.
pub proof fn lemma_errno_bijection(e: Error, f: Error)
    ensures
        error_of(errno_of(e)) == Some(e),
        errno_of(e) != Errno::Success,
        errno_of(e) == errno_of(f) ==> e == f,
        errno_of(e).code_of() == errno_of(f).code_of() ==> e == f,
        errno_of(e).code_of() != Errno::Success.code_of(),
{
}

/// Every status survives the trip through its wire value and back.
pub proof fn lemma_code_round_trip(s: Errno, t: Errno)
    ensures
        s.code_of() <= 5,
        s.code_of() == t.code_of() ==> s == t,
        s != Errno::Success ==> error_of(s) is Some && errno_of(error_of(s).unwrap()) == s,
{
}

} // verus!

//! Kernel error codes.

use vstd::prelude::*;

verus! {

/// The largest errno value the kernel hands out (`MAX_ERRNO`).
pub const MAX_ERRNO: i32 = 4095;

/// Errno of "no such device or address".
pub const ENXIO: i32 = -6;

/// Errno of "out of memory".
pub const ENOMEM: i32 = -12;

/// Errno of "invalid argument".
pub const EINVAL: i32 = -22;

/// A kernel error, held as a negative errno in `-MAX_ERRNO..=-1`.
#[derive(Clone, Copy, Debug, PartialEq, Eq, Structural)]
pub struct Error(i32);

/// Whether `errno` is a value that an [`Error`] can hold.
pub open spec fn is_valid_errno(errno: int) -> bool {
    -MAX_ERRNO <= errno <= -1
}

/// The errno that `Error::from_errno(errno)` holds: `errno` itself when it is
/// valid, else `EINVAL`.
pub open spec fn errno_of(errno: i32) -> i32 {
    if is_valid_errno(errno as int) {
        errno
    } else {
        EINVAL
    }
}

/// Whether `r` is what `to_result(err)` gives for the C return code `err`.
pub open spec fn is_result_of(r: Result<(), Error>, err: i32) -> bool {
    if err < 0 {
        r is Err && r->Err_0.errno() == errno_of(err)
    } else {
        r is Ok
    }
}

impl Error {
    /// Every error holds a valid errno.
    #[verifier::type_invariant]
    spec fn inv(self) -> bool {
        is_valid_errno(self.0 as int)
    }

    /// The errno this error holds.
    pub closed spec fn errno(self) -> i32 {
        self.0
    }

    /// Two errors are the same value exactly when they hold the same errno.
    pub broadcast proof fn lemma_errno_determines(self, other: Error)
        ensures
            #[trigger] self.errno() == #[trigger] other.errno() ==> self == other,
    {
    }

    /// Creates an [`Error`] from a kernel error code.
    ///
    /// A code outside `-MAX_ERRNO..=-1` is not a valid error and becomes
    /// `EINVAL`.
    pub fn from_errno(errno: i32) -> (r: Error)
        ensures
            r.errno() == errno_of(errno),
    {
        if errno < -MAX_ERRNO || errno >= 0 {
            Error(EINVAL)
        } else {
            Error(errno)
        }
    }

    /// Returns the kernel error code.
    pub fn to_errno(self) -> (r: i32)
        ensures
            r == self.errno(),
            is_valid_errno(r as int),
    {
        proof {
            use_type_invariant(&self);
        }
        self.0
    }

    /// `EINVAL`.
    pub fn einval() -> (r: Error)
        ensures
            r.errno() == EINVAL,
    {
        Error(EINVAL)
    }

    /// `ENOMEM`.
    pub fn enomem() -> (r: Error)
        ensures
            r.errno() == ENOMEM,
    {
        Error(ENOMEM)
    }

    /// `ENXIO`.
    pub fn enxio() -> (r: Error)
        ensures
            r.errno() == ENXIO,
    {
        Error(ENXIO)
    }
}

/// Converts a C return code into a `Result`: negative codes are errors,
/// everything else is success.
pub fn to_result(err: i32) -> (r: Result<(), Error>)
    ensures
        is_result_of(r, err),
{
    if err < 0 {
        Err(Error::from_errno(err))
    } else {
        Ok(())
    }
}

/// An error built from a valid errno gives that errno back; any other code
/// becomes `EINVAL`.
pub proof fn lemma_from_errno_round_trip(errno: i32)
    ensures
        is_valid_errno(errno_of(errno) as int),
        is_valid_errno(errno as int) ==> errno_of(errno) == errno,
        !is_valid_errno(errno as int) ==> errno_of(errno) == EINVAL,
{
}

} // verus!

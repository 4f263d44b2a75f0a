use vstd::prelude::*;

verus! {

/// The error code that nix reports for a failed system call.
#[verifier::external_type_specification]
#[verifier::external_body]
pub struct ExErrno(nix::errno::Errno);

/// A failed device call, carrying the error code that the kernel reported.
#[derive(Debug, Clone, Copy, PartialEq, Eq)]
pub struct SpiError {
    pub errno: nix::errno::Errno,
}

/// Wraps the kernel's error code in the library's error type.
pub fn from_nix_error(err: nix::errno::Errno) -> (r: SpiError)
    ensures
        r.errno == err,
{
    SpiError { errno: err }
}

/// Keeps a successful value and wraps the error code of a failure.
pub fn from_nix_result<T>(res: nix::Result<T>) -> (r: Result<T, SpiError>)
    ensures
        match res {
            Ok(v) => r == Ok::<T, SpiError>(v),
            Err(e) => r == Err::<T, SpiError>(SpiError { errno: e }),
        },
{
    match res {
        Ok(v) => Ok(v),
        Err(e) => Err(from_nix_error(e)),
    }
}

} // verus!

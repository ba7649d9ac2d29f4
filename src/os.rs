//! The parts of std's `io::Error` that this library relies on.
use vstd::prelude::*;

verus! {

/// std's I/O error, carried through as an opaque value.
#[verifier::external_type_specification]
#[verifier::external_body]
pub struct ExIoError(std::io::Error);

/// The I/O error that `std::io::Error::from_raw_os_error` makes of an OS code.
pub uninterp spec fn os_error_of(code: i32) -> std::io::Error;

/// Relies on `std::io::Error::from_raw_os_error`: it builds the error that
/// stands for the given OS code.
pub assume_specification[ std::io::Error::from_raw_os_error ](code: i32) -> (r: std::io::Error)
    ensures
        r == os_error_of(code),
;

/// Relies on `std::io::Error::raw_os_error`: an error built from a raw OS code
/// hands that code back.
pub assume_specification[ std::io::Error::raw_os_error ](e: &std::io::Error) -> (r: Option<i32>)
    ensures
        forall|c: i32| *e == #[trigger] os_error_of(c) ==> r == Some(c),
;

/// Relies on `std::io::Error::last_os_error`: it reads the calling thread's
/// last OS error code and builds the error for it. Which code that is depends
/// on the host's state.
pub assume_specification[ std::io::Error::last_os_error ]() -> (r: std::io::Error)
    ensures
        exists|c: i32| r == #[trigger] os_error_of(c),
;

} // verus!

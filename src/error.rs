//! The error code value type.
use core::cmp::Ordering;
use vstd::prelude::*;
use vstd::std_specs::cmp::PartialOrdSpec;
use vstd::std_specs::convert::FromSpec;

use crate::os::os_error_of;

verus! {

/// A host error code.
#[derive(Clone, Copy, PartialEq, Eq, Structural, Ord, Hash)]
pub struct Error {
    code: u32,
}

impl View for Error {
    type V = u32;

    /// An error is modelled by its numeric code.
    closed spec fn view(&self) -> u32 {
        self.code
    }
}

/// The low 16 bits of a packed status value: its facility-specific code.
pub open spec fn status_code(status: i32) -> u32 {
    (status & 0xFFFF) as u32
}

/// Retrieves the calling thread's last error, as the host recorded it.
pub fn last_error() -> (r: Error) {
    let os = std::io::Error::last_os_error();
    let raw = os.raw_os_error();
    match raw {
        Some(c) => Error::with_code(c as u32),
        None => {
            proof {
                let c = choose|c: i32| os == os_error_of(c);
                assert(raw == Some(c));
            }
            Error::with_code(0)
        },
    }
}

/// Creates an error from the code held in the low 16 bits of a packed status
/// value (success flag in the high bit, facility in bits 16 to 26).
pub fn from_hresult(hr: i32) -> (r: Error)
    ensures
        r@ == status_code(hr),
        r@ < 0x10000,
{
    let code = (hr & 0xFFFF) as u32;
    assert(((hr & 0xFFFF) as u32) < 0x10000u32) by (bit_vector);
    Error::with_code(code)
}

/// A code read as a signed value, as OS error numbers are: the same 32 bits.
pub open spec fn signed_code(code: u32) -> i32 {
    #[verifier::truncate]
    (code as i32)
}

impl Error {
    /// Retrieves the calling thread's last error, as the host recorded it.
    pub fn last() -> (r: Self) {
        last_error()
    }

    /// Creates an error from the code held in the low 16 bits of a packed
    /// status value.
    pub fn from_hresult(hr: i32) -> (r: Self)
        ensures
            r@ == status_code(hr),
            r@ < 0x10000,
    {
        from_hresult(hr)
    }

    /// The code of an error, in specifications.
    pub closed spec fn spec_code(self) -> u32 {
        self.code
    }

    /// The error with a given code, in specifications.
    pub closed spec fn spec_with_code(code: u32) -> Self {
        Error { code }
    }

    /// Returns the error code.
    #[verifier::when_used_as_spec(spec_code)]
    pub fn code(self) -> (r: u32)
        ensures
            r == self@,
    {
        self.code
    }

    /// Creates an error with the specified code.
    #[verifier::when_used_as_spec(spec_with_code)]
    pub fn with_code(code: u32) -> (r: Self)
        ensures
            r == Error::with_code(code),
            r@ == code,
    {
        Self { code }
    }
}

/// The order of two codes as integers.
pub open spec fn code_order(a: u32, b: u32) -> Ordering {
    if a < b {
        Ordering::Less
    } else if a == b {
        Ordering::Equal
    } else {
        Ordering::Greater
    }
}

impl PartialOrd for Error {
    fn partial_cmp(&self, other: &Error) -> (r: Option<Ordering>) {
        if self.code < other.code {
            Some(Ordering::Less)
        } else if self.code == other.code {
            Some(Ordering::Equal)
        } else {
            Some(Ordering::Greater)
        }
    }
}

impl vstd::std_specs::cmp::PartialOrdSpecImpl for Error {
    open spec fn obeys_partial_cmp_spec() -> bool {
        true
    }

    open spec fn partial_cmp_spec(&self, other: &Error) -> Option<Ordering> {
        Some(code_order(self@, other@))
    }
}

impl From<Error> for std::io::Error {
    /// The OS error whose raw code is the error's code, read as a signed value.
    fn from(e: Error) -> (r: std::io::Error) {
        std::io::Error::from_raw_os_error(#[verifier::truncate] (e.code() as i32))
    }
}

impl vstd::std_specs::convert::FromSpecImpl<Error> for std::io::Error {
    open spec fn obeys_from_spec() -> bool {
        true
    }

    open spec fn from_spec(e: Error) -> std::io::Error {
        os_error_of(signed_code(e@))
    }
}

/// Converting an error to an OS error keeps its code: the OS error's raw code
/// is the error's code read as a signed value, which reads back as the same
/// unsigned code.
pub proof fn lemma_os_error_keeps_code(e: Error)
    ensures
        <std::io::Error as FromSpec<Error>>::from_spec(e) == os_error_of(signed_code(e@)),
        forall|r: Option<i32>|
            #[trigger] call_ensures(std::io::Error::raw_os_error, (&os_error_of(signed_code(e@)),), r) ==> r
                == Some(signed_code(e@)),
        (signed_code(e@) as u32) == e@,
{
    let c = e@;
    assert(((#[verifier::truncate] (c as i32)) as u32) == c) by (bit_vector);
}

/// Errors are equal exactly when their codes are, and are compared as their
/// codes are: the order is total, reflexive, antisymmetric and transitive.
pub proof fn lemma_order_follows_code(a: Error, b: Error, c: Error)
    ensures
        (a == b) <==> (a@ == b@),
        a.partial_cmp_spec(&b) == Some(code_order(a@, b@)),
        a.partial_cmp_spec(&a) == Some(Ordering::Equal),
        a.partial_cmp_spec(&b) == Some(Ordering::Less) <==> b.partial_cmp_spec(&a) == Some(
            Ordering::Greater,
        ),
        a.partial_cmp_spec(&b) == Some(Ordering::Equal) ==> a == b,
        a.partial_cmp_spec(&b) == Some(Ordering::Less) && b.partial_cmp_spec(&c) == Some(
            Ordering::Less,
        ) ==> a.partial_cmp_spec(&c) == Some(Ordering::Less),
{
}

/// Creating an error from a code and reading its code back gives that code.
pub proof fn lemma_code_round_trip(c: u32)
    ensures
        Error::with_code(c).code() == c,
        Error::with_code(c)@ == c,
{
}

} // verus!

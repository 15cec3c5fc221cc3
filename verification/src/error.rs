use vstd::prelude::*;

verus! {

/// The error type for anomaly detection.
#[derive(Debug)]
pub enum Error {
    /// A series error.
    Series(String),
}

/// The message reported when the series holds fewer than two full periods.
pub open spec fn short_series_msg() -> Seq<char> {
    "series must contain at least 2 periods"@
}

/// The message reported when the series holds a NaN value.
pub open spec fn nan_msg() -> Seq<char> {
    "series contains NANs"@
}

/// The message reported when the seasonal decomposition collaborator fails
/// or hands back a component of the wrong length. The standard collaborator
/// does neither once the series holds two full periods and the period is at
/// least two.
pub open spec fn decompose_msg() -> Seq<char> {
    "seasonal decomposition failed"@
}

pub open spec fn is_series_error(e: Error, msg: Seq<char>) -> bool {
    e matches Error::Series(m) && m@ == msg
}

impl Error {
    /// The error's message. The type cannot carry `Display` here; callers
    /// that need text take it from this accessor.
    pub fn message(&self) -> (m: &String)
        ensures
            m@ == self->Series_0@,
    {
        match self {
            Error::Series(m) => m,
        }
    }
}

impl PartialEq for Error {
    fn eq(&self, other: &Error) -> (r: bool) {
        match (self, other) {
            (Error::Series(a), Error::Series(b)) => *a == *b,
        }
    }
}

impl vstd::std_specs::cmp::PartialEqSpecImpl for Error {
    open spec fn obeys_eq_spec() -> bool {
        true
    }

    open spec fn eq_spec(&self, other: &Error) -> bool {
        self->Series_0@ == other->Series_0@
    }
}

pub(crate) fn short_series_error() -> (e: Error)
    ensures
        is_series_error(e, short_series_msg()),
{
    Error::Series("series must contain at least 2 periods".to_owned())
}

pub(crate) fn nan_error() -> (e: Error)
    ensures
        is_series_error(e, nan_msg()),
{
    Error::Series("series contains NANs".to_owned())
}

pub(crate) fn decompose_error() -> (e: Error)
    ensures
        is_series_error(e, decompose_msg()),
{
    Error::Series("seasonal decomposition failed".to_owned())
}

} // verus!

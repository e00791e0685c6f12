//! The failure kind that validators and validated invocations share.

use vstd::prelude::*;

verus! {

/// A value was rejected, for the reason carried as static text. Nothing is
/// retried or recovered inside the library: an error travels to the caller as
/// it was made.
#[derive(Debug)]
pub enum Error {
    Invalid(&'static str),
}

impl View for Error {
    type V = Seq<char>;

    /// The reason as text.
    open spec fn view(&self) -> Seq<char> {
        match *self {
            Error::Invalid(reason) => reason@,
        }
    }
}

} // verus!

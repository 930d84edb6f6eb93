//! Decode failures.

use vstd::prelude::*;

verus! {

/// Why a decode failed.
#[derive(Debug, Clone)]
pub enum ErrorKind {
    /// Unknown method, missing field, wrong params arity or wrong value type.
    MalformedMessage,
    /// A color token that is neither a keyword nor an `rgb:` / `rgba:` form.
    InvalidColor(String),
    /// An attribute token that names no attribute.
    InvalidAttribute(String),
}

/// The model of an [`ErrorKind`].
pub enum Fault {
    MalformedMessage,
    InvalidColor(Seq<char>),
    InvalidAttribute(Seq<char>),
}

impl View for ErrorKind {
    type V = Fault;

    open spec fn view(&self) -> Fault {
        match self {
            ErrorKind::MalformedMessage => Fault::MalformedMessage,
            ErrorKind::InvalidColor(s) => Fault::InvalidColor(s@),
            ErrorKind::InvalidAttribute(s) => Fault::InvalidAttribute(s@),
        }
    }
}

/// The model of a decode result.
pub open spec fn result_view<T: View>(r: Result<T, ErrorKind>) -> Result<T::V, Fault> {
    match r {
        Ok(x) => Ok(x@),
        Err(e) => Err(e@),
    }
}

} // verus!

use vstd::prelude::*;

verus! {

/// The fatal conditions the library itself can detect. Network and
/// filesystem failures are reported by the surrounding program; these are
/// the errors of the decisions made here.
#[derive(Debug, Clone, Copy, PartialEq, Eq, Structural)]
pub enum Error {
    /// The command word is not one the tool recognises.
    UnknownCommand,
    /// The requested listing index lies outside the returned window.
    IndexOutOfRange,
    /// The download URL could not be parsed as an absolute URL.
    InvalidUrl,
}

impl Error {
    /// A short description of the error, for the surrounding program to print.
    pub fn message(&self) -> (r: String)
        ensures
            *self is UnknownCommand ==> r@ == "unknown command"@,
            *self is IndexOutOfRange ==> r@ == "wallpaper index out of range"@,
            *self is InvalidUrl ==> r@ == "invalid download url"@,
    {
        match self {
            Error::UnknownCommand => String::from_str("unknown command"),
            Error::IndexOutOfRange => String::from_str("wallpaper index out of range"),
            Error::InvalidUrl => String::from_str("invalid download url"),
        }
    }
}

} // verus!

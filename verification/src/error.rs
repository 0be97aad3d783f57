//! The error of a failed read.

use vstd::prelude::*;

verus! {

/// Why a read produced no number.
#[derive(Debug, Copy, Clone, PartialEq, Eq, Structural)]
pub enum Error {
    /// The buffer holds fewer bytes than the requested number is wide.
    ShortSlice,
}

impl Error {
    /// The text of the message that this error stands for.
    pub open spec fn message(self) -> Seq<char> {
        match self {
            Error::ShortSlice => "The slice length is too short."@,
        }
    }

    /// A short human-readable account of the error.
    pub fn description(&self) -> (text: &'static str)
        ensures
            text@ == self.message(),
    {
        match *self {
            Error::ShortSlice => "The slice length is too short.",
        }
    }
}

/// The outcome of a read: the number, or why there is none.
pub type Result<T> = core::result::Result<T, Error>;

} // verus!

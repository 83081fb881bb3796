//! The reasons for which a concentration vector is refused.

use vstd::prelude::*;

verus! {

/// Why a constructor of [`crate::Dirichlet`] refused its input.
#[derive(Clone, Copy, Debug, PartialEq, Eq, Structural)]
pub enum Error {
    /// Fewer than two concentration values were given.
    AlphaTooShort,
    /// A concentration value is zero, negative or not a number.
    AlphaTooSmall,
    /// Fewer than two dimensions were asked for.
    SizeTooSmall,
}

impl Error {
    /// The sentence that describes this error. Both ways of asking for fewer
    /// than two dimensions share one sentence.
    pub open spec fn text(self) -> Seq<char> {
        match self {
            Error::AlphaTooShort | Error::SizeTooSmall => {
                "less than 2 dimensions in Dirichlet distribution"@
            },
            Error::AlphaTooSmall => "alpha is not positive in Dirichlet distribution"@,
        }
    }

    /// Describes the error in words.
    pub fn message(&self) -> (r: String)
        ensures
            r@ == self.text(),
    {
        match self {
            Error::AlphaTooShort | Error::SizeTooSmall => {
                "less than 2 dimensions in Dirichlet distribution".to_owned()
            },
            Error::AlphaTooSmall => "alpha is not positive in Dirichlet distribution".to_owned(),
        }
    }
}

} // verus!

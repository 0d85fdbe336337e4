use vstd::prelude::*;

verus! {

/// What the factory refuses to do.
#[derive(Debug, Clone, Copy, PartialEq, Eq, Structural)]
pub enum Error {
    /// The attached value is under the threshold in force.
    NotEnoughDeposit,
}

impl Error {
    /// The stable code of the error, as users see it.
    pub open spec fn code(self) -> Seq<char> {
        match self {
            Error::NotEnoughDeposit => "ERR_WALLET_LOW_DEPOSIT"@,
        }
    }

    /// The error's code as text.
    pub fn to_string(&self) -> (r: String)
        ensures
            r@ == self.code(),
    {
        match self {
            Error::NotEnoughDeposit => "ERR_WALLET_LOW_DEPOSIT".to_owned(),
        }
    }
}

} // verus!

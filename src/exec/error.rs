use vstd::prelude::*;

verus! {

/// What the executor refuses to do.
#[derive(Debug, Clone, Copy, PartialEq, Eq, Structural)]
pub enum Error {
    /// The contract was set up a second time.
    AlreadyInitialized,
    /// A call was aimed at the contract's own account. Such a call could
    /// reach a private method as if from outside; a method that needs it
    /// should get an interface of its own with the right checks.
    CallCurrentAccount,
}

impl Error {
    /// The stable code of the error, as users see it.
    pub open spec fn code(self) -> Seq<char> {
        match self {
            Error::AlreadyInitialized => "ERR_EXEC_ALREADY_INITIALIZED"@,
            Error::CallCurrentAccount => "ERR_EXEC_CALL_CURRENT"@,
        }
    }

    /// The error's code as text.
    pub fn to_string(&self) -> (r: String)
        ensures
            r@ == self.code(),
    {
        match self {
            Error::AlreadyInitialized => "ERR_EXEC_ALREADY_INITIALIZED".to_owned(),
            Error::CallCurrentAccount => "ERR_EXEC_CALL_CURRENT".to_owned(),
        }
    }
}

} // verus!

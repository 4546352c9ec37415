use vstd::prelude::*;

verus! {

/// The ways a transition can be refused. None of them is transient.
#[derive(PartialEq, Eq, Structural, Debug, Clone, Copy)]
pub enum MultiSigError {
    /// Execution was asked for before the threshold of approvals was met.
    InsufficientApprovals,
    /// The approving identity is not one of the owners.
    NotOwner,
    /// The threshold is zero or larger than the number of owners.
    InvalidConfiguration,
}

impl MultiSigError {
    /// The stable numeric code under which the environment reports the error.
    pub open spec fn spec_code(self) -> u32 {
        match self {
            MultiSigError::InsufficientApprovals => 0,
            MultiSigError::NotOwner => 1,
            MultiSigError::InvalidConfiguration => 2,
        }
    }

    pub fn code(&self) -> (r: u32)
        ensures
            r == self.spec_code(),
    {
        match self {
            MultiSigError::InsufficientApprovals => 0,
            MultiSigError::NotOwner => 1,
            MultiSigError::InvalidConfiguration => 2,
        }
    }

    /// A fixed message for each kind.
    pub fn message(&self) -> (r: &'static str)
    {
        match self {
            MultiSigError::InsufficientApprovals => "Insufficient approvals",
            MultiSigError::NotOwner => "Owner not recognized",
            MultiSigError::InvalidConfiguration => "Invalid owners or threshold",
        }
    }
}

} // verus!

use vstd::prelude::*;

verus! {

/// The closed set of failures shared by every instruction of the program.
///
/// Each kind has a fixed numeric code (see `code`), stable across releases,
/// which is how a failure is reported outside the program.
#[derive(Debug, Clone, Copy, PartialEq, Eq, Structural)]
pub enum OreError {
    /// The epoch has ended and needs reset.
    NeedsReset,
    /// The provided hash is invalid.
    HashInvalid,
    /// The provided hash did not satisfy the minimum required difficulty.
    HashTooEasy,
    /// The claim amount cannot be greater than the claimable rewards.
    ClaimTooLarge,
    /// The clock time is invalid.
    ClockInvalid,
    /// A submission came too soon.
    Spam,
    /// Only one hash may be validated per transaction.
    TransactionInvalid,
    /// The tolerance cannot exceed the largest `i64`.
    ToleranceOverflow,
    /// The maximum supply has been reached.
    MaxSupply,
    /// The account cannot be closed because it is the top staker.
    CannotClose,
    /// The account cannot be crowned because its last stake was too recent.
    CannotCrown,
}

/// The wire code of each error kind.
pub open spec fn error_code(e: OreError) -> u32 {
    match e {
        OreError::NeedsReset => 0,
        OreError::HashInvalid => 1,
        OreError::HashTooEasy => 2,
        OreError::ClaimTooLarge => 3,
        OreError::ClockInvalid => 4,
        OreError::Spam => 5,
        OreError::TransactionInvalid => 6,
        OreError::ToleranceOverflow => 7,
        OreError::MaxSupply => 8,
        OreError::CannotClose => 9,
        OreError::CannotCrown => 10,
    }
}

impl OreError {
    /// The stable numeric code under which this error is reported.
    pub fn code(self) -> (r: u32)
        ensures
            r == error_code(self),
    {
        match self {
            OreError::NeedsReset => 0,
            OreError::HashInvalid => 1,
            OreError::HashTooEasy => 2,
            OreError::ClaimTooLarge => 3,
            OreError::ClockInvalid => 4,
            OreError::Spam => 5,
            OreError::TransactionInvalid => 6,
            OreError::ToleranceOverflow => 7,
            OreError::MaxSupply => 8,
            OreError::CannotClose => 9,
            OreError::CannotCrown => 10,
        }
    }
}

impl From<OreError> for u32 {
    fn from(e: OreError) -> (r: u32) {
        e.code()
    }
}

impl vstd::std_specs::convert::FromSpecImpl<OreError> for u32 {
    open spec fn obeys_from_spec() -> bool {
        true
    }

    open spec fn from_spec(e: OreError) -> u32 {
        error_code(e)
    }
}

} // verus!

use vstd::prelude::*;

verus! {

/// Every way the processor can reject a request. Each rejection surfaces a
/// distinct kind so callers can tell, e.g., "already registered" apart from
/// "missing signer".
#[derive(Clone, Copy, Debug, PartialEq, Eq, Structural)]
pub enum DealError {
    /// The request buffer did not decode to a known operation.
    InvalidInstruction,
    /// A caller-supplied address does not match its re-derivation.
    PdaDerivationMismatch,
    /// A creation operation found its target slot already populated.
    AlreadyInitialized,
    /// Counter arithmetic would wrap.
    Overflow,
    /// A required signer is missing, or ownership does not match.
    Unauthorized,
    /// The deal's supply is exhausted.
    DealSoldOut,
    /// A redeem log for this token already exists.
    AlreadyRedeemed,
    /// A payload field failed its length or range validation.
    InvalidInput,
}

impl DealError {
    /// Stable numeric code of each error kind, for callers that report errors
    /// as integers.
    pub fn code(&self) -> (r: u32)
        ensures
            r == self.spec_code(),
    {
        match self {
            DealError::InvalidInstruction => 0,
            DealError::PdaDerivationMismatch => 1,
            DealError::AlreadyInitialized => 2,
            DealError::Overflow => 3,
            DealError::Unauthorized => 4,
            DealError::DealSoldOut => 5,
            DealError::AlreadyRedeemed => 6,
            DealError::InvalidInput => 7,
        }
    }

    pub open spec fn spec_code(&self) -> u32 {
        match self {
            DealError::InvalidInstruction => 0u32,
            DealError::PdaDerivationMismatch => 1u32,
            DealError::AlreadyInitialized => 2u32,
            DealError::Overflow => 3u32,
            DealError::Unauthorized => 4u32,
            DealError::DealSoldOut => 5u32,
            DealError::AlreadyRedeemed => 6u32,
            DealError::InvalidInput => 7u32,
        }
    }
}

} // verus!

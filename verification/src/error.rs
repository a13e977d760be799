use vstd::prelude::*;

verus! {

/// Why a settlement was aborted.
#[derive(Clone, Copy, Debug, PartialEq, Eq, Structural)]
pub enum SubscribeError {
    /// The payer's available balance is below the required amount.
    InsufficientAmount,
    /// Moving the principal or one of its shares failed.
    TokenTransferFailed,
    /// Minting the credential failed.
    MintFailed,
    /// Minting one more credential would exceed the supply cap.
    SupplyCapExceeded,
    /// Transferring a computed, non-zero refund failed.
    RefundFailed,
    /// The caller does not own the record, or the authority proof is invalid.
    Unauthorized,
}

impl SubscribeError {
    /// The message shown to the user for this error.
    pub fn message(&self) -> (m: &'static str)
        ensures
            m@ == Self::spec_message(*self),
    {
        match self {
            SubscribeError::InsufficientAmount => "Insufficient GC amount. Minimum of 12 GC required.",
            SubscribeError::TokenTransferFailed => "Token transfer failed.",
            SubscribeError::MintFailed => "Minting subscription SBT failed.",
            SubscribeError::SupplyCapExceeded => "Maximum GC supply cap exceeded.",
            SubscribeError::RefundFailed => "Refund processing failed.",
            SubscribeError::Unauthorized => "Unauthorized action.",
        }
    }

    pub open spec fn spec_message(e: SubscribeError) -> Seq<char> {
        match e {
            SubscribeError::InsufficientAmount => "Insufficient GC amount. Minimum of 12 GC required."@,
            SubscribeError::TokenTransferFailed => "Token transfer failed."@,
            SubscribeError::MintFailed => "Minting subscription SBT failed."@,
            SubscribeError::SupplyCapExceeded => "Maximum GC supply cap exceeded."@,
            SubscribeError::RefundFailed => "Refund processing failed."@,
            SubscribeError::Unauthorized => "Unauthorized action."@,
        }
    }
}

} // verus!

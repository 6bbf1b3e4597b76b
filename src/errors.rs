use vstd::prelude::*;

verus! {

/// Every way a pool operation can fail.
#[derive(PartialEq, Eq, Structural, Clone, Copy, Debug)]
pub enum MMMErrorCode {
    InvalidLPFee,
    InvalidAllowLists,
    InvalidBP,
    InvalidCurveType,
    InvalidCurveDelta,
    InvalidCosigner,
    InvalidPaymentMint,
    InvalidOwner,
    NumericOverflow,
    InvalidRequestedPrice,
    NotEmptyEscrowAccount,
    NotEmptySellSideOrdersCount,
    InvalidReferral,
    InvalidMasterEdition,
    Expired,
    InvalidCreatorAddress,
    NotEnoughBalance,
    InvalidOcpAssetParams,
}

impl MMMErrorCode {
    /// The human-readable message of the error.
    pub fn message(&self) -> (r: &'static str) {
        match self {
            MMMErrorCode::InvalidLPFee => "lp fee bp must be between 0 and 10000",
            MMMErrorCode::InvalidAllowLists => "invalid allowlists",
            MMMErrorCode::InvalidBP => "invalid bp",
            MMMErrorCode::InvalidCurveType => "invalid curve type",
            MMMErrorCode::InvalidCurveDelta => "invalid curve delta",
            MMMErrorCode::InvalidCosigner => "invalid cosigner",
            MMMErrorCode::InvalidPaymentMint => "invalid payment mint",
            MMMErrorCode::InvalidOwner => "invalid owner",
            MMMErrorCode::NumericOverflow => "numeric overflow",
            MMMErrorCode::InvalidRequestedPrice => "invalid requested price",
            MMMErrorCode::NotEmptyEscrowAccount => "not empty escrow account",
            MMMErrorCode::NotEmptySellSideOrdersCount => "not empty sell side orders count",
            MMMErrorCode::InvalidReferral => "invalid referral",
            MMMErrorCode::InvalidMasterEdition => "invalid master edition",
            MMMErrorCode::Expired => "expired",
            MMMErrorCode::InvalidCreatorAddress => "invalid creator address",
            MMMErrorCode::NotEnoughBalance => "not enough balance",
            MMMErrorCode::InvalidOcpAssetParams => "invalid ocp asset params",
        }
    }
}

} // verus!

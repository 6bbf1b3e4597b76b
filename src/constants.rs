use vstd::prelude::*;

verus! {

/// One whole in basis points.
pub const BP_DENOM: u64 = 10000;

/// The number of allowlist entries a pool holds.
pub const ALLOWLIST_MAX_LEN: usize = 6;

/// Allowlist entry kinds.
pub const ALLOWLIST_KIND_EMPTY: u8 = 0;
pub const ALLOWLIST_KIND_FVCA: u8 = 1;
pub const ALLOWLIST_KIND_MINT: u8 = 2;
pub const ALLOWLIST_KIND_MCC: u8 = 3;
pub const ALLOWLIST_KIND_METADATA: u8 = 4;
pub const ALLOWLIST_KIND_ANY: u8 = 5;

/// Curve kinds.
pub const CURVE_KIND_LINEAR: u8 = 0;
pub const CURVE_KIND_EXP: u8 = 1;

} // verus!

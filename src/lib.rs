//! Settlement core of a two-sided pool that trades semi-fungible assets
//! against a native currency balance: the pricing curve, the fee split, the
//! escrow and position lifecycle, and the two fulfillment protocols.
pub mod constants;
pub mod curve;
pub mod errors;
pub mod escrow;
pub mod fees;
pub mod instructions;
pub mod laws;
pub mod royalty;
pub mod settlement;
pub mod state;

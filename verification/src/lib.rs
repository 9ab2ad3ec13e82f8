//! An escrow marketplace for unique assets.
//!
//! An operator registers a named marketplace with a fee in basis points. An
//! owner lists an asset by placing one unit of it into a vault that only the
//! listing can release. A buyer pays the listed price, split between the
//! marketplace's treasury and the seller, and receives the asset.
//!
//! The rules are written as verified functions on plain values. The
//! instruction modules decide what one operation does to the records in front
//! of it; [`ledger::Ledger`] keeps the records and applies each operation as
//! one atomic step.

pub mod address;
pub mod error;
pub mod fees;
pub mod instructions;
pub mod keys;
pub mod laws;
pub mod ledger;
pub mod pda;
pub mod seeds;
pub mod state;
pub mod table;
pub mod transfer;

pub use address::Address;
pub use error::MarketplaceError;

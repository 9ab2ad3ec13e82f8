use vstd::prelude::*;

verus! {

/// Why an operation was refused. Every error leaves all records as they were.
#[derive(Clone, Copy, Debug, PartialEq, Eq, Structural)]
pub enum MarketplaceError {
    /// The marketplace name is empty or longer than the limit.
    NameInvalid,
    /// The fee is above one hundred percent.
    FeeInvalid,
    /// The asking price is zero.
    PriceInvalid,
    /// The asset does not claim membership in the expected collection.
    CollectionMismatch,
    /// The asset claims membership, but the claim has not been verified.
    CollectionNotVerified,
    /// An amount does not fit in 64 bits.
    ArithmeticOverflow,
    /// A division had no result.
    ArithmeticError,
    /// The payer holds less currency than it has to pay.
    InsufficientFunds,
    /// The source holds fewer units of the asset than have to move.
    InsufficientAssetBalance,
    /// A record already exists at the address a new record would take.
    AddressCollision,
    /// No record exists at the address given.
    MissingRecord,
    /// No address can be derived from the seeds.
    DerivationFailed,
    /// A record's stored bump does not lead back to the record's address.
    DerivationMismatch,
    /// The authority named in a transfer does not own its source.
    Unauthorized,
    /// The vault still holds units after the sale and cannot be closed.
    VaultNotEmpty,
}

} // verus!

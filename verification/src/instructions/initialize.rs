use crate::address::Address;
use crate::error::MarketplaceError;
use crate::state::{Marketplace, Record, RewardsIssuer, MAX_FEE_BPS, MAX_NAME_LEN, REWARDS_DECIMALS};
use vstd::prelude::*;

verus! {

/// The records that registering a marketplace touches.
#[derive(Debug)]
pub struct Initialize {
    /// Who registers the marketplace.
    pub admin: Address,
    /// The new marketplace record.
    pub marketplace: Record<Marketplace>,
    /// Where the marketplace's fees will gather.
    pub treasury: Address,
    /// The new rewards issuer.
    pub rewards_mint: Record<RewardsIssuer>,
}

/// The bumps found while deriving the addresses of [`Initialize`].
#[derive(Clone, Copy, Debug, PartialEq, Eq)]
pub struct InitializeBumps {
    pub marketplace: u8,
    pub treasury: u8,
    pub rewards_mint: u8,
}

/// A name is valid if it has between one byte and thirty-six.
pub open spec fn name_is_valid(name: Seq<char>) -> bool {
    1 <= vstd::utf8::encode_utf8(name).len() <= 36
}

/// Whether a marketplace may be registered under this name with this fee.
pub open spec fn initialize_spec(name: Seq<char>, fee: u16) -> Result<(), MarketplaceError> {
    if !name_is_valid(name) {
        Err(MarketplaceError::NameInvalid)
    } else if fee > 10_000 {
        Err(MarketplaceError::FeeInvalid)
    } else {
        Ok(())
    }
}

/// Whether `name` is a valid marketplace name.
pub fn check_name(name: &str) -> (ok: bool)
    ensures
        ok == name_is_valid(name@),
{
    let len = name.as_bytes().len();
    len >= 1 && len <= MAX_NAME_LEN
}

impl Initialize {
    /// The records of a registration before anything is written: a blank
    /// marketplace record, and a rewards issuer with six decimal places that
    /// answers to the marketplace.
    pub fn accounts(admin: Address, marketplace: Address, treasury: Address, rewards: Address) -> (r:
        Self)
        ensures
            r.admin == admin,
            r.marketplace.key == marketplace,
            r.marketplace.data.is_blank(),
            r.treasury == treasury,
            r.rewards_mint == (Record {
                key: rewards,
                data: RewardsIssuer { decimals: 6, authority: marketplace },
            }),
    {
        Initialize {
            admin,
            marketplace: Record { key: marketplace, data: Marketplace::blank() },
            treasury,
            rewards_mint: Record {
                key: rewards,
                data: RewardsIssuer { decimals: REWARDS_DECIMALS, authority: marketplace },
            },
        }
    }

    /// Writes the marketplace record: who registered it, its name, its fee
    /// and the three bumps. Refuses a name that is empty or too long, and a
    /// fee above one hundred percent; nothing is written then.
    pub fn initialize(&mut self, name: String, fee: u16, bumps: &InitializeBumps) -> (r: Result<
        (),
        MarketplaceError,
    >)
        ensures
            r == initialize_spec(name@, fee),
            r is Ok ==> *final(self) == (Initialize {
                marketplace: Record {
                    key: old(self).marketplace.key,
                    data: Marketplace {
                        admin: old(self).admin,
                        name: name,
                        fee: fee,
                        bump: bumps.marketplace,
                        treasury_bump: bumps.treasury,
                        rewards_bump: bumps.rewards_mint,
                    },
                },
                ..*old(self)
            }),
            r is Err ==> *final(self) == *old(self),
    {
        if !check_name(name.as_str()) {
            return Err(MarketplaceError::NameInvalid);
        }
        if fee > MAX_FEE_BPS {
            return Err(MarketplaceError::FeeInvalid);
        }
        self.marketplace.data = Marketplace {
            admin: self.admin,
            name,
            fee,
            bump: bumps.marketplace,
            treasury_bump: bumps.treasury,
            rewards_bump: bumps.rewards_mint,
        };
        Ok(())
    }
}

} // verus!

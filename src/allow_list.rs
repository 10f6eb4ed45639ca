use vstd::prelude::*;

use crate::errors::Error;
use crate::pubkey::Pubkey;
use crate::state::{AllowListStruct, Config, ALLOW_LIST_ENTRY_SPACE, CONFIG_INIT_SPACE, MAX_ACCOUNT_SPACE};

verus! {

/// A request to the host: resize the record to `new_size` bytes, paid by
/// `payer`, with the new bytes zeroed when `zero_init` holds.
#[derive(Clone, Copy, Debug)]
pub struct ReallocRequest {
    pub new_size: usize,
    pub payer: Pubkey,
    pub zero_init: bool,
}

/// The accounts of an allow-list addition: the signing `authority`, the
/// `user` to admit, and the record derived from `authority`.
#[derive(Debug)]
pub struct AllowList {
    pub authority: Pubkey,
    pub user: Pubkey,
    pub config: Option<Config>,
}

impl AllowList {
    /// Why `add` refuses this request, if it does.
    pub open spec fn add_error(&self) -> Option<Error> {
        match self.config {
            None => Some(Error::AccountNotInitialized),
            Some(config) => if config.authority@ != self.authority@ {
                Some(Error::ConstraintSeeds)
            } else if Config::space_for(config.allow_list.len() + 1) > MAX_ACCOUNT_SPACE {
                Some(Error::AccountReallocExceedsLimit)
            } else {
                None
            },
        }
    }

    /// What a successful `add` of `amount` leaves behind: `next` is the state
    /// after, `req` the resize handed to the host.
    pub open spec fn added(&self, next: AllowList, amount: u8, req: ReallocRequest) -> bool {
        let before = self.config->0;
        let after = next.config->0;
        &&& req.new_size == Config::space_for(before.allow_list.len() + 1)
        &&& req.payer == self.authority
        &&& req.zero_init
        &&& next.authority == self.authority
        &&& next.user == self.user
        &&& next.config is Some
        &&& after.allow_list@ == before.allow_list@.push(AllowListStruct { user: self.user, amount })
        &&& after.authority == before.authority
        &&& after.allow_mint == before.allow_mint
        &&& after.collection == before.collection
        &&& after.total_supply == before.total_supply
        &&& after.current_supply == before.current_supply
        &&& after.status == before.status
        &&& after.bump == before.bump
    }

    /// Appends an entry giving `user` a quota of `amount`, and asks the host to
    /// grow the record by one entry, zero-filled, at the authority's expense.
    ///
    /// An entry already present for `user` is left as it is: the new one
    /// stands after it.
    pub fn add(&mut self, amount: u8) -> (r: Result<ReallocRequest, Error>)
        ensures
            r is Err <==> old(self).add_error() is Some,
            r matches Err(e) ==> old(self).add_error() == Some(e) && *final(self) == *old(self),
            r matches Ok(req) ==> old(self).added(*final(self), amount, req),
    {
        match &mut self.config {
            None => Err(Error::AccountNotInitialized),
            Some(config) => {
                if !(config.authority == self.authority) {
                    return Err(Error::ConstraintSeeds);
                }
                let len = config.allow_list.len();
                if len >= MAX_ACCOUNT_SPACE {
                    return Err(Error::AccountReallocExceedsLimit);
                }
                let grown = (len + 1) * ALLOW_LIST_ENTRY_SPACE;
                if grown > MAX_ACCOUNT_SPACE - CONFIG_INIT_SPACE {
                    return Err(Error::AccountReallocExceedsLimit);
                }
                config.allow_list.push(AllowListStruct { user: self.user, amount });
                Ok(
                    ReallocRequest {
                        new_size: CONFIG_INIT_SPACE + grown,
                        payer: self.authority,
                        zero_init: true,
                    },
                )
            },
        }
    }
}

} // verus!

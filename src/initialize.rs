use vstd::prelude::*;

use crate::errors::Error;
use crate::pubkey::Pubkey;
use crate::state::{Config, TreeStatus};

verus! {

/// A request to the minting service: create the configuration of a Merkle
/// tree of depth `max_depth` and buffer `max_buffer_size`, owned by the record
/// at `tree_creator`, which signs with the seeds `"config"`, `authority`, `bump`.
#[derive(Clone, Copy, Debug)]
pub struct CreateTreeRequest {
    pub tree_creator: Pubkey,
    pub payer: Pubkey,
    pub authority: Pubkey,
    pub bump: u8,
    pub max_depth: u32,
    pub max_buffer_size: u32,
    pub public: bool,
}

/// The accounts of a campaign's creation: the signing `authority`, the record
/// slot derived from it (`None` while free) with its address and bump, the optional pass
/// token, and the collection mint.
#[derive(Debug)]
pub struct Initialize {
    pub authority: Pubkey,
    pub config: Option<Config>,
    pub config_key: Pubkey,
    pub config_bump: u8,
    pub allow_mint: Option<Pubkey>,
    pub collection: Pubkey,
}

impl Initialize {
    /// What a successful `init_config` leaves behind: `next` holds a fresh
    /// record for `total_supply` items, found with `bump`.
    pub open spec fn initialized(&self, next: Initialize, total_supply: u32, bump: u8) -> bool {
        let config = next.config->0;
        &&& next.config is Some
        &&& config.allow_list@.len() == 0
        &&& config.authority == self.authority
        &&& config.allow_mint == self.allow_mint
        &&& config.collection == self.collection
        &&& config.total_supply == total_supply
        &&& config.current_supply == 0
        &&& config.status == TreeStatus::Active
        &&& config.bump == bump
        &&& next.authority == self.authority
        &&& next.config_key == self.config_key
        &&& next.config_bump == self.config_bump
        &&& next.allow_mint == self.allow_mint
        &&& next.collection == self.collection
    }

    /// Writes a fresh record: no entries, nothing issued, active.
    ///
    /// A record can be created once: if the slot is taken, nothing changes.
    pub fn init_config(&mut self, total_supply: u32, bump: u8) -> (r: Result<(), Error>)
        ensures
            r is Err <==> old(self).config is Some,
            r matches Err(e) ==> e == Error::AccountAlreadyInitialized && *final(self)
                == *old(self),
            r is Ok ==> old(self).initialized(*final(self), total_supply, bump),
    {
        if self.config.is_some() {
            return Err(Error::AccountAlreadyInitialized);
        }
        self.config = Some(
            Config {
                authority: self.authority,
                allow_list: Vec::new(),
                allow_mint: self.allow_mint,
                collection: self.collection,
                total_supply,
                current_supply: 0,
                status: TreeStatus::Active,
                bump,
            },
        );
        Ok(())
    }

    /// The tree-creation request for the record, which must exist.
    pub fn init_tree(&self, max_depth: u32, max_buffer_size: u32) -> (r: Result<
        CreateTreeRequest,
        Error,
    >)
        ensures
            r is Err <==> self.config is None,
            r matches Err(e) ==> e == Error::AccountNotInitialized,
            r matches Ok(req) ==> req == (CreateTreeRequest {
                tree_creator: self.config_key,
                payer: self.authority,
                authority: self.authority,
                bump: self.config->0.bump,
                max_depth,
                max_buffer_size,
                public: false,
            }),
    {
        match &self.config {
            None => Err(Error::AccountNotInitialized),
            Some(config) => Ok(
                CreateTreeRequest {
                    tree_creator: self.config_key,
                    payer: self.authority,
                    authority: self.authority,
                    bump: config.bump,
                    max_depth,
                    max_buffer_size,
                    public: false,
                },
            ),
        }
    }
}

} // verus!

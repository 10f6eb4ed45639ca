use vstd::prelude::*;

use crate::errors::Error;
use crate::pubkey::Pubkey;
use crate::state::Config;

verus! {

/// A request to the metadata service: make `collection_mint` a collection
/// whose update authority is the record at `update_authority`, which signs
/// with the seeds `"config"`, `authority`, `bump`.
#[derive(Clone, Copy, Debug)]
pub struct CreateCollectionRequest {
    pub collection_mint: Pubkey,
    pub update_authority: Pubkey,
    pub payer: Pubkey,
    pub authority: Pubkey,
    pub bump: u8,
}

/// The accounts of a collection's creation: the signing `authority`, the
/// record derived from it and its address, and the collection mint.
#[derive(Debug)]
pub struct CreateCollection {
    pub authority: Pubkey,
    pub config: Option<Config>,
    pub config_key: Pubkey,
    pub collection: Pubkey,
}

impl CreateCollection {
    /// Why the collection cannot be bound, if it cannot.
    pub open spec fn owner_error(&self) -> Option<Error> {
        match self.config {
            None => Some(Error::AccountNotInitialized),
            Some(config) => if config.authority@ != self.authority@ {
                Some(Error::ConstraintSeeds)
            } else {
                None
            },
        }
    }

    /// The request that binds the record's collection mint as a collection.
    pub fn create_collection(&self) -> (r: Result<CreateCollectionRequest, Error>)
        ensures
            r is Err <==> self.owner_error() is Some,
            r matches Err(e) ==> self.owner_error() == Some(e),
            r matches Ok(req) ==> req == (CreateCollectionRequest {
                collection_mint: self.config->0.collection,
                update_authority: self.config_key,
                payer: self.authority,
                authority: self.authority,
                bump: self.config->0.bump,
            }),
    {
        match &self.config {
            None => Err(Error::AccountNotInitialized),
            Some(config) => {
                if !(config.authority == self.authority) {
                    return Err(Error::ConstraintSeeds);
                }
                Ok(
                    CreateCollectionRequest {
                        collection_mint: config.collection,
                        update_authority: self.config_key,
                        payer: self.authority,
                        authority: self.authority,
                        bump: config.bump,
                    },
                )
            },
        }
    }
}

} // verus!

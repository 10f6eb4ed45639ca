//! Issuance controller for a finite, gated collection of compressed items.
//!
//! The library holds the decisions of the program: who may receive an item,
//! how the supply and the allow-list quotas move, and when the configuration
//! record is reclaimed. Each instruction reads plain account values and
//! returns the requests that the host must forward to the outside services
//! (token burn, tree creation, minting) together with the new record. The host
//! commits the new record only when every request it forwards succeeds.
use vstd::prelude::*;

pub mod allow_list;
pub mod create_collection;
pub mod errors;
pub mod initialize;
pub mod laws;
pub mod mint;
pub mod pubkey;
pub mod set_tree_status;
pub mod state;

pub use allow_list::{AllowList, ReallocRequest};
pub use create_collection::{CreateCollection, CreateCollectionRequest};
pub use errors::{CustomError, Error};
pub use initialize::{CreateTreeRequest, Initialize};
pub use mint::{
    BurnRequest, Gate, MetadataArgs, MintAccount, MintEffects, MintNFT, MintToCollectionRequest,
    TokenAccount,
};
pub use pubkey::Pubkey;
pub use set_tree_status::SetTreeStatus;
pub use state::{AllowListStruct, Config, TreeStatus};

verus! {

/// Creates the campaign's record and returns the tree-creation request.
pub fn initialize(ctx: &mut Initialize, total_supply: u32, max_depth: u32, max_buffer_size: u32) -> (r:
    Result<CreateTreeRequest, Error>)
    ensures
        r is Err <==> old(ctx).config is Some,
        r matches Err(e) ==> e == Error::AccountAlreadyInitialized && *final(ctx) == *old(ctx),
        r matches Ok(req) ==> old(ctx).initialized(*final(ctx), total_supply, old(ctx).config_bump)
            && req == (CreateTreeRequest {
            tree_creator: old(ctx).config_key,
            payer: old(ctx).authority,
            authority: old(ctx).authority,
            bump: old(ctx).config_bump,
            max_depth,
            max_buffer_size,
            public: false,
        }),
{
    let bump = ctx.config_bump;
    match ctx.init_config(total_supply, bump) {
        Err(e) => Err(e),
        Ok(()) => ctx.init_tree(max_depth, max_buffer_size),
    }
}

/// Binds the record's collection mint as a collection.
pub fn create_collection(ctx: &CreateCollection) -> (r: Result<CreateCollectionRequest, Error>)
    ensures
        r is Err <==> ctx.owner_error() is Some,
        r matches Err(e) ==> ctx.owner_error() == Some(e),
        r matches Ok(req) ==> req == (CreateCollectionRequest {
            collection_mint: ctx.config->0.collection,
            update_authority: ctx.config_key,
            payer: ctx.authority,
            authority: ctx.authority,
            bump: ctx.config->0.bump,
        }),
{
    ctx.create_collection()
}

/// Gives `ctx.user` an allow-list entry with quota `amount`.
pub fn add_allow_list(ctx: &mut AllowList, amount: u8) -> (r: Result<ReallocRequest, Error>)
    ensures
        r is Err <==> old(ctx).add_error() is Some,
        r matches Err(e) ==> old(ctx).add_error() == Some(e) && *final(ctx) == *old(ctx),
        r matches Ok(req) ==> old(ctx).added(*final(ctx), amount, req),
{
    ctx.add(amount)
}

/// Issues one item to the requester of `ctx`, if it is admitted.
pub fn mint(ctx: &mut MintNFT, name: String, symbol: String, uri: String) -> (r: Result<
    MintEffects,
    Error,
>)
    requires
        old(ctx).authority_lamports + old(ctx).config_lamports <= u64::MAX,
    ensures
        r is Ok <==> old(ctx).admission() is Ok,
        r matches Err(e) ==> old(ctx).admission() == Err::<Gate, Error>(e) && *final(ctx)
            == *old(ctx),
        r matches Ok(effects) ==> old(ctx).issued(*final(ctx), effects, name@, symbol@, uri@),
{
    ctx.mint_cnft(name, symbol, uri)
}

} // verus!

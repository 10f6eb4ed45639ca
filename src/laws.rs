//! Properties that hold across the instructions, proved from their contracts.
use vstd::prelude::*;

use crate::allow_list::{AllowList, ReallocRequest};
use crate::create_collection::CreateCollection;
use crate::errors::{CustomError, Error};
use crate::initialize::Initialize;
use crate::mint::{pow10, Gate, MintEffects, MintNFT};
use crate::set_tree_status::SetTreeStatus;
use crate::state::{find_user, lemma_find_user_absent, lemma_find_user_found, Config, TreeStatus};

verus! {

/// A freshly created record has issued nothing, so it is within its supply.
pub proof fn lemma_initialize_within_supply(before: Initialize, after: Initialize, total_supply: u32, bump: u8)
    requires
        before.initialized(after, total_supply, bump),
    ensures
        after.config->0.wf(),
{
}

/// A successful issuance never passes the total supply: the record either
/// stays with fewer items issued than the total, or is gone.
pub proof fn lemma_issuance_within_supply(
    before: MintNFT,
    after: MintNFT,
    effects: MintEffects,
    name: Seq<char>,
    symbol: Seq<char>,
    uri: Seq<char>,
)
    requires
        before.admission() is Ok,
        before.issued(after, effects, name, symbol, uri),
    ensures
        after.config matches Some(config) ==> config.wf() && config.current_supply
            < config.total_supply,
{
}

/// Adding an allow-list entry leaves the supply counters as they were.
pub proof fn lemma_allow_list_within_supply(before: AllowList, after: AllowList, amount: u8, req: ReallocRequest)
    requires
        before.config->0.wf(),
        before.added(after, amount, req),
    ensures
        after.config->0.wf(),
{
}

/// A status change leaves the supply counters as they were.
pub proof fn lemma_status_within_supply(before: SetTreeStatus, after: SetTreeStatus, status: TreeStatus)
    requires
        before.config is Some,
        before.config->0.wf(),
        after == (SetTreeStatus { config: Some(Config { status, ..before.config->0 }), ..before }),
    ensures
        after.config->0.wf(),
{
}

/// Quotas only go down, one at a time: a successful issuance that leaves the
/// record in place keeps every entry, takes one unit from the entry that
/// gated it, and leaves every other quota as it was.
pub proof fn lemma_issuance_quota(
    before: MintNFT,
    after: MintNFT,
    effects: MintEffects,
    name: Seq<char>,
    symbol: Seq<char>,
    uri: Seq<char>,
)
    requires
        before.admission() is Ok,
        before.issued(after, effects, name, symbol, uri),
        after.config is Some,
        before.config->0.allow_list@.len() <= usize::MAX,
    ensures
        ({
            let old_list = before.config->0.allow_list@;
            let new_list = after.config->0.allow_list@;
            &&& new_list.len() == old_list.len()
            &&& forall|i: int|
                0 <= i < old_list.len() ==> #[trigger] new_list[i].user == old_list[i].user
                    && new_list[i].amount <= old_list[i].amount
            &&& match before.admission()->Ok_0 {
                Gate::Quota { index } => {
                    &&& old_list[index as int].amount > 0
                    &&& new_list[index as int].amount == old_list[index as int].amount - 1
                    &&& forall|i: int|
                        0 <= i < old_list.len() && i != index ==> #[trigger] new_list[i]
                            == old_list[i]
                },
                _ => new_list == old_list,
            }
        }),
{
    let config = before.config->0;
    let old_list = config.allow_list@;
    match before.admission()->Ok_0 {
        Gate::Quota { index } => {
            lemma_find_user_found(old_list, before.user@);
            let i = find_user(old_list, before.user@)->0;
            assert(index as int == i);
        },
        _ => {},
    }
}

/// Adding an entry keeps every earlier entry and its quota.
pub proof fn lemma_allow_list_keeps_quotas(before: AllowList, after: AllowList, amount: u8, req: ReallocRequest)
    requires
        before.added(after, amount, req),
    ensures
        forall|i: int|
            0 <= i < before.config->0.allow_list@.len() ==> #[trigger] after.config->0.allow_list@[i]
                == before.config->0.allow_list@[i],
{
}

/// An inactive campaign issues nothing, whatever gate the requester would pass.
pub proof fn lemma_inactive_never_issues(ctx: MintNFT)
    requires
        ctx.config is Some,
        ctx.config->0.status == TreeStatus::Inactive,
    ensures
        ctx.admission() is Err,
        ctx.config->0.authority@ == ctx.authority@ ==> ctx.admission() == Err::<Gate, Error>(
            Error::Custom(CustomError::CandyMachineInactive),
        ),
{
}

/// The allow-list gates an active campaign whenever the pass token does not.
pub open spec fn quota_mode(ctx: MintNFT) -> bool {
    &&& ctx.config is Some
    &&& ctx.config->0.authority@ == ctx.authority@
    &&& ctx.config->0.status == TreeStatus::Active
    &&& !(ctx.config->0.allow_mint is Some && ctx.allow_mint is Some && ctx.allow_mint_ata is Some)
}

/// In quota mode a requester with no entry fails with `UserNotAllowed`, and
/// one whose first entry has no quota left fails with `AlreadyClaimed`.
pub proof fn lemma_quota_mode_refusals(ctx: MintNFT)
    requires
        quota_mode(ctx),
    ensures
        (forall|j: int|
            0 <= j < ctx.config->0.allow_list@.len() ==> #[trigger] ctx.config->0.allow_list@[j].user@
                != ctx.user@) ==> ctx.admission() == Err::<Gate, Error>(
            Error::Custom(CustomError::UserNotAllowed),
        ),
        (exists|i: int|
            {
                &&& 0 <= i < ctx.config->0.allow_list@.len()
                &&& #[trigger] ctx.config->0.allow_list@[i].user@ == ctx.user@
                &&& ctx.config->0.allow_list@[i].amount == 0
                &&& forall|j: int|
                    0 <= j < i ==> #[trigger] ctx.config->0.allow_list@[j].user@ != ctx.user@
            }) ==> ctx.admission() == Err::<Gate, Error>(Error::Custom(CustomError::AlreadyClaimed)),
{
    let list = ctx.config->0.allow_list@;
    let user = ctx.user@;
    if find_user(list, user) is Some {
        lemma_find_user_found(list, user);
    } else {
        lemma_find_user_absent(list, user);
    }
    assert forall|i: int|
        {
            &&& 0 <= i < list.len()
            &&& #[trigger] list[i].user@ == user
            &&& forall|j: int| 0 <= j < i ==> #[trigger] list[j].user@ != user
        } implies find_user(list, user) == Some(i) by {
        let k = find_user(list, user)->0;
        assert(!(k < i));
        assert(!(i < k));
    }
}

/// A burn is only ever one whole pass token, in the presented mint's base units.
pub proof fn lemma_burn_is_one_token(
    before: MintNFT,
    after: MintNFT,
    effects: MintEffects,
    name: Seq<char>,
    symbol: Seq<char>,
    uri: Seq<char>,
)
    requires
        before.admission() is Ok,
        before.issued(after, effects, name, symbol, uri),
    ensures
        effects.burn matches Some(burn) ==> before.allow_mint is Some && burn.amount == pow10(
            before.allow_mint->0.decimals as nat,
        ) && burn.mint == before.allow_mint->0.key && burn.authority == before.user,
{
}

/// Presenting a pass token other than the configured one fails with
/// `InvalidAllowMint`.
pub proof fn lemma_wrong_pass_token(ctx: MintNFT)
    requires
        ctx.config is Some,
        ctx.config->0.authority@ == ctx.authority@,
        ctx.config->0.status == TreeStatus::Active,
        ctx.config->0.allow_mint is Some,
        ctx.allow_mint is Some,
        ctx.allow_mint_ata is Some,
        ctx.allow_mint->0.key@ != ctx.config->0.allow_mint->0@,
    ensures
        ctx.admission() == Err::<Gate, Error>(Error::Custom(CustomError::InvalidAllowMint)),
{
}

/// The issuance that exhausts the supply reclaims the record in the same
/// instruction.
pub proof fn lemma_exhaustion_reclaims(
    before: MintNFT,
    after: MintNFT,
    effects: MintEffects,
    name: Seq<char>,
    symbol: Seq<char>,
    uri: Seq<char>,
)
    requires
        before.admission() is Ok,
        before.issued(after, effects, name, symbol, uri),
        before.config->0.current_supply + 1 == before.config->0.total_supply,
    ensures
        effects.closed,
        after.config is None,
        after.admission() == Err::<Gate, Error>(Error::AccountNotInitialized),
{
}

/// Once the record is gone, no instruction against it succeeds.
pub proof fn lemma_reclaimed_record_refuses(
    mint: MintNFT,
    add: AllowList,
    status: SetTreeStatus,
    collection: CreateCollection,
)
    requires
        mint.config is None,
        add.config is None,
        status.config is None,
        collection.config is None,
    ensures
        mint.admission() is Err,
        add.add_error() is Some,
        status.owner_error() is Some,
        collection.owner_error() is Some,
{
}

} // verus!

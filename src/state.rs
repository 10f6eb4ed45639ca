use vstd::prelude::*;

use crate::pubkey::Pubkey;

verus! {

/// Bytes of the account discriminator written before the record.
pub const DISCRIMINATOR_SIZE: usize = 8;

/// Bytes of a serialised key.
pub const PUBKEY_SIZE: usize = 32;

/// Bytes of a serialised vector's length prefix.
pub const VEC_PREFIX_SIZE: usize = 4;

/// Bytes of a serialised `u32`.
pub const U32_SIZE: usize = 4;

/// Bytes of a serialised `TreeStatus`.
pub const TREE_STATUS_SIZE: usize = 1;

/// Bytes of a record whose allow-list is empty.
pub const CONFIG_INIT_SPACE: usize = DISCRIMINATOR_SIZE + PUBKEY_SIZE + VEC_PREFIX_SIZE + (1
    + PUBKEY_SIZE) + PUBKEY_SIZE + U32_SIZE * 2 + TREE_STATUS_SIZE + 1;

/// Bytes of one serialised allow-list entry.
pub const ALLOW_LIST_ENTRY_SPACE: usize = PUBKEY_SIZE + 1;

/// The host's limit on the size of an account's data.
pub const MAX_ACCOUNT_SPACE: usize = 10 * 1024 * 1024;

/// Lifecycle of the issuance campaign.
///
/// `Inactive` stops every issuance; `Active` issues through the pass token or
/// the allow-list; `Public` issues to anyone without a gate.
#[derive(Clone, Copy, Debug, PartialEq, Eq, Structural)]
pub enum TreeStatus {
    Inactive,
    Active,
    Public,
}

/// One allow-list entry: a user and the number of items it may still receive.
#[derive(Clone, Copy, Debug)]
pub struct AllowListStruct {
    pub user: Pubkey,
    pub amount: u8,
}

/// The persisted configuration record of one campaign.
#[derive(Debug)]
pub struct Config {
    pub authority: Pubkey,
    pub allow_list: Vec<AllowListStruct>,
    pub allow_mint: Option<Pubkey>,
    pub collection: Pubkey,
    pub total_supply: u32,
    pub current_supply: u32,
    pub status: TreeStatus,
    pub bump: u8,
}

impl Config {
    /// The supply invariant: never more issued than the campaign holds.
    pub open spec fn wf(&self) -> bool {
        self.current_supply <= self.total_supply
    }

    /// Bytes that a record with `len` allow-list entries occupies.
    pub open spec fn space_for(len: int) -> int {
        CONFIG_INIT_SPACE + len * ALLOW_LIST_ENTRY_SPACE
    }
}

/// Index of the first entry of `list` for `user`, if any.
pub open spec fn find_user(list: Seq<AllowListStruct>, user: Seq<u8>) -> Option<int>
    decreases list.len(),
{
    if list.len() == 0 {
        None
    } else {
        match find_user(list.drop_last(), user) {
            Some(i) => Some(i),
            None => if list.last().user@ == user {
                Some(list.len() - 1)
            } else {
                None
            },
        }
    }
}

/// What `find_user` gives on a prefix it keeps on the whole list.
pub proof fn lemma_find_user_prefix(list: Seq<AllowListStruct>, user: Seq<u8>, n: int)
    requires
        0 <= n <= list.len(),
        find_user(list.subrange(0, n), user) is Some,
    ensures
        find_user(list, user) == find_user(list.subrange(0, n), user),
    decreases list.len() - n,
{
    if n < list.len() {
        let next = list.subrange(0, n + 1);
        assert(next.drop_last() =~= list.subrange(0, n));
        lemma_find_user_prefix(list, user, n + 1);
    } else {
        assert(list.subrange(0, n) =~= list);
    }
}

/// A found index is in range and names `user`; no earlier entry does.
pub proof fn lemma_find_user_found(list: Seq<AllowListStruct>, user: Seq<u8>)
    requires
        find_user(list, user) is Some,
    ensures
        0 <= find_user(list, user)->0 < list.len(),
        list[find_user(list, user)->0].user@ == user,
        forall|j: int| 0 <= j < find_user(list, user)->0 ==> list[j].user@ != user,
    decreases list.len(),
{
    if list.len() > 0 {
        assert(forall|j: int| 0 <= j < list.len() - 1 ==> #[trigger] list[j] == list.drop_last()[j]);
        match find_user(list.drop_last(), user) {
            Some(i) => lemma_find_user_found(list.drop_last(), user),
            None => lemma_find_user_absent(list.drop_last(), user),
        }
    }
}

/// When nothing is found, no entry names `user`.
pub proof fn lemma_find_user_absent(list: Seq<AllowListStruct>, user: Seq<u8>)
    requires
        find_user(list, user) is None,
    ensures
        forall|j: int| 0 <= j < list.len() ==> list[j].user@ != user,
    decreases list.len(),
{
    if list.len() > 0 {
        lemma_find_user_absent(list.drop_last(), user);
        assert(forall|j: int| 0 <= j < list.len() - 1 ==> #[trigger] list[j] == list.drop_last()[j]);
    }
}

/// Linear scan for the first allow-list entry of `user`.
pub fn find_entry(list: &Vec<AllowListStruct>, user: &Pubkey) -> (r: Option<usize>)
    ensures
        match r {
            Some(i) => i < list.len() && find_user(list@, user@) == Some(i as int),
            None => find_user(list@, user@) is None,
        },
{
    let mut i: usize = 0;
    while i < list.len()
        invariant
            0 <= i <= list.len(),
            find_user(list@.subrange(0, i as int), user@) is None,
        decreases list.len() - i,
    {
        assert(list@.subrange(0, i as int + 1).drop_last() =~= list@.subrange(0, i as int));
        if list[i].user == *user {
            proof {
                lemma_find_user_prefix(list@, user@, i as int + 1);
                lemma_find_user_found(list@, user@);
            }
            return Some(i);
        }
        i = i + 1;
    }
    assert(list@.subrange(0, i as int) =~= list@);
    None
}

} // verus!

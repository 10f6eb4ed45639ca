use cnft_candy_machine::{
    add_allow_list, create_collection, initialize, mint, AllowList, AllowListStruct,
    CreateCollection, CustomError, Error, Gate, Initialize, MintAccount, MintNFT, Pubkey,
    SetTreeStatus, TokenAccount, TreeStatus,
};

fn key(n: u8) -> Pubkey {
    Pubkey::new([n; 32])
}

fn owner() -> Pubkey {
    key(1)
}

fn init(total_supply: u32, allow_mint: Option<Pubkey>) -> cnft_candy_machine::Config {
    let mut ctx = Initialize {
        authority: owner(),
        config: None,
        config_key: key(2),
        config_bump: 254,
        allow_mint,
        collection: key(3),
    };
    initialize(&mut ctx, total_supply, 14, 64).unwrap();
    ctx.config.unwrap()
}

fn allow(config: cnft_candy_machine::Config, user: Pubkey, amount: u8) -> cnft_candy_machine::Config {
    let mut ctx = AllowList { authority: owner(), user, config: Some(config) };
    add_allow_list(&mut ctx, amount).unwrap();
    ctx.config.unwrap()
}

fn request(config: Option<cnft_candy_machine::Config>, user: Pubkey) -> MintNFT {
    MintNFT {
        user,
        authority: owner(),
        authority_lamports: 1_000,
        config,
        config_key: key(2),
        config_lamports: 500,
        allow_mint: None,
        allow_mint_ata: None,
        collection: key(3),
        leaf_owner: user,
    }
}

fn set_status(config: cnft_candy_machine::Config, status: TreeStatus) -> cnft_candy_machine::Config {
    let mut ctx = SetTreeStatus { authority: owner(), config: Some(config) };
    ctx.set_tree_status(status).unwrap();
    ctx.config.unwrap()
}

fn mint_one(ctx: &mut MintNFT) -> Result<cnft_candy_machine::MintEffects, Error> {
    mint(ctx, "Item".to_string(), "ITM".to_string(), "https://example.org/1".to_string())
}

#[test]
fn initialize_creates_active_empty_record() {
    let mut ctx = Initialize {
        authority: owner(),
        config: None,
        config_key: key(2),
        config_bump: 254,
        allow_mint: Some(key(9)),
        collection: key(3),
    };
    let req = initialize(&mut ctx, 10, 14, 64).unwrap();
    assert_eq!(req.tree_creator, key(2));
    assert_eq!(req.payer, owner());
    assert_eq!(req.bump, 254);
    assert_eq!(req.max_depth, 14);
    assert_eq!(req.max_buffer_size, 64);
    assert!(!req.public);
    let config = ctx.config.as_ref().unwrap();
    assert_eq!(config.authority, owner());
    assert!(config.allow_list.is_empty());
    assert_eq!(config.allow_mint, Some(key(9)));
    assert_eq!(config.collection, key(3));
    assert_eq!(config.total_supply, 10);
    assert_eq!(config.current_supply, 0);
    assert_eq!(config.status, TreeStatus::Active);
    assert_eq!(config.bump, 254);
}

#[test]
fn initialize_twice_fails() {
    let mut ctx = Initialize {
        authority: owner(),
        config: Some(init(3, None)),
        config_key: key(2),
        config_bump: 254,
        allow_mint: None,
        collection: key(3),
    };
    assert_eq!(initialize(&mut ctx, 7, 14, 64).unwrap_err(), Error::AccountAlreadyInitialized);
    assert_eq!(ctx.config.unwrap().total_supply, 3);
}

#[test]
fn add_allow_list_appends_and_grows_record() {
    let mut ctx = AllowList { authority: owner(), user: key(10), config: Some(init(5, None)) };
    let req = add_allow_list(&mut ctx, 2).unwrap();
    assert_eq!(req.new_size, 119 + 33);
    assert_eq!(req.payer, owner());
    assert!(req.zero_init);
    ctx.user = key(10);
    let req = add_allow_list(&mut ctx, 4).unwrap();
    assert_eq!(req.new_size, 119 + 66);
    let list = &ctx.config.as_ref().unwrap().allow_list;
    assert_eq!(list.len(), 2);
    assert_eq!(list[0].user, key(10));
    assert_eq!(list[0].amount, 2);
    assert_eq!(list[1].user, key(10));
    assert_eq!(list[1].amount, 4);
}

#[test]
fn add_allow_list_by_stranger_fails() {
    let mut ctx = AllowList { authority: key(7), user: key(10), config: Some(init(5, None)) };
    assert_eq!(add_allow_list(&mut ctx, 1).unwrap_err(), Error::ConstraintSeeds);
    assert!(ctx.config.unwrap().allow_list.is_empty());
}

#[test]
fn add_allow_list_without_record_fails() {
    let mut ctx = AllowList { authority: owner(), user: key(10), config: None };
    assert_eq!(add_allow_list(&mut ctx, 1).unwrap_err(), Error::AccountNotInitialized);
}

#[test]
fn set_tree_status_by_owner_and_stranger() {
    let mut ctx = SetTreeStatus { authority: owner(), config: Some(init(5, None)) };
    ctx.set_tree_status(TreeStatus::Inactive).unwrap();
    assert_eq!(ctx.config.as_ref().unwrap().status, TreeStatus::Inactive);
    ctx.set_tree_status(TreeStatus::Public).unwrap();
    assert_eq!(ctx.config.as_ref().unwrap().status, TreeStatus::Public);
    ctx.authority = key(7);
    assert_eq!(ctx.set_tree_status(TreeStatus::Active).unwrap_err(), Error::ConstraintSeeds);
    assert_eq!(ctx.config.as_ref().unwrap().status, TreeStatus::Public);
}

#[test]
fn create_collection_request() {
    let ctx = CreateCollection { authority: owner(), config: Some(init(5, None)), config_key: key(2), collection: key(3) };
    let req = create_collection(&ctx).unwrap();
    assert_eq!(req.collection_mint, key(3));
    assert_eq!(req.update_authority, key(2));
    assert_eq!(req.payer, owner());
    assert_eq!(req.bump, 254);
    let stranger = CreateCollection { authority: key(7), config: Some(init(5, None)), config_key: key(2), collection: key(3) };
    assert_eq!(create_collection(&stranger).unwrap_err(), Error::ConstraintSeeds);
}

#[test]
fn quota_mint_decrements_and_counts() {
    let config = allow(allow(init(5, None), key(10), 2), key(11), 1);
    let mut ctx = request(Some(config), key(10));
    let effects = mint_one(&mut ctx).unwrap();
    assert!(effects.burn.is_none());
    assert!(!effects.closed);
    assert_eq!(effects.mint.leaf_owner, key(10));
    assert_eq!(effects.mint.payer, key(10));
    assert_eq!(effects.mint.tree_creator, key(2));
    assert_eq!(effects.mint.collection_mint, key(3));
    assert_eq!(effects.mint.metadata.name, "Item");
    assert_eq!(effects.mint.metadata.symbol, "ITM");
    assert_eq!(effects.mint.metadata.uri, "https://example.org/1");
    assert_eq!(effects.mint.metadata.edition_nonce, Some(0));
    assert!(effects.mint.metadata.collection_verified);
    let config = ctx.config.as_ref().unwrap();
    assert_eq!(config.current_supply, 1);
    assert_eq!(config.allow_list[0].amount, 1);
    assert_eq!(config.allow_list[1].amount, 1);
    mint_one(&mut ctx).unwrap();
    assert_eq!(ctx.config.as_ref().unwrap().allow_list[0].amount, 0);
    assert_eq!(mint_one(&mut ctx).unwrap_err(), Error::Custom(CustomError::AlreadyClaimed));
    assert_eq!(ctx.config.as_ref().unwrap().current_supply, 2);
}

#[test]
fn absent_user_is_not_allowed() {
    let config = allow(init(5, None), key(10), 1);
    let mut ctx = request(Some(config), key(12));
    assert_eq!(mint_one(&mut ctx).unwrap_err(), Error::Custom(CustomError::UserNotAllowed));
    assert_eq!(ctx.config.as_ref().unwrap().current_supply, 0);
}

#[test]
fn zero_quota_is_already_claimed() {
    let config = allow(init(5, None), key(10), 0);
    let mut ctx = request(Some(config), key(10));
    assert_eq!(mint_one(&mut ctx).unwrap_err(), Error::Custom(CustomError::AlreadyClaimed));
}

#[test]
fn first_entry_decides_among_duplicates() {
    let config = allow(allow(init(5, None), key(10), 0), key(10), 3);
    let mut ctx = request(Some(config), key(10));
    assert_eq!(mint_one(&mut ctx).unwrap_err(), Error::Custom(CustomError::AlreadyClaimed));
    assert_eq!(ctx.config.as_ref().unwrap().allow_list[1].amount, 3);
}

#[test]
fn single_supply_reclaims_record() {
    let config = allow(init(1, None), key(10), 1);
    let mut ctx = request(Some(config), key(10));
    let effects = mint_one(&mut ctx).unwrap();
    assert!(effects.closed);
    assert!(ctx.config.is_none());
    assert_eq!(ctx.authority_lamports, 1_500);
    assert_eq!(ctx.config_lamports, 0);
    assert_eq!(mint_one(&mut ctx).unwrap_err(), Error::AccountNotInitialized);
}

#[test]
fn inactive_then_active() {
    let config = set_status(allow(init(5, None), key(10), 2), TreeStatus::Inactive);
    let mut ctx = request(Some(config), key(10));
    assert_eq!(mint_one(&mut ctx).unwrap_err(), Error::Custom(CustomError::CandyMachineInactive));
    let mut public = request(Some(set_status(init(5, None), TreeStatus::Inactive)), key(12));
    assert_eq!(mint_one(&mut public).unwrap_err(), Error::Custom(CustomError::CandyMachineInactive));
    let config = set_status(ctx.config.take().unwrap(), TreeStatus::Active);
    let mut ctx = request(Some(config), key(10));
    mint_one(&mut ctx).unwrap();
    assert_eq!(ctx.config.as_ref().unwrap().current_supply, 1);
    assert_eq!(ctx.config.as_ref().unwrap().allow_list[0].amount, 1);
}

#[test]
fn public_mint_needs_no_entry() {
    let config = set_status(init(5, None), TreeStatus::Public);
    let mut ctx = request(Some(config), key(12));
    let effects = mint_one(&mut ctx).unwrap();
    assert!(effects.burn.is_none());
    assert_eq!(ctx.config.as_ref().unwrap().current_supply, 1);
}

fn pass_request(config: cnft_candy_machine::Config, mint_key: Pubkey, decimals: u8) -> MintNFT {
    let mut ctx = request(Some(config), key(10));
    ctx.allow_mint = Some(MintAccount { key: mint_key, decimals });
    ctx.allow_mint_ata = Some(TokenAccount { key: key(21), mint: mint_key, owner: key(10) });
    ctx
}

#[test]
fn pass_token_burns_one_whole_token() {
    let mut ctx = pass_request(init(5, Some(key(20))), key(20), 6);
    let effects = mint_one(&mut ctx).unwrap();
    let burn = effects.burn.unwrap();
    assert_eq!(burn.amount, 1_000_000);
    assert_eq!(burn.mint, key(20));
    assert_eq!(burn.from, key(21));
    assert_eq!(burn.authority, key(10));
    assert_eq!(ctx.config.as_ref().unwrap().current_supply, 1);
}

#[test]
fn pass_token_with_no_decimals_burns_one_unit() {
    let mut ctx = pass_request(init(5, Some(key(20))), key(20), 0);
    assert_eq!(mint_one(&mut ctx).unwrap().burn.unwrap().amount, 1);
}

#[test]
fn wrong_pass_token_is_refused() {
    let mut ctx = pass_request(init(5, Some(key(20))), key(22), 0);
    assert_eq!(mint_one(&mut ctx).unwrap_err(), Error::Custom(CustomError::InvalidAllowMint));
    assert_eq!(ctx.config.as_ref().unwrap().current_supply, 0);
}

#[test]
fn pass_token_account_of_another_owner_is_refused() {
    let mut ctx = pass_request(init(5, Some(key(20))), key(20), 0);
    ctx.allow_mint_ata = Some(TokenAccount { key: key(21), mint: key(20), owner: key(11) });
    assert_eq!(mint_one(&mut ctx).unwrap_err(), Error::Custom(CustomError::InvalidAllowMintATA));
}

#[test]
fn pass_token_with_oversized_decimals_is_refused() {
    let mut ctx = pass_request(init(5, Some(key(20))), key(20), 20);
    assert_eq!(mint_one(&mut ctx).unwrap_err(), Error::Custom(CustomError::InvalidSPLSettings));
    let mut ok = pass_request(init(5, Some(key(20))), key(20), 19);
    assert_eq!(mint_one(&mut ok).unwrap().burn.unwrap().amount, 10_000_000_000_000_000_000);
}

#[test]
fn mint_against_other_authority_fails() {
    let mut ctx = request(Some(allow(init(5, None), key(10), 1)), key(10));
    ctx.authority = key(7);
    assert_eq!(mint_one(&mut ctx).unwrap_err(), Error::ConstraintSeeds);
}

#[test]
fn empty_supply_issues_nothing() {
    let mut ctx = request(Some(set_status(init(0, None), TreeStatus::Public)), key(10));
    assert_eq!(mint_one(&mut ctx).unwrap_err(), Error::SupplyExhausted);
}

#[test]
fn gate_evaluation_alone() {
    let config = allow(init(5, None), key(10), 1);
    assert_eq!(
        cnft_candy_machine::mint::evaluate_gate(&config, &key(10), &None, &None),
        Ok(Gate::Quota { index: 0 })
    );
    assert_eq!(cnft_candy_machine::mint::one_token_amount(2), Some(100));
    assert_eq!(cnft_candy_machine::mint::one_token_amount(20), None);
    let entry = AllowListStruct { user: key(10), amount: 1 };
    assert_eq!(cnft_candy_machine::state::find_entry(&vec![entry], &key(10)), Some(0));
    assert_eq!(cnft_candy_machine::state::find_entry(&vec![entry], &key(11)), None);
}

#[test]
fn add_allow_list_stops_at_account_size_limit() {
    let entry = AllowListStruct { user: key(10), amount: 1 };
    let mut config = init(5, None);
    config.allow_list = vec![entry; 317_745];
    let mut ctx = AllowList { authority: owner(), user: key(11), config: Some(config) };
    let req = add_allow_list(&mut ctx, 1).unwrap();
    assert_eq!(req.new_size, 10 * 1024 * 1024 - 23);
    assert_eq!(
        add_allow_list(&mut ctx, 1).unwrap_err(),
        Error::AccountReallocExceedsLimit
    );
    assert_eq!(ctx.config.unwrap().allow_list.len(), 317_746);
}

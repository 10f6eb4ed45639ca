use vstd::prelude::*;

use crate::errors::{CustomError, Error};
use crate::pubkey::Pubkey;
use crate::state::{find_entry, find_user, AllowListStruct, Config, TreeStatus};

verus! {

/// The pass-token mint as the instruction sees it.
#[derive(Clone, Copy, Debug)]
pub struct MintAccount {
    pub key: Pubkey,
    pub decimals: u8,
}

/// A token account: its address, the mint it holds and its owner.
#[derive(Clone, Copy, Debug)]
pub struct TokenAccount {
    pub key: Pubkey,
    pub mint: Pubkey,
    pub owner: Pubkey,
}

/// How one issuance was admitted.
#[derive(Clone, Copy, Debug, PartialEq, Eq, Structural)]
pub enum Gate {
    /// The campaign is public: nothing is consumed.
    Open,
    /// `amount` base units of the pass token are burnt.
    PassToken { amount: u64 },
    /// One unit of quota of the allow-list entry at `index` is consumed.
    Quota { index: usize },
}

/// A request to the token program: burn `amount` of `mint` from `from`, signed by `authority`.
#[derive(Clone, Copy, Debug)]
pub struct BurnRequest {
    pub mint: Pubkey,
    pub from: Pubkey,
    pub authority: Pubkey,
    pub amount: u64,
}

/// The metadata of one issued item.
#[derive(Debug)]
pub struct MetadataArgs {
    pub name: String,
    pub symbol: String,
    pub uri: String,
    pub seller_fee_basis_points: u16,
    pub primary_sale_happened: bool,
    pub is_mutable: bool,
    pub edition_nonce: Option<u8>,
    pub collection: Pubkey,
    pub collection_verified: bool,
}

/// A request to the minting service: issue one item into the collection.
///
/// The record at `tree_creator` signs for the tree and the collection, with the
/// seeds `"config"`, `authority` and `bump`.
#[derive(Debug)]
pub struct MintToCollectionRequest {
    pub leaf_owner: Pubkey,
    pub payer: Pubkey,
    pub tree_creator: Pubkey,
    pub collection_mint: Pubkey,
    pub authority: Pubkey,
    pub bump: u8,
    pub metadata: MetadataArgs,
}

/// What a successful issuance asks of the host, in order: the burn (if the
/// pass token gated it), the mint, and whether the record was reclaimed.
#[derive(Debug)]
pub struct MintEffects {
    pub burn: Option<BurnRequest>,
    pub mint: MintToCollectionRequest,
    pub closed: bool,
}

/// The accounts of one issuance request.
///
/// `config` is `None` when no record lives at the address derived from `authority`.
#[derive(Debug)]
pub struct MintNFT {
    pub user: Pubkey,
    pub authority: Pubkey,
    pub authority_lamports: u64,
    pub config: Option<Config>,
    pub config_key: Pubkey,
    pub config_lamports: u64,
    pub allow_mint: Option<MintAccount>,
    pub allow_mint_ata: Option<TokenAccount>,
    pub collection: Pubkey,
    pub leaf_owner: Pubkey,
}

/// Ten to the power `n`.
pub open spec fn pow10(n: nat) -> nat
    decreases n,
{
    if n == 0 {
        1
    } else {
        10 * pow10((n - 1) as nat)
    }
}

proof fn lemma_pow10_grows(a: nat, b: nat)
    requires
        a <= b,
    ensures
        pow10(a) <= pow10(b),
    decreases b - a,
{
    if a < b {
        lemma_pow10_grows(a, (b - 1) as nat);
    }
}

/// The base units of one whole pass token with `decimals` decimals, when they fit in 64 bits.
pub fn one_token_amount(decimals: u8) -> (r: Option<u64>)
    ensures
        pow10(decimals as nat) <= u64::MAX ==> r == Some(pow10(decimals as nat) as u64),
        pow10(decimals as nat) > u64::MAX ==> r is None,
{
    let mut amount: u64 = 1;
    let mut i: u8 = 0;
    while i < decimals
        invariant
            i <= decimals,
            amount as nat == pow10(i as nat),
        decreases decimals - i,
    {
        if amount > u64::MAX / 10 {
            proof {
                lemma_pow10_grows((i + 1) as nat, decimals as nat);
            }
            return None;
        }
        amount = amount * 10;
        i = i + 1;
    }
    Some(amount)
}

/// How `user` is admitted on `config`, or the reason it is not.
///
/// A public campaign is open. Where the record names a pass token and both a
/// mint and a token account are presented, the pass token gates; otherwise the
/// first allow-list entry of `user` does.
pub open spec fn gate_of(
    config: Config,
    user: Pubkey,
    allow_mint: Option<MintAccount>,
    allow_mint_ata: Option<TokenAccount>,
) -> Result<Gate, CustomError> {
    if config.status == TreeStatus::Public {
        Ok(Gate::Open)
    } else if config.allow_mint is Some && allow_mint is Some && allow_mint_ata is Some {
        let mint = allow_mint->0;
        let ata = allow_mint_ata->0;
        if mint.key@ != config.allow_mint->0@ {
            Err(CustomError::InvalidAllowMint)
        } else if ata.mint@ != mint.key@ || ata.owner@ != user@ {
            Err(CustomError::InvalidAllowMintATA)
        } else if pow10(mint.decimals as nat) > u64::MAX {
            Err(CustomError::InvalidSPLSettings)
        } else {
            Ok(Gate::PassToken { amount: pow10(mint.decimals as nat) as u64 })
        }
    } else {
        match find_user(config.allow_list@, user@) {
            None => Err(CustomError::UserNotAllowed),
            Some(i) => if config.allow_list@[i].amount == 0 {
                Err(CustomError::AlreadyClaimed)
            } else {
                Ok(Gate::Quota { index: i as usize })
            },
        }
    }
}

/// The allow-list after `gate` was consumed.
pub open spec fn consume(list: Seq<AllowListStruct>, gate: Gate) -> Seq<AllowListStruct> {
    match gate {
        Gate::Quota { index } => list.update(
            index as int,
            AllowListStruct { user: list[index as int].user, amount: (list[index as int].amount - 1) as u8 },
        ),
        _ => list,
    }
}

/// Decides which gate admits `user` on `config`, without changing anything.
pub fn evaluate_gate(
    config: &Config,
    user: &Pubkey,
    allow_mint: &Option<MintAccount>,
    allow_mint_ata: &Option<TokenAccount>,
) -> (r: Result<Gate, CustomError>)
    ensures
        r == gate_of(*config, *user, *allow_mint, *allow_mint_ata),
        r matches Ok(Gate::Quota { index }) ==> index < config.allow_list.len()
            && config.allow_list@[index as int].amount > 0,
{
    if config.status == TreeStatus::Public {
        return Ok(Gate::Open);
    }
    match (config.allow_mint, *allow_mint, *allow_mint_ata) {
        (Some(pass), Some(mint), Some(ata)) => {
            if !(mint.key == pass) {
                return Err(CustomError::InvalidAllowMint);
            }
            if !(ata.mint == mint.key) || !(ata.owner == *user) {
                return Err(CustomError::InvalidAllowMintATA);
            }
            match one_token_amount(mint.decimals) {
                Some(amount) => Ok(Gate::PassToken { amount }),
                None => Err(CustomError::InvalidSPLSettings),
            }
        },
        _ => match find_entry(&config.allow_list, user) {
            None => Err(CustomError::UserNotAllowed),
            Some(i) => {
                if config.allow_list[i].amount == 0 {
                    Err(CustomError::AlreadyClaimed)
                } else {
                    Ok(Gate::Quota { index: i })
                }
            },
        },
    }
}

impl MintNFT {
    /// How this request is admitted, or the error that stops it: the
    /// record must exist and belong to `authority`, be active, admit the user,
    /// and have supply left.
    pub open spec fn admission(&self) -> Result<Gate, Error> {
        match self.config {
            None => Err(Error::AccountNotInitialized),
            Some(config) => if config.authority@ != self.authority@ {
                Err(Error::ConstraintSeeds)
            } else if config.status == TreeStatus::Inactive {
                Err(Error::Custom(CustomError::CandyMachineInactive))
            } else {
                match gate_of(config, self.user, self.allow_mint, self.allow_mint_ata) {
                    Err(e) => Err(Error::Custom(e)),
                    Ok(gate) => if config.current_supply >= config.total_supply {
                        Err(Error::SupplyExhausted)
                    } else {
                        Ok(gate)
                    },
                }
            },
        }
    }

    /// The burn that `gate` asks for.
    pub open spec fn burn_of(&self, gate: Gate) -> Option<BurnRequest> {
        match gate {
            Gate::PassToken { amount } => Some(
                BurnRequest {
                    mint: self.allow_mint->0.key,
                    from: self.allow_mint_ata->0.key,
                    authority: self.user,
                    amount,
                },
            ),
            _ => None,
        }
    }

    fn check_admission(&self) -> (r: Result<Gate, Error>)
        ensures
            r == self.admission(),
            r matches Ok(Gate::Quota { index }) ==> index < self.config->0.allow_list.len()
                && self.config->0.allow_list@[index as int].amount > 0,
    {
        match &self.config {
            None => Err(Error::AccountNotInitialized),
            Some(config) => {
                if !(config.authority == self.authority) {
                    return Err(Error::ConstraintSeeds);
                }
                if config.status == TreeStatus::Inactive {
                    return Err(Error::Custom(CustomError::CandyMachineInactive));
                }
                match evaluate_gate(config, &self.user, &self.allow_mint, &self.allow_mint_ata) {
                    Err(e) => Err(Error::Custom(e)),
                    Ok(gate) => {
                        if config.current_supply >= config.total_supply {
                            Err(Error::SupplyExhausted)
                        } else {
                            Ok(gate)
                        }
                    },
                }
            },
        }
    }

    /// What a successful issuance leaves behind: `next` is the state after,
    /// `effects` what was handed to the host, for metadata `name`, `symbol`, `uri`.
    pub open spec fn issued(
        &self,
        next: MintNFT,
        effects: MintEffects,
        name: Seq<char>,
        symbol: Seq<char>,
        uri: Seq<char>,
    ) -> bool {
        let config = self.config->0;
        let gate = self.admission()->Ok_0;
        let supply = config.current_supply + 1;
        let metadata = effects.mint.metadata;
        &&& effects.burn == self.burn_of(gate)
        &&& effects.closed == (supply == config.total_supply)
        &&& effects.mint.leaf_owner == self.leaf_owner
        &&& effects.mint.payer == self.user
        &&& effects.mint.tree_creator == self.config_key
        &&& effects.mint.collection_mint == self.collection
        &&& effects.mint.authority == self.authority
        &&& effects.mint.bump == config.bump
        &&& metadata.name@ == name
        &&& metadata.symbol@ == symbol
        &&& metadata.uri@ == uri
        &&& metadata.seller_fee_basis_points == 0
        &&& !metadata.primary_sale_happened
        &&& !metadata.is_mutable
        &&& metadata.edition_nonce == Some(0u8)
        &&& metadata.collection == self.collection
        &&& metadata.collection_verified
        &&& next.user == self.user
        &&& next.authority == self.authority
        &&& next.config_key == self.config_key
        &&& next.allow_mint == self.allow_mint
        &&& next.allow_mint_ata == self.allow_mint_ata
        &&& next.collection == self.collection
        &&& next.leaf_owner == self.leaf_owner
        &&& if effects.closed {
            &&& next.config is None
            &&& next.authority_lamports == self.authority_lamports + self.config_lamports
            &&& next.config_lamports == 0
        } else {
            &&& next.authority_lamports == self.authority_lamports
            &&& next.config_lamports == self.config_lamports
            &&& next.config is Some
            &&& next.config->0.current_supply == supply
            &&& next.config->0.allow_list@ == consume(config.allow_list@, gate)
            &&& next.config->0.authority == config.authority
            &&& next.config->0.allow_mint == config.allow_mint
            &&& next.config->0.collection == config.collection
            &&& next.config->0.total_supply == config.total_supply
            &&& next.config->0.status == config.status
            &&& next.config->0.bump == config.bump
        }
    }

    /// Runs one issuance request.
    ///
    /// On failure nothing changes and the error is the one `admission` names.
    /// On success the admission is paid for, the supply grows by one, and the record
    /// is reclaimed to `authority` when the supply is exhausted.
    pub fn mint_cnft(&mut self, name: String, symbol: String, uri: String) -> (r: Result<
        MintEffects,
        Error,
    >)
        requires
            old(self).authority_lamports + old(self).config_lamports <= u64::MAX,
        ensures
            r is Ok <==> old(self).admission() is Ok,
            r matches Err(e) ==> old(self).admission() == Err::<Gate, Error>(e) && *final(self)
                == *old(self),
            r matches Ok(effects) ==> old(self).issued(*final(self), effects, name@, symbol@, uri@),
    {
        let gate = match self.check_admission() {
            Ok(gate) => gate,
            Err(e) => return Err(e),
        };
        let mut config = match self.config.take() {
            Some(config) => config,
            None => return Err(Error::AccountNotInitialized),
        };
        match gate {
            Gate::Quota { index } => {
                let entry = config.allow_list[index];
                config.allow_list.set(
                    index,
                    AllowListStruct { user: entry.user, amount: entry.amount - 1 },
                );
            },
            _ => {},
        }
        let burn = match (gate, self.allow_mint, self.allow_mint_ata) {
            (Gate::PassToken { amount }, Some(mint), Some(ata)) => Some(
                BurnRequest { mint: mint.key, from: ata.key, authority: self.user, amount },
            ),
            _ => None,
        };
        let metadata = MetadataArgs {
            name,
            symbol,
            uri,
            seller_fee_basis_points: 0,
            primary_sale_happened: false,
            is_mutable: false,
            edition_nonce: Some(0),
            collection: self.collection,
            collection_verified: true,
        };
        let mint = MintToCollectionRequest {
            leaf_owner: self.leaf_owner,
            payer: self.user,
            tree_creator: self.config_key,
            collection_mint: self.collection,
            authority: self.authority,
            bump: config.bump,
            metadata,
        };
        config.current_supply = config.current_supply + 1;
        let closed = config.current_supply == config.total_supply;
        if closed {
            let _ = self.close_account();
        } else {
            self.config = Some(config);
        }
        Ok(MintEffects { burn, mint, closed })
    }

    /// Reclaims the record: its lamports go to `authority` and it no longer exists.
    pub fn close_account(&mut self) -> (r: Result<(), Error>)
        requires
            old(self).authority_lamports + old(self).config_lamports <= u64::MAX,
        ensures
            r is Ok,
            *final(self) == (MintNFT {
                authority_lamports: (old(self).authority_lamports + old(self).config_lamports) as u64,
                config_lamports: 0,
                config: None,
                ..*old(self)
            }),
    {
        self.authority_lamports = self.authority_lamports + self.config_lamports;
        self.config_lamports = 0;
        self.config = None;
        Ok(())
    }
} // impl MintNFT

} // verus!

//! Per-instruction validation chains.
//!
//! Every privileged instruction declares the record set it touches and runs
//! a fixed predicate chain before any mutation; any predicate failure aborts
//! the whole operation with no partial effect. Every check is an address or
//! key equality, never a value trust: a syntactically valid but semantically
//! wrong record is rejected because some stored key fails to match.
//!
//! Each context has a `spec_validate` function giving the exact outcome of
//! its chain, including which tagged failure fires first, and an executable
//! `validate` proved to return exactly that outcome.

use vstd::prelude::*;
use crate::error::ErrorCode;
use crate::key::{zero_key, Key};
use crate::pda::{ata_of, derive_metadata_address, expected_metadata_address, associated_token_address};
use crate::records::{
    Keyed, Metadata, Miner, MintWrapper, Minter, Quarry, Rewarder, SignerAccount, TokenAccount,
    TokenMint,
};

verus! {

// --------------------------------
// Rewarder authority sub-contexts
// --------------------------------

/// A rewarder to be mutated, together with its acting root authority.
#[derive(Clone, Copy, Debug, PartialEq, Eq)]
pub struct MutableRewarderWithAuthority {
    /// The acting authority; must have signed.
    pub authority: SignerAccount,
    /// The rewarder being mutated.
    pub rewarder: Keyed<Rewarder>,
}

impl MutableRewarderWithAuthority {
    /// The outcome of the chain: the authority signed, and it is exactly
    /// the rewarder's recorded root authority.
    pub open spec fn spec_validate(self) -> Result<(), ErrorCode> {
        if !self.authority.is_signer {
            Err(ErrorCode::Unauthorized)
        } else if self.rewarder.record.authority@ != self.authority.key@ {
            Err(ErrorCode::Unauthorized)
        } else {
            Ok(())
        }
    }

    /// Checks that the acting authority signed and owns the rewarder.
    pub fn validate(&self) -> (r: Result<(), ErrorCode>)
        ensures
            r == self.spec_validate(),
            r is Ok <==> (self.authority.is_signer && self.rewarder.record.authority@
                == self.authority.key@),
    {
        if !self.authority.is_signer {
            return Err(ErrorCode::Unauthorized);
        }
        if !self.rewarder.record.authority.key_eq(&self.authority.key) {
            return Err(ErrorCode::Unauthorized);
        }
        Ok(())
    }
}

/// A rewarder read under its root authority's signature.
#[derive(Clone, Copy, Debug, PartialEq, Eq)]
pub struct ReadOnlyRewarderWithAuthority {
    /// The acting authority; must have signed.
    pub authority: SignerAccount,
    /// The rewarder being read.
    pub rewarder: Keyed<Rewarder>,
}

impl ReadOnlyRewarderWithAuthority {
    /// The outcome of the chain: the authority signed, and it is exactly
    /// the rewarder's recorded root authority.
    pub open spec fn spec_validate(self) -> Result<(), ErrorCode> {
        if !self.authority.is_signer {
            Err(ErrorCode::Unauthorized)
        } else if self.authority.key@ != self.rewarder.record.authority@ {
            Err(ErrorCode::Unauthorized)
        } else {
            Ok(())
        }
    }

    /// Checks that the acting authority signed and owns the rewarder.
    pub fn validate(&self) -> (r: Result<(), ErrorCode>)
        ensures
            r == self.spec_validate(),
            r is Ok <==> (self.authority.is_signer && self.authority.key@
                == self.rewarder.record.authority@),
    {
        if !self.authority.is_signer {
            return Err(ErrorCode::Unauthorized);
        }
        if !self.authority.key.key_eq(&self.rewarder.record.authority) {
            return Err(ErrorCode::Unauthorized);
        }
        Ok(())
    }
}

/// A rewarder to be mutated by its pause authority.
#[derive(Clone, Copy, Debug, PartialEq, Eq)]
pub struct MutableRewarderWithPauseAuthority {
    /// The acting pause authority; must have signed.
    pub pause_authority: SignerAccount,
    /// The rewarder being mutated.
    pub rewarder: Keyed<Rewarder>,
}

impl MutableRewarderWithPauseAuthority {
    /// The outcome of the chain: the pause authority signed, and it is
    /// exactly the rewarder's recorded pause authority.
    pub open spec fn spec_validate(self) -> Result<(), ErrorCode> {
        if !self.pause_authority.is_signer {
            Err(ErrorCode::Unauthorized)
        } else if self.rewarder.record.pause_authority@ != self.pause_authority.key@ {
            Err(ErrorCode::Unauthorized)
        } else {
            Ok(())
        }
    }

    /// Checks that the pause authority signed and matches the record.
    pub fn validate(&self) -> (r: Result<(), ErrorCode>)
        ensures
            r == self.spec_validate(),
            r is Ok <==> (self.pause_authority.is_signer && self.rewarder.record.pause_authority@
                == self.pause_authority.key@),
    {
        if !self.pause_authority.is_signer {
            return Err(ErrorCode::Unauthorized);
        }
        if !self.rewarder.record.pause_authority.key_eq(&self.pause_authority.key) {
            return Err(ErrorCode::Unauthorized);
        }
        Ok(())
    }
}

// --------------------------------
// Rewarder instructions
// --------------------------------

/// Accounts of rewarder creation.
#[derive(Clone, Copy, Debug, PartialEq, Eq)]
pub struct NewRewarder {
    /// Seed key of the new rewarder; must have signed.
    pub base: SignerAccount,
    /// Address of the rewarder being created.
    pub rewarder: Key,
    /// The token account that will collect claim fees.
    pub claim_fee_token_account: Keyed<TokenAccount>,
    /// The mint of the reward token.
    pub rewards_token_mint: Key,
    /// The mint wrapper that will mint rewards.
    pub mint_wrapper: MintWrapper,
}

impl NewRewarder {
    /// The outcome of the chain: the base signed, the fee account is the
    /// canonical associated account of (rewarder, rewards mint), and the
    /// mint wrapper mints exactly the rewards mint.
    pub open spec fn spec_validate(self) -> Result<(), ErrorCode> {
        if !self.base.is_signer {
            Err(ErrorCode::Unauthorized)
        } else if self.claim_fee_token_account.address@ != ata_of(
            self.rewarder@,
            self.rewards_token_mint@,
        ) {
            Err(ErrorCode::AssociatedAccountMismatch)
        } else if self.mint_wrapper.token_mint@ != self.rewards_token_mint@ {
            Err(ErrorCode::KeyMismatch)
        } else {
            Ok(())
        }
    }

    /// Runs the creation chain.
    pub fn validate(&self) -> (r: Result<(), ErrorCode>)
        ensures
            r == self.spec_validate(),
    {
        if !self.base.is_signer {
            return Err(ErrorCode::Unauthorized);
        }
        let expected_fee_account = associated_token_address(&self.rewarder, &self.rewards_token_mint);
        if !self.claim_fee_token_account.address.key_eq(&expected_fee_account) {
            return Err(ErrorCode::AssociatedAccountMismatch);
        }
        if !self.mint_wrapper.token_mint.key_eq(&self.rewards_token_mint) {
            return Err(ErrorCode::KeyMismatch);
        }
        Ok(())
    }
}

/// Accounts of a pause-authority rotation.
#[derive(Clone, Copy, Debug, PartialEq, Eq)]
pub struct SetPauseAuthority {
    /// The rewarder under its current pause authority.
    pub auth: MutableRewarderWithPauseAuthority,
    /// The pause authority to install.
    pub new_pause_authority: Key,
}

impl SetPauseAuthority {
    /// The outcome of the chain: the pause-authority check, then the pause
    /// gate.
    pub open spec fn spec_validate(self) -> Result<(), ErrorCode> {
        if self.auth.spec_validate() is Err {
            self.auth.spec_validate()
        } else if self.auth.rewarder.record.is_paused {
            Err(ErrorCode::Paused)
        } else {
            Ok(())
        }
    }

    /// Runs the rotation chain.
    pub fn validate(&self) -> (r: Result<(), ErrorCode>)
        ensures
            r == self.spec_validate(),
    {
        let auth_check = self.auth.validate();
        if auth_check.is_err() {
            return auth_check;
        }
        if self.auth.rewarder.record.is_paused {
            return Err(ErrorCode::Paused);
        }
        Ok(())
    }
}

/// Accounts of an authority-transfer proposal.
#[derive(Clone, Copy, Debug, PartialEq, Eq)]
pub struct TransferAuthority {
    /// The current root authority; must have signed.
    pub authority: SignerAccount,
    /// The rewarder whose authority is to be transferred.
    pub rewarder: Keyed<Rewarder>,
}

impl TransferAuthority {
    /// The outcome of the chain: the pause gate, then the signature, then
    /// the root-authority match.
    pub open spec fn spec_validate(self) -> Result<(), ErrorCode> {
        if self.rewarder.record.is_paused {
            Err(ErrorCode::Paused)
        } else if !self.authority.is_signer {
            Err(ErrorCode::Unauthorized)
        } else if self.authority.key@ != self.rewarder.record.authority@ {
            Err(ErrorCode::Unauthorized)
        } else {
            Ok(())
        }
    }

    /// Runs the proposal chain.
    pub fn validate(&self) -> (r: Result<(), ErrorCode>)
        ensures
            r == self.spec_validate(),
            r is Ok <==> (!self.rewarder.record.is_paused && self.authority.is_signer
                && self.authority.key@ == self.rewarder.record.authority@),
    {
        if self.rewarder.record.is_paused {
            return Err(ErrorCode::Paused);
        }
        if !self.authority.is_signer {
            return Err(ErrorCode::Unauthorized);
        }
        if !self.authority.key.key_eq(&self.rewarder.record.authority) {
            return Err(ErrorCode::Unauthorized);
        }
        Ok(())
    }
}

/// Accounts of an authority-transfer acceptance.
#[derive(Clone, Copy, Debug, PartialEq, Eq)]
pub struct AcceptAuthority {
    /// The proposed successor; must have signed.
    pub authority: SignerAccount,
    /// The rewarder whose authority is being claimed.
    pub rewarder: Keyed<Rewarder>,
}

impl AcceptAuthority {
    /// The outcome of the chain: the pause gate, then an outstanding
    /// proposal, then the successor's signature, then the successor match.
    pub open spec fn spec_validate(self) -> Result<(), ErrorCode> {
        if self.rewarder.record.is_paused {
            Err(ErrorCode::Paused)
        } else if self.rewarder.record.pending_authority@ == zero_key() {
            Err(ErrorCode::PendingAuthorityNotSet)
        } else if !self.authority.is_signer {
            Err(ErrorCode::Unauthorized)
        } else if self.authority.key@ != self.rewarder.record.pending_authority@ {
            Err(ErrorCode::Unauthorized)
        } else {
            Ok(())
        }
    }

    /// Runs the acceptance chain.
    pub fn validate(&self) -> (r: Result<(), ErrorCode>)
        ensures
            r == self.spec_validate(),
            r is Ok <==> (!self.rewarder.record.is_paused
                && self.rewarder.record.pending_authority@ != zero_key()
                && self.authority.is_signer && self.authority.key@
                == self.rewarder.record.pending_authority@),
    {
        if self.rewarder.record.is_paused {
            return Err(ErrorCode::Paused);
        }
        if self.rewarder.record.pending_authority.is_zero() {
            return Err(ErrorCode::PendingAuthorityNotSet);
        }
        if !self.authority.is_signer {
            return Err(ErrorCode::Unauthorized);
        }
        if !self.authority.key.key_eq(&self.rewarder.record.pending_authority) {
            return Err(ErrorCode::Unauthorized);
        }
        Ok(())
    }
}

/// Accounts of an emission-rate change.
#[derive(Clone, Copy, Debug, PartialEq, Eq)]
pub struct SetAnnualRewards {
    /// The rewarder under its root authority.
    pub auth: MutableRewarderWithAuthority,
}

impl SetAnnualRewards {
    /// The outcome of the chain: the root-authority check, then the pause
    /// gate.
    pub open spec fn spec_validate(self) -> Result<(), ErrorCode> {
        if self.auth.spec_validate() is Err {
            self.auth.spec_validate()
        } else if self.auth.rewarder.record.is_paused {
            Err(ErrorCode::Paused)
        } else {
            Ok(())
        }
    }

    /// Runs the rate-change chain.
    pub fn validate(&self) -> (r: Result<(), ErrorCode>)
        ensures
            r == self.spec_validate(),
    {
        let auth_check = self.auth.validate();
        if auth_check.is_err() {
            return auth_check;
        }
        if self.auth.rewarder.record.is_paused {
            return Err(ErrorCode::Paused);
        }
        Ok(())
    }
}

// --------------------------------
// Quarry instructions
// --------------------------------

/// Accounts of quarry creation.
#[derive(Clone, Copy, Debug, PartialEq, Eq)]
pub struct CreateQuarry {
    /// The rewarder under its root authority.
    pub auth: MutableRewarderWithAuthority,
    /// Address of the quarry being created.
    pub quarry: Key,
    /// Update authority of the NFT collection allowed to stake in the new
    /// quarry.
    pub nft_update_authority: Key,
}

impl CreateQuarry {
    /// The outcome of the chain: the root-authority check, then the pause
    /// gate.
    pub open spec fn spec_validate(self) -> Result<(), ErrorCode> {
        if self.auth.spec_validate() is Err {
            self.auth.spec_validate()
        } else if self.auth.rewarder.record.is_paused {
            Err(ErrorCode::Paused)
        } else {
            Ok(())
        }
    }

    /// Runs the creation chain.
    pub fn validate(&self) -> (r: Result<(), ErrorCode>)
        ensures
            r == self.spec_validate(),
    {
        let auth_check = self.auth.validate();
        if auth_check.is_err() {
            return auth_check;
        }
        if self.auth.rewarder.record.is_paused {
            return Err(ErrorCode::Paused);
        }
        Ok(())
    }
}

/// Accounts of a rewards-share change.
#[derive(Clone, Copy, Debug, PartialEq, Eq)]
pub struct SetRewardsShare {
    /// The rewarder under its root authority.
    pub auth: MutableRewarderWithAuthority,
    /// The quarry whose share is changed.
    pub quarry: Keyed<Quarry>,
}

impl SetRewardsShare {
    /// The outcome of the chain: the root-authority check, the pause gate,
    /// then the quarry-to-rewarder binding.
    pub open spec fn spec_validate(self) -> Result<(), ErrorCode> {
        if self.auth.spec_validate() is Err {
            self.auth.spec_validate()
        } else if self.auth.rewarder.record.is_paused {
            Err(ErrorCode::Paused)
        } else if self.quarry.record.rewarder_key@ != self.auth.rewarder.address@ {
            Err(ErrorCode::KeyMismatch)
        } else {
            Ok(())
        }
    }

    /// Runs the share-change chain.
    pub fn validate(&self) -> (r: Result<(), ErrorCode>)
        ensures
            r == self.spec_validate(),
    {
        let auth_check = self.auth.validate();
        if auth_check.is_err() {
            return auth_check;
        }
        if self.auth.rewarder.record.is_paused {
            return Err(ErrorCode::Paused);
        }
        if !self.quarry.record.rewarder_key.key_eq(&self.auth.rewarder.address) {
            return Err(ErrorCode::KeyMismatch);
        }
        Ok(())
    }
}

/// Accounts of a famine-timestamp change.
#[derive(Clone, Copy, Debug, PartialEq, Eq)]
pub struct SetFamine {
    /// The rewarder under its root authority, read only.
    pub auth: ReadOnlyRewarderWithAuthority,
    /// The quarry whose famine timestamp is changed.
    pub quarry: Keyed<Quarry>,
}

impl SetFamine {
    /// The outcome of the chain: the root-authority check, the pause gate,
    /// then the quarry-to-rewarder binding.
    pub open spec fn spec_validate(self) -> Result<(), ErrorCode> {
        if self.auth.spec_validate() is Err {
            self.auth.spec_validate()
        } else if self.auth.rewarder.record.is_paused {
            Err(ErrorCode::Paused)
        } else if self.quarry.record.rewarder_key@ != self.auth.rewarder.address@ {
            Err(ErrorCode::KeyMismatch)
        } else {
            Ok(())
        }
    }

    /// Runs the famine chain.
    pub fn validate(&self) -> (r: Result<(), ErrorCode>)
        ensures
            r == self.spec_validate(),
    {
        let auth_check = self.auth.validate();
        if auth_check.is_err() {
            return auth_check;
        }
        if self.auth.rewarder.record.is_paused {
            return Err(ErrorCode::Paused);
        }
        if !self.quarry.record.rewarder_key.key_eq(&self.auth.rewarder.address) {
            return Err(ErrorCode::KeyMismatch);
        }
        Ok(())
    }
}

/// Accounts of a permissionless quarry-rewards refresh.
#[derive(Clone, Copy, Debug, PartialEq, Eq)]
pub struct UpdateQuarryRewards {
    /// The quarry being refreshed.
    pub quarry: Keyed<Quarry>,
    /// The rewarder the quarry claims to belong to.
    pub rewarder: Keyed<Rewarder>,
}

impl UpdateQuarryRewards {
    /// The outcome of the chain: the pause gate, then the quarry-to-rewarder
    /// binding.
    pub open spec fn spec_validate(self) -> Result<(), ErrorCode> {
        if self.rewarder.record.is_paused {
            Err(ErrorCode::Paused)
        } else if self.quarry.record.rewarder_key@ != self.rewarder.address@ {
            Err(ErrorCode::KeyMismatch)
        } else {
            Ok(())
        }
    }

    /// Runs the refresh chain.
    pub fn validate(&self) -> (r: Result<(), ErrorCode>)
        ensures
            r == self.spec_validate(),
    {
        if self.rewarder.record.is_paused {
            return Err(ErrorCode::Paused);
        }
        if !self.quarry.record.rewarder_key.key_eq(&self.rewarder.address) {
            return Err(ErrorCode::KeyMismatch);
        }
        Ok(())
    }
}

// --------------------------------
// Miner instructions
// --------------------------------

/// Accounts of miner creation.
#[derive(Clone, Copy, Debug, PartialEq, Eq)]
pub struct CreateMiner {
    /// The staking user the new miner will belong to.
    pub authority: Key,
    /// Address of the miner being created.
    pub miner: Key,
    /// The quarry staked into.
    pub quarry: Keyed<Quarry>,
    /// The rewarder the quarry claims to belong to.
    pub rewarder: Keyed<Rewarder>,
    /// Update authority of the NFT collection being staked.
    pub nft_update_authority: Key,
}

impl CreateMiner {
    /// The outcome of the chain: the pause gate, the collection-authority
    /// match, then the quarry-to-rewarder binding.
    pub open spec fn spec_validate(self) -> Result<(), ErrorCode> {
        if self.rewarder.record.is_paused {
            Err(ErrorCode::Paused)
        } else if self.nft_update_authority@ != self.quarry.record.nft_update_authority@ {
            Err(ErrorCode::KeyMismatch)
        } else if self.quarry.record.rewarder_key@ != self.rewarder.address@ {
            Err(ErrorCode::KeyMismatch)
        } else {
            Ok(())
        }
    }

    /// Runs the creation chain.
    pub fn validate(&self) -> (r: Result<(), ErrorCode>)
        ensures
            r == self.spec_validate(),
    {
        if self.rewarder.record.is_paused {
            return Err(ErrorCode::Paused);
        }
        if !self.nft_update_authority.key_eq(&self.quarry.record.nft_update_authority) {
            return Err(ErrorCode::KeyMismatch);
        }
        if !self.quarry.record.rewarder_key.key_eq(&self.rewarder.address) {
            return Err(ErrorCode::KeyMismatch);
        }
        Ok(())
    }
}

// --------------------------------
// Stake and claim instructions
// --------------------------------

/// Accounts of a user stake or unstake.
#[derive(Clone, Copy, Debug, PartialEq, Eq)]
pub struct UserStake {
    /// The staking user; must have signed.
    pub authority: SignerAccount,
    /// The user's stake position.
    pub miner: Keyed<Miner>,
    /// The quarry staked into.
    pub quarry: Keyed<Quarry>,
    /// The vault holding the miner's staked NFT.
    pub miner_nft_vault: Keyed<TokenAccount>,
    /// The user's own token account for the staked NFT.
    pub token_account: Keyed<TokenAccount>,
    /// The external metadata record of the staked NFT.
    pub token_metadata: Keyed<Metadata>,
    /// The mint of the staked NFT.
    pub token_mint: Key,
    /// The rewarder the quarry claims to belong to.
    pub rewarder: Keyed<Rewarder>,
}

impl UserStake {
    /// The outcome of the richest chain: the metadata record's address must
    /// re-derive from (tag, metadata program, NFT mint, bump); both token
    /// accounts must be canonical associated accounts; the pause gate, the
    /// user's signature and position ownership, the quarry and vault
    /// bindings, and the three-way collection-authority consistency must
    /// all hold.
    pub open spec fn spec_validate(self, metadata_bump: u8) -> Result<(), ErrorCode> {
        if expected_metadata_address(self.token_mint@, metadata_bump) is None {
            Err(ErrorCode::KeyMismatch)
        } else if Some(self.token_metadata.address@) != expected_metadata_address(
            self.token_mint@,
            metadata_bump,
        ) {
            Err(ErrorCode::KeyMismatch)
        } else if self.miner_nft_vault.address@ != ata_of(self.miner.address@, self.token_mint@) {
            Err(ErrorCode::AssociatedAccountMismatch)
        } else if self.token_account.address@ != ata_of(self.authority.key@, self.token_mint@) {
            Err(ErrorCode::AssociatedAccountMismatch)
        } else if self.rewarder.record.is_paused {
            Err(ErrorCode::Paused)
        } else if !self.authority.is_signer {
            Err(ErrorCode::Unauthorized)
        } else if self.authority.key@ != self.miner.record.authority@ {
            Err(ErrorCode::Unauthorized)
        } else if self.miner.record.quarry_key@ != self.quarry.address@ {
            Err(ErrorCode::KeyMismatch)
        } else if self.miner_nft_vault.record.owner@ != self.miner.address@ {
            Err(ErrorCode::KeyMismatch)
        } else if self.token_account.record.owner@ != self.authority.key@ {
            Err(ErrorCode::KeyMismatch)
        } else if self.token_metadata.record.update_authority@
            != self.miner.record.nft_update_authority@ {
            Err(ErrorCode::KeyMismatch)
        } else if self.token_metadata.record.update_authority@
            != self.quarry.record.nft_update_authority@ {
            Err(ErrorCode::KeyMismatch)
        } else if self.quarry.record.rewarder_key@ != self.rewarder.address@ {
            Err(ErrorCode::KeyMismatch)
        } else {
            Ok(())
        }
    }

    /// Runs the stake chain with the supplied metadata bump.
    pub fn validate(&self, metadata_bump: u8) -> (r: Result<(), ErrorCode>)
        ensures
            r == self.spec_validate(metadata_bump),
    {
        let expected_metadata = match derive_metadata_address(&self.token_mint, metadata_bump) {
            Some(k) => k,
            None => {
                return Err(ErrorCode::KeyMismatch);
            },
        };
        if !self.token_metadata.address.key_eq(&expected_metadata) {
            return Err(ErrorCode::KeyMismatch);
        }
        let expected_vault = associated_token_address(&self.miner.address, &self.token_mint);
        if !self.miner_nft_vault.address.key_eq(&expected_vault) {
            return Err(ErrorCode::AssociatedAccountMismatch);
        }
        let expected_user_account = associated_token_address(&self.authority.key, &self.token_mint);
        if !self.token_account.address.key_eq(&expected_user_account) {
            return Err(ErrorCode::AssociatedAccountMismatch);
        }
        if self.rewarder.record.is_paused {
            return Err(ErrorCode::Paused);
        }
        if !self.authority.is_signer {
            return Err(ErrorCode::Unauthorized);
        }
        if !self.authority.key.key_eq(&self.miner.record.authority) {
            return Err(ErrorCode::Unauthorized);
        }
        if !self.miner.record.quarry_key.key_eq(&self.quarry.address) {
            return Err(ErrorCode::KeyMismatch);
        }
        if !self.miner_nft_vault.record.owner.key_eq(&self.miner.address) {
            return Err(ErrorCode::KeyMismatch);
        }
        if !self.token_account.record.owner.key_eq(&self.authority.key) {
            return Err(ErrorCode::KeyMismatch);
        }
        if !self.token_metadata.record.update_authority.key_eq(&self.miner.record.nft_update_authority) {
            return Err(ErrorCode::KeyMismatch);
        }
        if !self.token_metadata.record.update_authority.key_eq(&self.quarry.record.nft_update_authority) {
            return Err(ErrorCode::KeyMismatch);
        }
        if !self.quarry.record.rewarder_key.key_eq(&self.rewarder.address) {
            return Err(ErrorCode::KeyMismatch);
        }
        Ok(())
    }
}

/// Accounts of a rewards claim.
#[derive(Clone, Copy, Debug, PartialEq, Eq)]
pub struct ClaimRewards {
    /// The full stake chain, re-validated.
    pub stake: UserStake,
    /// The mint wrapper that mints the rewards.
    pub mint_wrapper: Keyed<MintWrapper>,
    /// The minting allowance used for the claim.
    pub minter: Minter,
    /// The reward-token mint.
    pub rewards_token_mint: Keyed<TokenMint>,
    /// The account the claimed rewards are paid into.
    pub rewards_token_account: Keyed<TokenAccount>,
    /// The rewarder's fee-collection account.
    pub claim_fee_token_account: Keyed<TokenAccount>,
}

impl ClaimRewards {
    /// The outcome of the chain: the full stake chain, the pause gate, and
    /// the minting web — wrapper to mint, allowance to rewarder, mint to
    /// rewarder record, mint authority to wrapper, payout and fee accounts
    /// to the mint and the recorded fee account.
    pub open spec fn spec_validate(self, metadata_bump: u8) -> Result<(), ErrorCode> {
        if self.stake.spec_validate(metadata_bump) is Err {
            self.stake.spec_validate(metadata_bump)
        } else if self.stake.rewarder.record.is_paused {
            Err(ErrorCode::Paused)
        } else if self.mint_wrapper.record.token_mint@ != self.rewards_token_mint.address@ {
            Err(ErrorCode::KeyMismatch)
        } else if self.minter.minter_authority@ != self.stake.rewarder.address@ {
            Err(ErrorCode::KeyMismatch)
        } else if self.rewards_token_mint.address@
            != self.stake.rewarder.record.rewards_token_mint@ {
            Err(ErrorCode::KeyMismatch)
        } else if match self.rewards_token_mint.record.mint_authority {
            Some(a) => a@ != self.mint_wrapper.address@,
            None => true,
        } {
            Err(ErrorCode::KeyMismatch)
        } else if self.rewards_token_account.record.mint@ != self.rewards_token_mint.address@ {
            Err(ErrorCode::KeyMismatch)
        } else if self.claim_fee_token_account.address@
            != self.stake.rewarder.record.claim_fee_token_account@ {
            Err(ErrorCode::KeyMismatch)
        } else if self.claim_fee_token_account.record.mint@ != self.rewards_token_mint.address@ {
            Err(ErrorCode::KeyMismatch)
        } else {
            Ok(())
        }
    }

    /// Runs the claim chain with the supplied metadata bump.
    pub fn validate(&self, metadata_bump: u8) -> (r: Result<(), ErrorCode>)
        ensures
            r == self.spec_validate(metadata_bump),
    {
        let stake_check = self.stake.validate(metadata_bump);
        if stake_check.is_err() {
            return stake_check;
        }
        if self.stake.rewarder.record.is_paused {
            return Err(ErrorCode::Paused);
        }
        if !self.mint_wrapper.record.token_mint.key_eq(&self.rewards_token_mint.address) {
            return Err(ErrorCode::KeyMismatch);
        }
        if !self.minter.minter_authority.key_eq(&self.stake.rewarder.address) {
            return Err(ErrorCode::KeyMismatch);
        }
        if !self.rewards_token_mint.address.key_eq(&self.stake.rewarder.record.rewards_token_mint) {
            return Err(ErrorCode::KeyMismatch);
        }
        let authority_matches = match &self.rewards_token_mint.record.mint_authority {
            Some(a) => a.key_eq(&self.mint_wrapper.address),
            None => false,
        };
        if !authority_matches {
            return Err(ErrorCode::KeyMismatch);
        }
        if !self.rewards_token_account.record.mint.key_eq(&self.rewards_token_mint.address) {
            return Err(ErrorCode::KeyMismatch);
        }
        if !self.claim_fee_token_account.address.key_eq(
            &self.stake.rewarder.record.claim_fee_token_account,
        ) {
            return Err(ErrorCode::KeyMismatch);
        }
        if !self.claim_fee_token_account.record.mint.key_eq(&self.rewards_token_mint.address) {
            return Err(ErrorCode::KeyMismatch);
        }
        Ok(())
    }
}

/// Accounts of a user claim without token movement.
#[derive(Clone, Copy, Debug, PartialEq, Eq)]
pub struct UserClaim {
    /// The staking user; must have signed.
    pub authority: SignerAccount,
    /// The user's stake position.
    pub miner: Keyed<Miner>,
    /// The quarry staked into.
    pub quarry: Keyed<Quarry>,
    /// The rewarder the quarry claims to belong to.
    pub rewarder: Keyed<Rewarder>,
}

impl UserClaim {
    /// The outcome of the chain: the pause gate, the user's signature and
    /// position ownership, then the quarry and rewarder bindings.
    pub open spec fn spec_validate(self) -> Result<(), ErrorCode> {
        if self.rewarder.record.is_paused {
            Err(ErrorCode::Paused)
        } else if !self.authority.is_signer {
            Err(ErrorCode::Unauthorized)
        } else if self.authority.key@ != self.miner.record.authority@ {
            Err(ErrorCode::Unauthorized)
        } else if self.miner.record.quarry_key@ != self.quarry.address@ {
            Err(ErrorCode::KeyMismatch)
        } else if self.quarry.record.rewarder_key@ != self.rewarder.address@ {
            Err(ErrorCode::KeyMismatch)
        } else {
            Ok(())
        }
    }

    /// Runs the claim chain.
    pub fn validate(&self) -> (r: Result<(), ErrorCode>)
        ensures
            r == self.spec_validate(),
    {
        if self.rewarder.record.is_paused {
            return Err(ErrorCode::Paused);
        }
        if !self.authority.is_signer {
            return Err(ErrorCode::Unauthorized);
        }
        if !self.authority.key.key_eq(&self.miner.record.authority) {
            return Err(ErrorCode::Unauthorized);
        }
        if !self.miner.record.quarry_key.key_eq(&self.quarry.address) {
            return Err(ErrorCode::KeyMismatch);
        }
        if !self.quarry.record.rewarder_key.key_eq(&self.rewarder.address) {
            return Err(ErrorCode::KeyMismatch);
        }
        Ok(())
    }
}

// --------------------------------
// Fee extraction
// --------------------------------

/// Accounts of a fee sweep to the protocol's fixed fee recipient.
#[derive(Clone, Copy, Debug, PartialEq, Eq)]
pub struct ExtractFees {
    /// The rewarder whose accumulated fees are swept.
    pub rewarder: Keyed<Rewarder>,
    /// The rewarder's fee-collection account.
    pub claim_fee_token_account: Keyed<TokenAccount>,
    /// The destination token account.
    pub fee_to_token_account: Keyed<TokenAccount>,
    /// The protocol's fixed fee-recipient wallet, configured at deployment.
    pub fee_recipient: Key,
}

impl ExtractFees {
    /// The outcome of the chain: the pause gate; the fee-collection account
    /// is the canonical associated account of (rewarder, rewards mint) and
    /// holds the rewards mint; the destination holds the rewards mint, is
    /// owned by the fixed fee recipient, and is that recipient's canonical
    /// associated account.
    pub open spec fn spec_validate(self) -> Result<(), ErrorCode> {
        if self.rewarder.record.is_paused {
            Err(ErrorCode::Paused)
        } else if self.claim_fee_token_account.address@ != ata_of(
            self.rewarder.address@,
            self.rewarder.record.rewards_token_mint@,
        ) {
            Err(ErrorCode::AssociatedAccountMismatch)
        } else if self.claim_fee_token_account.record.mint@
            != self.rewarder.record.rewards_token_mint@ {
            Err(ErrorCode::KeyMismatch)
        } else if self.fee_to_token_account.record.mint@
            != self.rewarder.record.rewards_token_mint@ {
            Err(ErrorCode::KeyMismatch)
        } else if self.fee_to_token_account.record.owner@ != self.fee_recipient@ {
            Err(ErrorCode::KeyMismatch)
        } else if self.fee_to_token_account.address@ != ata_of(
            self.fee_recipient@,
            self.rewarder.record.rewards_token_mint@,
        ) {
            Err(ErrorCode::AssociatedAccountMismatch)
        } else {
            Ok(())
        }
    }

    /// Runs the sweep chain.
    pub fn validate(&self) -> (r: Result<(), ErrorCode>)
        ensures
            r == self.spec_validate(),
    {
        if self.rewarder.record.is_paused {
            return Err(ErrorCode::Paused);
        }
        let expected_fee_account = associated_token_address(
            &self.rewarder.address,
            &self.rewarder.record.rewards_token_mint,
        );
        if !self.claim_fee_token_account.address.key_eq(&expected_fee_account) {
            return Err(ErrorCode::AssociatedAccountMismatch);
        }
        if !self.claim_fee_token_account.record.mint.key_eq(&self.rewarder.record.rewards_token_mint) {
            return Err(ErrorCode::KeyMismatch);
        }
        if !self.fee_to_token_account.record.mint.key_eq(&self.rewarder.record.rewards_token_mint) {
            return Err(ErrorCode::KeyMismatch);
        }
        if !self.fee_to_token_account.record.owner.key_eq(&self.fee_recipient) {
            return Err(ErrorCode::KeyMismatch);
        }
        let expected_destination = associated_token_address(
            &self.fee_recipient,
            &self.rewarder.record.rewards_token_mint,
        );
        if !self.fee_to_token_account.address.key_eq(&expected_destination) {
            return Err(ErrorCode::AssociatedAccountMismatch);
        }
        Ok(())
    }
}

} // verus!

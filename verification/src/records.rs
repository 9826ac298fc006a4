//! The typed records of the protocol and the account references that
//! instructions receive.
//!
//! Every instruction gets exclusive access to the records it names; a record
//! travels together with the address it is stored at, since nearly every
//! validation is an equality between a stored key field and another record's
//! address.

use vstd::prelude::*;
use crate::key::Key;

verus! {

/// A record together with the address it is stored at.
#[derive(Clone, Copy, Debug, PartialEq, Eq)]
pub struct Keyed<T> {
    /// The address of the account holding the record.
    pub address: Key,
    /// The record itself.
    pub record: T,
}

/// A transaction account reference: an address plus whether the
/// transaction carries a signature for it.
#[derive(Clone, Copy, Debug, PartialEq, Eq)]
pub struct SignerAccount {
    /// The address of the account.
    pub key: Key,
    /// Whether the transaction was signed by this account's secret key.
    pub is_signer: bool,
}

/// Protocol root configuration for one reward-token economy.
#[derive(Clone, Copy, Debug, PartialEq, Eq)]
pub struct Rewarder {
    /// Current root owner; every root-privileged instruction requires this
    /// exact signer.
    pub authority: Key,
    /// Proposed successor of `authority`; the all-zero key when no transfer
    /// is outstanding.
    pub pending_authority: Key,
    /// May toggle `is_paused`.
    pub pause_authority: Key,
    /// Gates nearly every mutating operation project-wide.
    pub is_paused: bool,
    /// The mint of the reward token.
    pub rewards_token_mint: Key,
    /// The canonical token account that accumulates claim fees.
    pub claim_fee_token_account: Key,
    /// Annual emission rate of the reward token.
    pub annual_rewards_rate: u64,
}

/// One reward-emitting pool, owned by exactly one rewarder.
#[derive(Clone, Copy, Debug, PartialEq, Eq)]
pub struct Quarry {
    /// Address of the owning rewarder; checked against the rewarder record
    /// passed into every instruction that references this quarry.
    pub rewarder_key: Key,
    /// Update authority of the NFT collection allowed to stake here.
    pub nft_update_authority: Key,
    /// Share of the rewarder's emission allotted to this quarry.
    pub rewards_share: u64,
    /// Timestamp after which emission for this quarry is forced to zero.
    pub famine_ts: i64,
}

/// One user's stake position in one quarry.
#[derive(Clone, Copy, Debug, PartialEq, Eq)]
pub struct Miner {
    /// Address of the quarry this position belongs to.
    pub quarry_key: Key,
    /// The staking user; required signer of every user-initiated mutation.
    pub authority: Key,
    /// NFT collection authority recorded at creation.
    pub nft_update_authority: Key,
}

/// A delegation record scoping administrative power over one rewarder.
#[derive(Clone, Copy, Debug, PartialEq, Eq)]
pub struct Operator {
    /// Seed key the operator's own address is derived from.
    pub base: Key,
    /// Disambiguator of the address derivation.
    pub bump: u8,
    /// Address of the governed rewarder.
    pub rewarder: Key,
    /// May reassign the three role fields below and itself.
    pub admin: Key,
    /// May set the rewarder's annual emission rate.
    pub rate_setter: Key,
    /// May create quarries under the rewarder.
    pub quarry_creator: Key,
    /// May set a quarry's rewards share.
    pub share_allocator: Key,
    /// When the operator was last modified.
    pub last_modified_ts: i64,
    /// Sequence number of the role set, incremented exactly once per
    /// successful mutation; lets an external reader detect staleness.
    pub generation: u64,
}

/// The two fields of a token account that this core inspects.
#[derive(Clone, Copy, Debug, PartialEq, Eq)]
pub struct TokenAccount {
    /// The wallet that owns the tokens in the account.
    pub owner: Key,
    /// The mint of the token the account holds.
    pub mint: Key,
}

/// The one field of a token mint that this core inspects.
#[derive(Clone, Copy, Debug, PartialEq, Eq)]
pub struct TokenMint {
    /// The authority allowed to mint new tokens, if any.
    pub mint_authority: Option<Key>,
}

/// A wrapper around the reward-token mint that performs the actual minting.
#[derive(Clone, Copy, Debug, PartialEq, Eq)]
pub struct MintWrapper {
    /// The mint the wrapper mints.
    pub token_mint: Key,
}

/// A minting allowance handed out by a mint wrapper.
#[derive(Clone, Copy, Debug, PartialEq, Eq)]
pub struct Minter {
    /// Who the allowance was issued to.
    pub minter_authority: Key,
}

/// The two fields of an external NFT-metadata record that this core reads.
///
/// The full external format is not modelled; the embedding deserializes the
/// record and hands these fields over.
#[derive(Clone, Copy, Debug, PartialEq, Eq)]
pub struct Metadata {
    /// The authority that may update the NFT's metadata; identifies the
    /// collection.
    pub update_authority: Key,
    /// The mint of the NFT the record describes.
    pub mint: Key,
}

} // verus!

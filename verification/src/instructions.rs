//! The state mutations gated by the validation chains.
//!
//! Each handler runs its context's full validation chain first and mutates
//! only on success; a failed chain leaves every record exactly as it was.
//! Each handler has a spec twin giving the exact result and post-state, and
//! the executable handler is proved to realize its twin.

use vstd::prelude::*;
use crate::error::ErrorCode;
use crate::key::{zero_key_val, Key};
use crate::records::{Keyed, Miner, Quarry, Rewarder};
use crate::validators::{
    AcceptAuthority, CreateMiner, CreateQuarry, MutableRewarderWithAuthority,
    MutableRewarderWithPauseAuthority, SetAnnualRewards, SetFamine, SetPauseAuthority,
    SetRewardsShare, TransferAuthority,
};

verus! {

// --------------------------------
// Authority transfer (two-phase)
// --------------------------------

/// Result and post-state of an authority-transfer proposal: on success the
/// proposed successor is recorded as pending, nothing else changes.
pub open spec fn spec_transfer_authority(pre: TransferAuthority, new_authority: Key) -> (Result<
    (),
    ErrorCode,
>, TransferAuthority) {
    match pre.spec_validate() {
        Ok(()) => (
            Ok(()),
            TransferAuthority {
                rewarder: Keyed {
                    record: Rewarder { pending_authority: new_authority, ..pre.rewarder.record },
                    ..pre.rewarder
                },
                ..pre
            },
        ),
        Err(e) => (Err(e), pre),
    }
}

/// Proposes a successor for the rewarder's root authority.
///
/// The successor must later claim the role itself; this prevents an
/// accidental transfer to an unreachable key.
pub fn transfer_authority(ctx: &mut TransferAuthority, new_authority: Key) -> (r: Result<
    (),
    ErrorCode,
>)
    ensures
        (r, *final(ctx)) == spec_transfer_authority(*old(ctx), new_authority),
{
    let check = ctx.validate();
    if check.is_err() {
        return check;
    }
    ctx.rewarder.record.pending_authority = new_authority;
    Ok(())
}

/// Result and post-state of an authority-transfer acceptance: on success
/// the proposed successor becomes the authority and the pending slot is
/// cleared, nothing else changes.
pub open spec fn spec_accept_authority(pre: AcceptAuthority) -> (Result<(), ErrorCode>, AcceptAuthority) {
    match pre.spec_validate() {
        Ok(()) => (
            Ok(()),
            AcceptAuthority {
                rewarder: Keyed {
                    record: Rewarder {
                        authority: pre.rewarder.record.pending_authority,
                        pending_authority: zero_key_val(),
                        ..pre.rewarder.record
                    },
                    ..pre.rewarder
                },
                ..pre
            },
        ),
        Err(e) => (Err(e), pre),
    }
}

/// Commits an outstanding authority transfer, signed by the proposed
/// successor.
pub fn accept_authority(ctx: &mut AcceptAuthority) -> (r: Result<(), ErrorCode>)
    ensures
        (r, *final(ctx)) == spec_accept_authority(*old(ctx)),
{
    let check = ctx.validate();
    if check.is_err() {
        return check;
    }
    ctx.rewarder.record.authority = ctx.rewarder.record.pending_authority;
    ctx.rewarder.record.pending_authority = Key::zero();
    Ok(())
}

// --------------------------------
// Pause control
// --------------------------------

/// Result and post-state of a pause-authority rotation.
pub open spec fn spec_set_pause_authority(pre: SetPauseAuthority) -> (Result<(), ErrorCode>, SetPauseAuthority) {
    match pre.spec_validate() {
        Ok(()) => (
            Ok(()),
            SetPauseAuthority {
                auth: MutableRewarderWithPauseAuthority {
                    rewarder: Keyed {
                        record: Rewarder {
                            pause_authority: pre.new_pause_authority,
                            ..pre.auth.rewarder.record
                        },
                        ..pre.auth.rewarder
                    },
                    ..pre.auth
                },
                ..pre
            },
        ),
        Err(e) => (Err(e), pre),
    }
}

/// Rotates the rewarder's pause authority.
pub fn set_pause_authority(ctx: &mut SetPauseAuthority) -> (r: Result<(), ErrorCode>)
    ensures
        (r, *final(ctx)) == spec_set_pause_authority(*old(ctx)),
{
    let check = ctx.validate();
    if check.is_err() {
        return check;
    }
    ctx.auth.rewarder.record.pause_authority = ctx.new_pause_authority;
    Ok(())
}

/// Result and post-state of setting the pause flag to a given value.
pub open spec fn spec_set_paused(pre: MutableRewarderWithPauseAuthority, paused: bool) -> (Result<
    (),
    ErrorCode,
>, MutableRewarderWithPauseAuthority) {
    match pre.spec_validate() {
        Ok(()) => (
            Ok(()),
            MutableRewarderWithPauseAuthority {
                rewarder: Keyed {
                    record: Rewarder { is_paused: paused, ..pre.rewarder.record },
                    ..pre.rewarder
                },
                ..pre
            },
        ),
        Err(e) => (Err(e), pre),
    }
}

/// Pauses the rewarder; only the pause authority may.
pub fn pause(ctx: &mut MutableRewarderWithPauseAuthority) -> (r: Result<(), ErrorCode>)
    ensures
        (r, *final(ctx)) == spec_set_paused(*old(ctx), true),
{
    let check = ctx.validate();
    if check.is_err() {
        return check;
    }
    ctx.rewarder.record.is_paused = true;
    Ok(())
}

/// Unpauses the rewarder; only the pause authority may.
pub fn unpause(ctx: &mut MutableRewarderWithPauseAuthority) -> (r: Result<(), ErrorCode>)
    ensures
        (r, *final(ctx)) == spec_set_paused(*old(ctx), false),
{
    let check = ctx.validate();
    if check.is_err() {
        return check;
    }
    ctx.rewarder.record.is_paused = false;
    Ok(())
}

// --------------------------------
// Emission control
// --------------------------------

/// The rewarder record after an emission-rate change.
pub open spec fn spec_apply_annual_rate(rw: Rewarder, new_rate: u64) -> Rewarder {
    Rewarder { annual_rewards_rate: new_rate, ..rw }
}

/// Result and post-state of an emission-rate change.
pub open spec fn spec_set_annual_rewards(pre: SetAnnualRewards, new_rate: u64) -> (Result<
    (),
    ErrorCode,
>, SetAnnualRewards) {
    match pre.spec_validate() {
        Ok(()) => (
            Ok(()),
            SetAnnualRewards {
                auth: MutableRewarderWithAuthority {
                    rewarder: Keyed {
                        record: spec_apply_annual_rate(pre.auth.rewarder.record, new_rate),
                        ..pre.auth.rewarder
                    },
                    ..pre.auth
                },
            },
        ),
        Err(e) => (Err(e), pre),
    }
}

/// Updates the rewarder's annual emission rate.
pub fn set_annual_rewards(ctx: &mut SetAnnualRewards, new_rate: u64) -> (r: Result<(), ErrorCode>)
    ensures
        (r, *final(ctx)) == spec_set_annual_rewards(*old(ctx), new_rate),
{
    let check = ctx.validate();
    if check.is_err() {
        return check;
    }
    ctx.auth.rewarder.record.annual_rewards_rate = new_rate;
    Ok(())
}

// --------------------------------
// Quarry lifecycle
// --------------------------------

/// The quarry record that creation yields: bound to the rewarder, gated to
/// the named collection, with no share and no famine.
pub open spec fn spec_new_quarry(pre: CreateQuarry) -> Quarry {
    Quarry {
        rewarder_key: pre.auth.rewarder.address,
        nft_update_authority: pre.nft_update_authority,
        rewards_share: 0u64,
        famine_ts: 0i64,
    }
}

/// Result of quarry creation.
pub open spec fn spec_create_quarry(pre: CreateQuarry) -> Result<Quarry, ErrorCode> {
    match pre.spec_validate() {
        Ok(()) => Ok(spec_new_quarry(pre)),
        Err(e) => Err(e),
    }
}

/// Allocates a new quarry under the rewarder.
pub fn create_quarry(ctx: &CreateQuarry) -> (r: Result<Quarry, ErrorCode>)
    ensures
        r == spec_create_quarry(*ctx),
{
    let check = ctx.validate();
    if let Err(e) = check {
        return Err(e);
    }
    Ok(
        Quarry {
            rewarder_key: ctx.auth.rewarder.address,
            nft_update_authority: ctx.nft_update_authority,
            rewards_share: 0u64,
            famine_ts: 0i64,
        },
    )
}

/// The quarry record after a rewards-share change.
pub open spec fn spec_apply_rewards_share(q: Quarry, new_share: u64) -> Quarry {
    Quarry { rewards_share: new_share, ..q }
}

/// Result and post-state of a rewards-share change.
pub open spec fn spec_set_rewards_share(pre: SetRewardsShare, new_share: u64) -> (Result<
    (),
    ErrorCode,
>, SetRewardsShare) {
    match pre.spec_validate() {
        Ok(()) => (
            Ok(()),
            SetRewardsShare {
                quarry: Keyed {
                    record: spec_apply_rewards_share(pre.quarry.record, new_share),
                    ..pre.quarry
                },
                ..pre
            },
        ),
        Err(e) => (Err(e), pre),
    }
}

/// Updates a quarry's share of the rewarder's emission.
pub fn set_rewards_share(ctx: &mut SetRewardsShare, new_share: u64) -> (r: Result<(), ErrorCode>)
    ensures
        (r, *final(ctx)) == spec_set_rewards_share(*old(ctx), new_share),
{
    let check = ctx.validate();
    if check.is_err() {
        return check;
    }
    ctx.quarry.record.rewards_share = new_share;
    Ok(())
}

/// Result and post-state of a famine-timestamp change.
pub open spec fn spec_set_famine(pre: SetFamine, famine_ts: i64) -> (Result<(), ErrorCode>, SetFamine) {
    match pre.spec_validate() {
        Ok(()) => (
            Ok(()),
            SetFamine {
                quarry: Keyed {
                    record: Quarry { famine_ts, ..pre.quarry.record },
                    ..pre.quarry
                },
                ..pre
            },
        ),
        Err(e) => (Err(e), pre),
    }
}

/// Forces a quarry's emission to zero after the given timestamp.
pub fn set_famine(ctx: &mut SetFamine, famine_ts: i64) -> (r: Result<(), ErrorCode>)
    ensures
        (r, *final(ctx)) == spec_set_famine(*old(ctx), famine_ts),
{
    let check = ctx.validate();
    if check.is_err() {
        return check;
    }
    ctx.quarry.record.famine_ts = famine_ts;
    Ok(())
}

// --------------------------------
// Miner lifecycle
// --------------------------------

/// The miner record that creation yields: bound to the quarry, owned by the
/// staking user, with the collection authority copied from the check.
pub open spec fn spec_new_miner(pre: CreateMiner) -> Miner {
    Miner {
        quarry_key: pre.quarry.address,
        authority: pre.authority,
        nft_update_authority: pre.nft_update_authority,
    }
}

/// Result of miner creation.
pub open spec fn spec_create_miner(pre: CreateMiner) -> Result<Miner, ErrorCode> {
    match pre.spec_validate() {
        Ok(()) => Ok(spec_new_miner(pre)),
        Err(e) => Err(e),
    }
}

/// Allocates a new miner for (quarry, staking user).
pub fn create_miner(ctx: &CreateMiner) -> (r: Result<Miner, ErrorCode>)
    ensures
        r == spec_create_miner(*ctx),
{
    let check = ctx.validate();
    if let Err(e) = check {
        return Err(e);
    }
    Ok(
        Miner {
            quarry_key: ctx.quarry.address,
            authority: ctx.authority,
            nft_update_authority: ctx.nft_update_authority,
        },
    )
}

} // verus!

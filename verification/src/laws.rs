//! The global guarantees of the validation and delegation layers, proved
//! from the specifications the instructions carry.

use vstd::prelude::*;
use crate::error::ErrorCode;
use crate::key::{lemma_zero_key_val_view, zero_key, Key};
use crate::instructions::{
    spec_accept_authority, spec_apply_annual_rate, spec_set_annual_rewards,
    spec_set_rewards_share, spec_transfer_authority,
};
use crate::operator::{
    spec_apply_role_change, spec_create_operator, spec_delegate_set_annual_rewards,
    CreateOperator, DelegateSetAnnualRewards, SetRole,
};
use crate::records::{Operator, SignerAccount};
use crate::validators::{
    AcceptAuthority, CreateMiner, ExtractFees, MutableRewarderWithAuthority,
    MutableRewarderWithPauseAuthority, ReadOnlyRewarderWithAuthority, SetAnnualRewards,
    SetFamine, SetPauseAuthority, SetRewardsShare, TransferAuthority, UpdateQuarryRewards,
    UserClaim, UserStake,
};

verus! {

// --------------------------------
// Pause gating
// --------------------------------

/// Law: while the rewarder is paused, proposing or accepting an authority
/// transfer, refreshing quarry rewards, creating a miner, or claiming as a
/// user fails with `Paused`, and a failed proposal or acceptance leaves
/// every record unchanged.
pub proof fn lemma_paused_blocks_rewarder_instructions(
    t: TransferAuthority,
    a: AcceptAuthority,
    u: UpdateQuarryRewards,
    m: CreateMiner,
    c: UserClaim,
    new_authority: Key,
)
    requires
        t.rewarder.record.is_paused,
        a.rewarder.record.is_paused,
        u.rewarder.record.is_paused,
        m.rewarder.record.is_paused,
        c.rewarder.record.is_paused,
    ensures
        spec_transfer_authority(t, new_authority) == (Err::<(), ErrorCode>(ErrorCode::Paused), t),
        spec_accept_authority(a) == (Err::<(), ErrorCode>(ErrorCode::Paused), a),
        u.spec_validate() == Err::<(), ErrorCode>(ErrorCode::Paused),
        m.spec_validate() == Err::<(), ErrorCode>(ErrorCode::Paused),
        c.spec_validate() == Err::<(), ErrorCode>(ErrorCode::Paused),
{
}

/// Law: while the rewarder is paused, every root-authority instruction —
/// rotating the pause authority, setting the emission rate, creating a
/// quarry, setting a share, setting a famine — fails with `Paused` once its
/// authority check passes, and the failed rate or share change leaves every
/// record unchanged.
pub proof fn lemma_paused_blocks_authority_instructions(
    p: SetPauseAuthority,
    r: SetAnnualRewards,
    q: crate::validators::CreateQuarry,
    s: SetRewardsShare,
    f: SetFamine,
    new_rate: u64,
    new_share: u64,
)
    requires
        p.auth.spec_validate() is Ok,
        p.auth.rewarder.record.is_paused,
        r.auth.spec_validate() is Ok,
        r.auth.rewarder.record.is_paused,
        q.auth.spec_validate() is Ok,
        q.auth.rewarder.record.is_paused,
        s.auth.spec_validate() is Ok,
        s.auth.rewarder.record.is_paused,
        f.auth.spec_validate() is Ok,
        f.auth.rewarder.record.is_paused,
    ensures
        p.spec_validate() == Err::<(), ErrorCode>(ErrorCode::Paused),
        r.spec_validate() == Err::<(), ErrorCode>(ErrorCode::Paused),
        q.spec_validate() == Err::<(), ErrorCode>(ErrorCode::Paused),
        f.spec_validate() == Err::<(), ErrorCode>(ErrorCode::Paused),
        spec_set_annual_rewards(r, new_rate) == (Err::<(), ErrorCode>(ErrorCode::Paused), r),
        spec_set_rewards_share(s, new_share) == (Err::<(), ErrorCode>(ErrorCode::Paused), s),
{
}

/// Law: while the rewarder is paused, a stake whose derivation and
/// associated-account checks pass still fails with `Paused`.
pub proof fn lemma_paused_blocks_stake(st: UserStake, metadata_bump: u8)
    requires
        Some(st.token_metadata.address@) == crate::pda::expected_metadata_address(
            st.token_mint@,
            metadata_bump,
        ),
        st.miner_nft_vault.address@ == crate::pda::ata_of(st.miner.address@, st.token_mint@),
        st.token_account.address@ == crate::pda::ata_of(st.authority.key@, st.token_mint@),
        st.rewarder.record.is_paused,
    ensures
        st.spec_validate(metadata_bump) == Err::<(), ErrorCode>(ErrorCode::Paused),
{
}

/// Law: while the rewarder is paused, a fee sweep fails with `Paused`.
pub proof fn lemma_paused_blocks_extract_fees(e: ExtractFees)
    requires
        e.rewarder.record.is_paused,
    ensures
        e.spec_validate() == Err::<(), ErrorCode>(ErrorCode::Paused),
{
}

// --------------------------------
// Authority checks
// --------------------------------

/// Law: a key that differs from another in even a single byte is a
/// different key.
pub proof fn lemma_byte_change_breaks_eq(a: Key, b: Key, i: int)
    requires
        0 <= i < 32,
        a@[i] != b@[i],
    ensures
        a@ != b@,
{
}

/// Law: a root-authority instruction not signed by the exact recorded
/// authority fails with `Unauthorized`, whether the transaction is
/// unsigned or signed by a key differing in as little as one byte.
pub proof fn lemma_wrong_authority_rejected(
    w: MutableRewarderWithAuthority,
    ro: ReadOnlyRewarderWithAuthority,
)
    requires
        !w.authority.is_signer || w.authority.key@ != w.rewarder.record.authority@,
        !ro.authority.is_signer || ro.authority.key@ != ro.rewarder.record.authority@,
    ensures
        w.spec_validate() == Err::<(), ErrorCode>(ErrorCode::Unauthorized),
        ro.spec_validate() == Err::<(), ErrorCode>(ErrorCode::Unauthorized),
{
}

/// Law: a pause toggle not signed by the exact recorded pause authority
/// fails with `Unauthorized`.
pub proof fn lemma_wrong_pause_authority_rejected(w: MutableRewarderWithPauseAuthority)
    requires
        !w.pause_authority.is_signer || w.pause_authority.key@
            != w.rewarder.record.pause_authority@,
    ensures
        w.spec_validate() == Err::<(), ErrorCode>(ErrorCode::Unauthorized),
{
}

/// Law: a role reassignment not signed by the operator's exact current
/// admin fails with `Unauthorized`.
pub proof fn lemma_wrong_admin_rejected(s: SetRole, now: i64)
    requires
        !s.admin.is_signer || s.admin.key@ != s.operator.record.admin@,
    ensures
        s.spec_validate() == Err::<(), ErrorCode>(ErrorCode::Unauthorized),
        forall|updated: Operator| #[trigger] spec_apply_role_change(s, updated, now) == (
            Err::<(), ErrorCode>(ErrorCode::Unauthorized),
            s,
        ),
{
}

/// Law: a user instruction not signed by the miner's exact recorded owner
/// fails with `Unauthorized`.
pub proof fn lemma_wrong_miner_authority_rejected(st: UserStake, c: UserClaim, metadata_bump: u8)
    requires
        Some(st.token_metadata.address@) == crate::pda::expected_metadata_address(
            st.token_mint@,
            metadata_bump,
        ),
        st.miner_nft_vault.address@ == crate::pda::ata_of(st.miner.address@, st.token_mint@),
        st.token_account.address@ == crate::pda::ata_of(st.authority.key@, st.token_mint@),
        !st.rewarder.record.is_paused,
        !st.authority.is_signer || st.authority.key@ != st.miner.record.authority@,
        !c.rewarder.record.is_paused,
        !c.authority.is_signer || c.authority.key@ != c.miner.record.authority@,
    ensures
        st.spec_validate(metadata_bump) == Err::<(), ErrorCode>(ErrorCode::Unauthorized),
        c.spec_validate() == Err::<(), ErrorCode>(ErrorCode::Unauthorized),
{
}

// --------------------------------
// Two-phase authority transfer
// --------------------------------

/// Law: accepting with no outstanding proposal fails with
/// `PendingAuthorityNotSet`; accepting under a signer other than the
/// proposed successor fails with `Unauthorized`; a successful acceptance
/// installs exactly the proposed key and clears the pending slot.
pub proof fn lemma_accept_authority_shape(a: AcceptAuthority)
    requires
        !a.rewarder.record.is_paused,
    ensures
        a.rewarder.record.pending_authority@ == zero_key() ==> spec_accept_authority(a) == (
            Err::<(), ErrorCode>(ErrorCode::PendingAuthorityNotSet),
            a,
        ),
        (a.rewarder.record.pending_authority@ != zero_key() && (!a.authority.is_signer
            || a.authority.key@ != a.rewarder.record.pending_authority@))
            ==> spec_accept_authority(a) == (Err::<(), ErrorCode>(ErrorCode::Unauthorized), a),
        a.spec_validate() is Ok ==> {
            let post = spec_accept_authority(a).1;
            &&& spec_accept_authority(a).0 is Ok
            &&& post.rewarder.record.authority == a.rewarder.record.pending_authority
            &&& post.rewarder.record.pending_authority@ == zero_key()
            &&& post.rewarder.record.is_paused == a.rewarder.record.is_paused
            &&& post.rewarder.address == a.rewarder.address
        },
{
    lemma_zero_key_val_view();
}

/// Law: a proposal by the current authority followed by an acceptance
/// signed by the proposed successor hands the authority over exactly, and
/// resets the pending slot to zero.
pub proof fn lemma_two_phase_round_trip(t: TransferAuthority, successor: SignerAccount)
    requires
        t.spec_validate() is Ok,
        successor.is_signer,
        successor.key@ != zero_key(),
    ensures
        ({
            let proposed = spec_transfer_authority(t, successor.key);
            let accepted = spec_accept_authority(
                AcceptAuthority { authority: successor, rewarder: proposed.1.rewarder },
            );
            &&& proposed.0 is Ok
            &&& accepted.0 is Ok
            &&& accepted.1.rewarder.record.authority == successor.key
            &&& accepted.1.rewarder.record.pending_authority@ == zero_key()
        }),
{
    lemma_zero_key_val_view();
}

// --------------------------------
// Generation counter
// --------------------------------

/// Law: every successful role change steps the operator's generation by
/// exactly one and never otherwise alters it; when the counter is at its
/// maximum the change aborts with `ArithmeticOverflow` and the record is
/// left unchanged; and a freshly created operator starts at generation one.
pub proof fn lemma_generation_steps_by_one(
    s: SetRole,
    updated: Operator,
    now: i64,
    co: CreateOperator,
    bump: u8,
)
    requires
        updated.generation == s.operator.record.generation,
    ensures
        ({
            let stepped = spec_apply_role_change(s, updated, now);
            &&& stepped.0 is Ok ==> stepped.1.operator.record.generation
                == s.operator.record.generation + 1
            &&& (s.spec_validate() is Ok && s.operator.record.generation == u64::MAX) ==> stepped
                == (Err::<(), ErrorCode>(ErrorCode::ArithmeticOverflow), s)
        }),
        spec_create_operator(co, bump, now).0 matches Ok(op) ==> op.generation == 1,
{
}

// --------------------------------
// Stake-chain consistency
// --------------------------------

/// Law: a stake whose metadata record's update authority differs from the
/// quarry's recorded collection authority fails with `KeyMismatch`,
/// regardless of whether the miner's own recorded collection authority
/// happens to match the metadata.
pub proof fn lemma_rotated_collection_rejected(st: UserStake, metadata_bump: u8)
    requires
        Some(st.token_metadata.address@) == crate::pda::expected_metadata_address(
            st.token_mint@,
            metadata_bump,
        ),
        st.miner_nft_vault.address@ == crate::pda::ata_of(st.miner.address@, st.token_mint@),
        st.token_account.address@ == crate::pda::ata_of(st.authority.key@, st.token_mint@),
        !st.rewarder.record.is_paused,
        st.authority.is_signer,
        st.authority.key@ == st.miner.record.authority@,
        st.miner.record.quarry_key@ == st.quarry.address@,
        st.miner_nft_vault.record.owner@ == st.miner.address@,
        st.token_account.record.owner@ == st.authority.key@,
        st.token_metadata.record.update_authority@ != st.quarry.record.nft_update_authority@,
    ensures
        st.spec_validate(metadata_bump) == Err::<(), ErrorCode>(ErrorCode::KeyMismatch),
{
}

// --------------------------------
// Delegation
// --------------------------------

/// Law: once an operator holds a rewarder's authority, a rate change
/// forwarded by the exact rate setter succeeds and leaves the rewarder in
/// exactly the state a direct call by the rewarder's own authority leaves
/// it in; the same call under any other signer — the admin included —
/// fails with `Unauthorized` before anything is forwarded.
pub proof fn lemma_delegation_round_trip(
    d: DelegateSetAnnualRewards,
    direct: SetAnnualRewards,
    new_rate: u64,
)
    requires
        crate::pda::expected_operator_address(
            d.with_delegate.operator.record.base@,
            d.with_delegate.operator.record.bump,
        ) == Some(d.with_delegate.operator.address@),
        d.with_delegate.rewarder.record.authority@ == d.with_delegate.operator.address@,
        !d.with_delegate.rewarder.record.is_paused,
        direct.auth.rewarder.record == d.with_delegate.rewarder.record,
        direct.spec_validate() is Ok,
    ensures
        (d.with_delegate.delegate.is_signer && d.with_delegate.delegate.key@
            == d.with_delegate.operator.record.rate_setter@) ==> ({
            let forwarded = spec_delegate_set_annual_rewards(d, new_rate);
            &&& forwarded.0 is Ok
            &&& forwarded.1.with_delegate.rewarder.record == spec_apply_annual_rate(
                d.with_delegate.rewarder.record,
                new_rate,
            )
            &&& forwarded.1.with_delegate.rewarder.record == spec_set_annual_rewards(
                direct,
                new_rate,
            ).1.auth.rewarder.record
        }),
        (d.with_delegate.delegate.key@ != d.with_delegate.operator.record.rate_setter@)
            ==> spec_delegate_set_annual_rewards(d, new_rate) == (
            Err::<(), ErrorCode>(ErrorCode::Unauthorized),
            d,
        ),
{
}

// --------------------------------
// Fee extraction
// --------------------------------

/// Law: a fee sweep to a destination account whose owner is not the fixed
/// fee recipient fails with `KeyMismatch`, even when the account holds the
/// right mint.
pub proof fn lemma_fee_sweep_wrong_owner_rejected(e: ExtractFees)
    requires
        !e.rewarder.record.is_paused,
        e.claim_fee_token_account.address@ == crate::pda::ata_of(
            e.rewarder.address@,
            e.rewarder.record.rewards_token_mint@,
        ),
        e.claim_fee_token_account.record.mint@ == e.rewarder.record.rewards_token_mint@,
        e.fee_to_token_account.record.mint@ == e.rewarder.record.rewards_token_mint@,
        e.fee_to_token_account.record.owner@ != e.fee_recipient@,
    ensures
        e.spec_validate() == Err::<(), ErrorCode>(ErrorCode::KeyMismatch),
{
}

} // verus!

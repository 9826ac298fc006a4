//! The delegation layer: operator records and role-scoped forwarding.
//!
//! An operator record holds a rewarder's top authority on behalf of four
//! scoped role holders. Its own address is derived from a tag and a base
//! key, so the record can prove its identity and act as the signer of a
//! forwarded call; delegation relaxes only who may initiate a call, never
//! the underlying validation chain, which runs again on the forwarded call
//! with the operator's address as the acting authority.

use vstd::prelude::*;
use crate::error::ErrorCode;
use crate::key::Key;
use crate::instructions::{
    create_quarry, set_annual_rewards, set_rewards_share, spec_create_quarry,
    spec_set_annual_rewards, spec_set_rewards_share,
};
use crate::pda::{derive_operator_address, expected_operator_address};
use crate::records::{Keyed, Operator, Quarry, Rewarder, SignerAccount};
use crate::validators::{
    AcceptAuthority, CreateQuarry, MutableRewarderWithAuthority, SetAnnualRewards,
    SetRewardsShare,
};

verus! {

impl Operator {
    /// Result and post-state of recording a mutation: the modification
    /// timestamp is refreshed and the generation steps by exactly one, or
    /// the whole mutation aborts when the counter is exhausted.
    pub open spec fn spec_record_update(self, now: i64) -> (Result<(), ErrorCode>, Operator) {
        if self.generation == u64::MAX {
            (Err(ErrorCode::ArithmeticOverflow), self)
        } else {
            (
                Ok(()),
                Operator {
                    last_modified_ts: now,
                    generation: (self.generation + 1) as u64,
                    ..self
                },
            )
        }
    }

    /// Records a successful mutation of the role set.
    pub fn record_update(&mut self, now: i64) -> (r: Result<(), ErrorCode>)
        ensures
            (r, *final(self)) == old(self).spec_record_update(now),
    {
        match self.generation.checked_add(1) {
            Some(g) => {
                self.last_modified_ts = now;
                self.generation = g;
                Ok(())
            },
            None => Err(ErrorCode::ArithmeticOverflow),
        }
    }
}

/// Proof of an operator record's identity.
///
/// Re-derives the operator's address from its stored base key and bump and
/// compares it with the address the record actually sits at. Only on a
/// match does the runtime's signing mechanism accept the same seeds as a
/// signature, so the returned signer is a capability that caller-supplied
/// data cannot forge: a wrong bump or base derives a different address and
/// fails closed.
pub fn prove_operator_identity(op: &Keyed<Operator>) -> (r: Option<SignerAccount>)
    ensures
        match r {
            Some(s) => s == (SignerAccount { key: op.address, is_signer: true })
                && expected_operator_address(op.record.base@, op.record.bump) == Some(
                op.address@,
            ),
            None => expected_operator_address(op.record.base@, op.record.bump) != Some(
                op.address@,
            ),
        },
{
    match derive_operator_address(&op.record.base, op.record.bump) {
        Some(k) => {
            if k.key_eq(&op.address) {
                Some(SignerAccount { key: op.address, is_signer: true })
            } else {
                None
            }
        },
        None => None,
    }
}

// --------------------------------
// Operator creation
// --------------------------------

/// Accounts of operator creation.
#[derive(Clone, Copy, Debug, PartialEq, Eq)]
pub struct CreateOperator {
    /// Seed key of the new operator; must have signed.
    pub base: SignerAccount,
    /// Address the operator record will sit at; must re-derive from the
    /// base and bump.
    pub operator: Key,
    /// The rewarder whose top authority is handed to the operator; its
    /// pending authority must already name the operator's address.
    pub rewarder: Keyed<Rewarder>,
    /// The admin all four roles are initially assigned to.
    pub admin: Key,
}

/// The operator record as first written: all roles on the admin, one
/// recorded mutation.
pub open spec fn spec_initial_operator(pre: CreateOperator, bump: u8, now: i64) -> Operator {
    Operator {
        base: pre.base.key,
        bump,
        rewarder: pre.rewarder.address,
        admin: pre.admin,
        rate_setter: pre.admin,
        quarry_creator: pre.admin,
        share_allocator: pre.admin,
        last_modified_ts: now,
        generation: 1u64,
    }
}

/// Result and post-state of operator creation: on success the new record
/// is returned and the rewarder's authority is atomically accepted by the
/// operator's derived identity, so the operator becomes the sole root
/// authority within the creating transaction.
pub open spec fn spec_create_operator(pre: CreateOperator, bump: u8, now: i64) -> (Result<
    Operator,
    ErrorCode,
>, CreateOperator) {
    if !pre.base.is_signer {
        (Err(ErrorCode::Unauthorized), pre)
    } else if expected_operator_address(pre.base.key@, bump) != Some(pre.operator@) {
        (Err(ErrorCode::KeyMismatch), pre)
    } else {
        let accept_pre = AcceptAuthority {
            authority: SignerAccount { key: pre.operator, is_signer: true },
            rewarder: pre.rewarder,
        };
        let accepted = crate::instructions::spec_accept_authority(accept_pre);
        match accepted.0 {
            Ok(()) => (
                Ok(spec_initial_operator(pre, bump, now)),
                CreateOperator { rewarder: accepted.1.rewarder, ..pre },
            ),
            Err(e) => (Err(e), pre),
        }
    }
}

/// Creates an operator and hands it the rewarder's top authority.
pub fn create_operator(ctx: &mut CreateOperator, bump: u8, now: i64) -> (r: Result<
    Operator,
    ErrorCode,
>)
    ensures
        (r, *final(ctx)) == spec_create_operator(*old(ctx), bump, now),
{
    if !ctx.base.is_signer {
        return Err(ErrorCode::Unauthorized);
    }
    let derived_ok = match derive_operator_address(&ctx.base.key, bump) {
        Some(k) => k.key_eq(&ctx.operator),
        None => false,
    };
    if !derived_ok {
        return Err(ErrorCode::KeyMismatch);
    }
    let mut op = Operator {
        base: ctx.base.key,
        bump,
        rewarder: ctx.rewarder.address,
        admin: ctx.admin,
        rate_setter: ctx.admin,
        quarry_creator: ctx.admin,
        share_allocator: ctx.admin,
        last_modified_ts: 0i64,
        generation: 0u64,
    };
    let stepped = op.record_update(now);
    if let Err(e) = stepped {
        return Err(e);
    }
    let mut accept_ctx = AcceptAuthority {
        authority: SignerAccount { key: ctx.operator, is_signer: true },
        rewarder: ctx.rewarder,
    };
    let accepted = crate::instructions::accept_authority(&mut accept_ctx);
    if let Err(e) = accepted {
        return Err(e);
    }
    ctx.rewarder = accept_ctx.rewarder;
    Ok(op)
}

// --------------------------------
// Role reassignment
// --------------------------------

/// Accounts of a role reassignment.
#[derive(Clone, Copy, Debug, PartialEq, Eq)]
pub struct SetRole {
    /// The operator whose role set is changed.
    pub operator: Keyed<Operator>,
    /// The operator's current admin; must have signed.
    pub admin: SignerAccount,
    /// The account the role is given to.
    pub delegate: Key,
}

impl SetRole {
    /// The outcome of the chain: the admin signed, and it is exactly the
    /// operator's current admin.
    pub open spec fn spec_validate(self) -> Result<(), ErrorCode> {
        if !self.admin.is_signer {
            Err(ErrorCode::Unauthorized)
        } else if self.admin.key@ != self.operator.record.admin@ {
            Err(ErrorCode::Unauthorized)
        } else {
            Ok(())
        }
    }

    /// Checks that the acting admin signed and matches the record.
    pub fn validate(&self) -> (r: Result<(), ErrorCode>)
        ensures
            r == self.spec_validate(),
            r is Ok <==> (self.admin.is_signer && self.admin.key@ == self.operator.record.admin@),
    {
        if !self.admin.is_signer {
            return Err(ErrorCode::Unauthorized);
        }
        if !self.admin.key.key_eq(&self.operator.record.admin) {
            return Err(ErrorCode::Unauthorized);
        }
        Ok(())
    }
}

/// Result and post-state of a role reassignment whose updated record is
/// `updated`: the update is kept only if both the admin check and the
/// generation step succeed.
pub open spec fn spec_apply_role_change(pre: SetRole, updated: Operator, now: i64) -> (Result<
    (),
    ErrorCode,
>, SetRole) {
    match pre.spec_validate() {
        Ok(()) => {
            let stepped = updated.spec_record_update(now);
            match stepped.0 {
                Ok(()) => (
                    Ok(()),
                    SetRole { operator: Keyed { record: stepped.1, ..pre.operator }, ..pre },
                ),
                Err(e) => (Err(e), pre),
            }
        },
        Err(e) => (Err(e), pre),
    }
}

/// Result and post-state of reassigning the admin.
pub open spec fn spec_set_admin(pre: SetRole, now: i64) -> (Result<(), ErrorCode>, SetRole) {
    spec_apply_role_change(pre, Operator { admin: pre.delegate, ..pre.operator.record }, now)
}

/// Reassigns the account that can set roles.
pub fn set_admin(ctx: &mut SetRole, now: i64) -> (r: Result<(), ErrorCode>)
    ensures
        (r, *final(ctx)) == spec_set_admin(*old(ctx), now),
{
    let check = ctx.validate();
    if check.is_err() {
        return check;
    }
    let mut updated = ctx.operator.record;
    updated.admin = ctx.delegate;
    let stepped = updated.record_update(now);
    if let Err(e) = stepped {
        return Err(e);
    }
    ctx.operator.record = updated;
    Ok(())
}

/// Result and post-state of reassigning the rate setter.
pub open spec fn spec_set_rate_setter(pre: SetRole, now: i64) -> (Result<(), ErrorCode>, SetRole) {
    spec_apply_role_change(pre, Operator { rate_setter: pre.delegate, ..pre.operator.record }, now)
}

/// Reassigns the account that can set the emission rate.
pub fn set_rate_setter(ctx: &mut SetRole, now: i64) -> (r: Result<(), ErrorCode>)
    ensures
        (r, *final(ctx)) == spec_set_rate_setter(*old(ctx), now),
{
    let check = ctx.validate();
    if check.is_err() {
        return check;
    }
    let mut updated = ctx.operator.record;
    updated.rate_setter = ctx.delegate;
    let stepped = updated.record_update(now);
    if let Err(e) = stepped {
        return Err(e);
    }
    ctx.operator.record = updated;
    Ok(())
}

/// Result and post-state of reassigning the quarry creator.
pub open spec fn spec_set_quarry_creator(pre: SetRole, now: i64) -> (Result<(), ErrorCode>, SetRole) {
    spec_apply_role_change(
        pre,
        Operator { quarry_creator: pre.delegate, ..pre.operator.record },
        now,
    )
}

/// Reassigns the account that can create quarries.
pub fn set_quarry_creator(ctx: &mut SetRole, now: i64) -> (r: Result<(), ErrorCode>)
    ensures
        (r, *final(ctx)) == spec_set_quarry_creator(*old(ctx), now),
{
    let check = ctx.validate();
    if check.is_err() {
        return check;
    }
    let mut updated = ctx.operator.record;
    updated.quarry_creator = ctx.delegate;
    let stepped = updated.record_update(now);
    if let Err(e) = stepped {
        return Err(e);
    }
    ctx.operator.record = updated;
    Ok(())
}

/// Result and post-state of reassigning the share allocator.
pub open spec fn spec_set_share_allocator(pre: SetRole, now: i64) -> (Result<(), ErrorCode>, SetRole) {
    spec_apply_role_change(
        pre,
        Operator { share_allocator: pre.delegate, ..pre.operator.record },
        now,
    )
}

/// Reassigns the account that can set rewards shares.
pub fn set_share_allocator(ctx: &mut SetRole, now: i64) -> (r: Result<(), ErrorCode>)
    ensures
        (r, *final(ctx)) == spec_set_share_allocator(*old(ctx), now),
{
    let check = ctx.validate();
    if check.is_err() {
        return check;
    }
    let mut updated = ctx.operator.record;
    updated.share_allocator = ctx.delegate;
    let stepped = updated.record_update(now);
    if let Err(e) = stepped {
        return Err(e);
    }
    ctx.operator.record = updated;
    Ok(())
}

// --------------------------------
// Delegated forwarding
// --------------------------------

/// The accounts every delegated call carries.
#[derive(Clone, Copy, Debug, PartialEq, Eq)]
pub struct WithDelegate {
    /// The operator of the rewarder.
    pub operator: Keyed<Operator>,
    /// The acting role holder; must have signed.
    pub delegate: SignerAccount,
    /// The governed rewarder.
    pub rewarder: Keyed<Rewarder>,
}

impl WithDelegate {
    /// The outcome of the role check: the delegate signed, and it is
    /// exactly the required role holder.
    pub open spec fn spec_validate_role(self, required: Key) -> Result<(), ErrorCode> {
        if !self.delegate.is_signer {
            Err(ErrorCode::Unauthorized)
        } else if self.delegate.key@ != required@ {
            Err(ErrorCode::Unauthorized)
        } else {
            Ok(())
        }
    }

    /// Checks that the acting delegate signed and holds the required role.
    pub fn validate_role(&self, required: &Key) -> (r: Result<(), ErrorCode>)
        ensures
            r == self.spec_validate_role(*required),
            r is Ok <==> (self.delegate.is_signer && self.delegate.key@ == required@),
    {
        if !self.delegate.is_signer {
            return Err(ErrorCode::Unauthorized);
        }
        if !self.delegate.key.key_eq(required) {
            return Err(ErrorCode::Unauthorized);
        }
        Ok(())
    }

    /// Assembles the authority accounts of the forwarded call, acting as
    /// the supplied signer.
    pub fn to_auth_accounts(&self, authority: SignerAccount) -> (a: MutableRewarderWithAuthority)
        ensures
            a == (MutableRewarderWithAuthority { authority, rewarder: self.rewarder }),
    {
        MutableRewarderWithAuthority { authority, rewarder: self.rewarder }
    }
}

/// Accounts of a delegated emission-rate change.
#[derive(Clone, Copy, Debug, PartialEq, Eq)]
pub struct DelegateSetAnnualRewards {
    /// The delegate accounts; the rate setter must act.
    pub with_delegate: WithDelegate,
}

/// Result and post-state of a delegated emission-rate change: the rate
/// setter's signature, then the operator's identity proof, then the
/// forwarded call under the full root-authority chain.
pub open spec fn spec_delegate_set_annual_rewards(
    pre: DelegateSetAnnualRewards,
    new_rate: u64,
) -> (Result<(), ErrorCode>, DelegateSetAnnualRewards) {
    let wd = pre.with_delegate;
    match wd.spec_validate_role(wd.operator.record.rate_setter) {
        Err(e) => (Err(e), pre),
        Ok(()) => {
            if expected_operator_address(wd.operator.record.base@, wd.operator.record.bump)
                != Some(wd.operator.address@) {
                (Err(ErrorCode::KeyMismatch), pre)
            } else {
                let auth = MutableRewarderWithAuthority {
                    authority: SignerAccount { key: wd.operator.address, is_signer: true },
                    rewarder: wd.rewarder,
                };
                let inner = spec_set_annual_rewards(SetAnnualRewards { auth }, new_rate);
                (
                    inner.0,
                    DelegateSetAnnualRewards {
                        with_delegate: WithDelegate { rewarder: inner.1.auth.rewarder, ..wd },
                    },
                )
            }
        },
    }
}

/// Forwards an emission-rate change, signed as the operator.
pub fn delegate_set_annual_rewards(ctx: &mut DelegateSetAnnualRewards, new_rate: u64) -> (r:
    Result<(), ErrorCode>)
    ensures
        (r, *final(ctx)) == spec_delegate_set_annual_rewards(*old(ctx), new_rate),
{
    let check = ctx.with_delegate.validate_role(&ctx.with_delegate.operator.record.rate_setter);
    if check.is_err() {
        return check;
    }
    let signer = match prove_operator_identity(&ctx.with_delegate.operator) {
        Some(s) => s,
        None => {
            return Err(ErrorCode::KeyMismatch);
        },
    };
    let auth = ctx.with_delegate.to_auth_accounts(signer);
    let mut inner = SetAnnualRewards { auth };
    let res = set_annual_rewards(&mut inner, new_rate);
    ctx.with_delegate.rewarder = inner.auth.rewarder;
    res
}

/// Accounts of a delegated quarry creation.
#[derive(Clone, Copy, Debug, PartialEq, Eq)]
pub struct DelegateCreateQuarry {
    /// The delegate accounts; the quarry creator must act.
    pub with_delegate: WithDelegate,
    /// Address of the quarry being created.
    pub quarry: Key,
    /// Update authority of the NFT collection allowed to stake in the new
    /// quarry.
    pub nft_update_authority: Key,
}

/// Result of a delegated quarry creation: the quarry creator's signature,
/// then the operator's identity proof, then the forwarded creation under
/// the full root-authority chain.
pub open spec fn spec_delegate_create_quarry(pre: DelegateCreateQuarry) -> Result<
    Quarry,
    ErrorCode,
> {
    let wd = pre.with_delegate;
    match wd.spec_validate_role(wd.operator.record.quarry_creator) {
        Err(e) => Err(e),
        Ok(()) => {
            if expected_operator_address(wd.operator.record.base@, wd.operator.record.bump)
                != Some(wd.operator.address@) {
                Err(ErrorCode::KeyMismatch)
            } else {
                let auth = MutableRewarderWithAuthority {
                    authority: SignerAccount { key: wd.operator.address, is_signer: true },
                    rewarder: wd.rewarder,
                };
                spec_create_quarry(
                    CreateQuarry {
                        auth,
                        quarry: pre.quarry,
                        nft_update_authority: pre.nft_update_authority,
                    },
                )
            }
        },
    }
}

/// Forwards a quarry creation, signed as the operator.
pub fn delegate_create_quarry(ctx: &DelegateCreateQuarry) -> (r: Result<Quarry, ErrorCode>)
    ensures
        r == spec_delegate_create_quarry(*ctx),
{
    let check = ctx.with_delegate.validate_role(&ctx.with_delegate.operator.record.quarry_creator);
    if let Err(e) = check {
        return Err(e);
    }
    let signer = match prove_operator_identity(&ctx.with_delegate.operator) {
        Some(s) => s,
        None => {
            return Err(ErrorCode::KeyMismatch);
        },
    };
    let auth = ctx.with_delegate.to_auth_accounts(signer);
    let inner = CreateQuarry {
        auth,
        quarry: ctx.quarry,
        nft_update_authority: ctx.nft_update_authority,
    };
    create_quarry(&inner)
}

/// Accounts of a delegated rewards-share change.
#[derive(Clone, Copy, Debug, PartialEq, Eq)]
pub struct DelegateSetRewardsShare {
    /// The delegate accounts; the share allocator must act.
    pub with_delegate: WithDelegate,
    /// The quarry whose share is changed.
    pub quarry: Keyed<Quarry>,
}

/// Result and post-state of a delegated rewards-share change: the share
/// allocator's signature, then the operator's identity proof, then the
/// forwarded call under the full root-authority chain.
pub open spec fn spec_delegate_set_rewards_share(
    pre: DelegateSetRewardsShare,
    new_share: u64,
) -> (Result<(), ErrorCode>, DelegateSetRewardsShare) {
    let wd = pre.with_delegate;
    match wd.spec_validate_role(wd.operator.record.share_allocator) {
        Err(e) => (Err(e), pre),
        Ok(()) => {
            if expected_operator_address(wd.operator.record.base@, wd.operator.record.bump)
                != Some(wd.operator.address@) {
                (Err(ErrorCode::KeyMismatch), pre)
            } else {
                let auth = MutableRewarderWithAuthority {
                    authority: SignerAccount { key: wd.operator.address, is_signer: true },
                    rewarder: wd.rewarder,
                };
                let inner = spec_set_rewards_share(
                    SetRewardsShare { auth, quarry: pre.quarry },
                    new_share,
                );
                (
                    inner.0,
                    DelegateSetRewardsShare {
                        with_delegate: WithDelegate { rewarder: inner.1.auth.rewarder, ..wd },
                        quarry: inner.1.quarry,
                    },
                )
            }
        },
    }
}

/// Forwards a rewards-share change, signed as the operator.
pub fn delegate_set_rewards_share(ctx: &mut DelegateSetRewardsShare, new_share: u64) -> (r:
    Result<(), ErrorCode>)
    ensures
        (r, *final(ctx)) == spec_delegate_set_rewards_share(*old(ctx), new_share),
{
    let check = ctx.with_delegate.validate_role(
        &ctx.with_delegate.operator.record.share_allocator,
    );
    if check.is_err() {
        return check;
    }
    let signer = match prove_operator_identity(&ctx.with_delegate.operator) {
        Some(s) => s,
        None => {
            return Err(ErrorCode::KeyMismatch);
        },
    };
    let auth = ctx.with_delegate.to_auth_accounts(signer);
    let mut inner = SetRewardsShare { auth, quarry: ctx.quarry };
    let res = set_rewards_share(&mut inner, new_share);
    ctx.with_delegate.rewarder = inner.auth.rewarder;
    ctx.quarry = inner.quarry;
    res
}

} // verus!

use quarry_core::error::ErrorCode;
use quarry_core::instructions::set_annual_rewards;
use quarry_core::key::Key;
use quarry_core::operator::{
    create_operator, delegate_create_quarry, delegate_set_annual_rewards,
    delegate_set_rewards_share, prove_operator_identity, set_admin, set_quarry_creator,
    set_rate_setter, set_share_allocator, CreateOperator, DelegateCreateQuarry,
    DelegateSetAnnualRewards, DelegateSetRewardsShare, SetRole, WithDelegate,
};
use quarry_core::records::{Keyed, Operator, Quarry, Rewarder, SignerAccount};
use quarry_core::validators::{MutableRewarderWithAuthority, SetAnnualRewards};
use spl_associated_token_account::solana_program::pubkey::Pubkey;

fn key(n: u8) -> Key {
    Key { bytes: [n; 32] }
}

fn pk(k: &Key) -> Pubkey {
    Pubkey::new_from_array(k.bytes)
}

fn kp(p: &Pubkey) -> Key {
    Key { bytes: p.to_bytes() }
}

fn operator_pda(base: &Key) -> (Key, u8) {
    let program = pk(&quarry_core::pda::operator_program_id());
    let (addr, bump) = Pubkey::find_program_address(&[b"Operator", &pk(base).to_bytes()], &program);
    (kp(&addr), bump)
}

fn signer(k: Key) -> SignerAccount {
    SignerAccount { key: k, is_signer: true }
}

fn base_rewarder(authority: Key) -> Rewarder {
    Rewarder {
        authority,
        pending_authority: Key::zero(),
        pause_authority: key(9),
        is_paused: false,
        rewards_token_mint: key(7),
        claim_fee_token_account: key(8),
        annual_rewards_rate: 0,
    }
}

/// An operator freshly installed over a rewarder, as creation leaves them.
fn installed_operator(admin: Key) -> (Keyed<Operator>, Keyed<Rewarder>) {
    let base = key(1);
    let (op_addr, bump) = operator_pda(&base);
    let mut rw = base_rewarder(key(2));
    rw.pending_authority = op_addr;
    let mut ctx = CreateOperator {
        base: signer(base),
        operator: op_addr,
        rewarder: Keyed { address: key(10), record: rw },
        admin,
    };
    let op = create_operator(&mut ctx, bump, 100).unwrap();
    (Keyed { address: op_addr, record: op }, ctx.rewarder)
}

#[test]
fn create_operator_hands_over_authority() {
    let admin = key(3);
    let (op, rw) = installed_operator(admin);
    assert_eq!(rw.record.authority, op.address);
    assert!(rw.record.pending_authority.is_zero());
    assert_eq!(op.record.admin, admin);
    assert_eq!(op.record.rate_setter, admin);
    assert_eq!(op.record.quarry_creator, admin);
    assert_eq!(op.record.share_allocator, admin);
    assert_eq!(op.record.generation, 1);
    assert_eq!(op.record.last_modified_ts, 100);
}

#[test]
fn create_operator_rejects_wrong_bump() {
    let base = key(1);
    let (op_addr, bump) = operator_pda(&base);
    let mut rw = base_rewarder(key(2));
    rw.pending_authority = op_addr;
    let before = Keyed { address: key(10), record: rw };
    let mut ctx = CreateOperator {
        base: signer(base),
        operator: op_addr,
        rewarder: before,
        admin: key(3),
    };
    assert_eq!(create_operator(&mut ctx, bump.wrapping_sub(1), 100), Err(ErrorCode::KeyMismatch));
    assert_eq!(ctx.rewarder, before);
}

#[test]
fn create_operator_rejects_unsigned_base() {
    let base = key(1);
    let (op_addr, bump) = operator_pda(&base);
    let mut rw = base_rewarder(key(2));
    rw.pending_authority = op_addr;
    let mut ctx = CreateOperator {
        base: SignerAccount { key: base, is_signer: false },
        operator: op_addr,
        rewarder: Keyed { address: key(10), record: rw },
        admin: key(3),
    };
    assert_eq!(create_operator(&mut ctx, bump, 100), Err(ErrorCode::Unauthorized));
}

#[test]
fn create_operator_requires_outstanding_proposal() {
    let base = key(1);
    let (op_addr, bump) = operator_pda(&base);
    let mut ctx = CreateOperator {
        base: signer(base),
        operator: op_addr,
        rewarder: Keyed { address: key(10), record: base_rewarder(key(2)) },
        admin: key(3),
    };
    assert_eq!(create_operator(&mut ctx, bump, 100), Err(ErrorCode::PendingAuthorityNotSet));
}

#[test]
fn prove_operator_identity_fails_closed() {
    let admin = key(3);
    let (op, _) = installed_operator(admin);
    let proved = prove_operator_identity(&op).unwrap();
    assert_eq!(proved.key, op.address);
    assert!(proved.is_signer);
    let moved = Keyed { address: key(55), record: op.record };
    assert!(prove_operator_identity(&moved).is_none());
}

#[test]
fn set_admin_steps_generation() {
    let admin = key(3);
    let (op, _) = installed_operator(admin);
    let mut ctx = SetRole { operator: op, admin: signer(admin), delegate: key(4) };
    assert_eq!(set_admin(&mut ctx, 200), Ok(()));
    assert_eq!(ctx.operator.record.admin, key(4));
    assert_eq!(ctx.operator.record.generation, 2);
    assert_eq!(ctx.operator.record.last_modified_ts, 200);
    // The old admin lost the role with the reassignment.
    let mut stale = SetRole { operator: ctx.operator, admin: signer(admin), delegate: key(5) };
    assert_eq!(set_admin(&mut stale, 300), Err(ErrorCode::Unauthorized));
    assert_eq!(stale.operator.record.generation, 2);
}

#[test]
fn role_setters_change_one_role_each() {
    let admin = key(3);
    let (op, _) = installed_operator(admin);
    let mut ctx = SetRole { operator: op, admin: signer(admin), delegate: key(4) };
    assert_eq!(set_rate_setter(&mut ctx, 200), Ok(()));
    assert_eq!(ctx.operator.record.rate_setter, key(4));
    assert_eq!(ctx.operator.record.admin, admin);
    assert_eq!(set_quarry_creator(&mut ctx, 201), Ok(()));
    assert_eq!(ctx.operator.record.quarry_creator, key(4));
    assert_eq!(set_share_allocator(&mut ctx, 202), Ok(()));
    assert_eq!(ctx.operator.record.share_allocator, key(4));
    assert_eq!(ctx.operator.record.generation, 4);
}

#[test]
fn role_setter_rejects_non_admin() {
    let admin = key(3);
    let (op, _) = installed_operator(admin);
    let before = op;
    let mut ctx = SetRole { operator: op, admin: signer(key(4)), delegate: key(5) };
    assert_eq!(set_rate_setter(&mut ctx, 200), Err(ErrorCode::Unauthorized));
    assert_eq!(ctx.operator, before);
}

#[test]
fn generation_overflow_aborts() {
    let admin = key(3);
    let (mut op, _) = installed_operator(admin);
    op.record.generation = u64::MAX;
    let before = op;
    let mut ctx = SetRole { operator: op, admin: signer(admin), delegate: key(4) };
    assert_eq!(set_admin(&mut ctx, 200), Err(ErrorCode::ArithmeticOverflow));
    assert_eq!(ctx.operator, before);
}

#[test]
fn delegated_rate_change_round_trip() {
    let admin = key(3);
    let rate_setter = key(4);
    let (op, rw) = installed_operator(admin);
    let mut role_ctx = SetRole { operator: op, admin: signer(admin), delegate: rate_setter };
    assert_eq!(set_rate_setter(&mut role_ctx, 200), Ok(()));
    let op = role_ctx.operator;

    // Signed by the rate setter: succeeds.
    let mut forwarded = DelegateSetAnnualRewards {
        with_delegate: WithDelegate { operator: op, delegate: signer(rate_setter), rewarder: rw },
    };
    assert_eq!(delegate_set_annual_rewards(&mut forwarded, 9_000), Ok(()));
    assert_eq!(forwarded.with_delegate.rewarder.record.annual_rewards_rate, 9_000);
    // Delegation does not touch the role set.
    assert_eq!(forwarded.with_delegate.operator.record.generation, 2);

    // The same change made directly by the rewarder's own authority — the
    // operator's derived identity — yields the identical rewarder state.
    let mut direct = SetAnnualRewards {
        auth: MutableRewarderWithAuthority {
            authority: signer(rw.record.authority),
            rewarder: rw,
        },
    };
    assert_eq!(set_annual_rewards(&mut direct, 9_000), Ok(()));
    assert_eq!(direct.auth.rewarder, forwarded.with_delegate.rewarder);

    // Signed by the admin, who holds no rate-setting role: refused.
    let mut by_admin = DelegateSetAnnualRewards {
        with_delegate: WithDelegate { operator: op, delegate: signer(admin), rewarder: rw },
    };
    assert_eq!(delegate_set_annual_rewards(&mut by_admin, 9_000), Err(ErrorCode::Unauthorized));
    assert_eq!(by_admin.with_delegate.rewarder, rw);
}

#[test]
fn delegated_rate_change_rejects_paused() {
    let admin = key(3);
    let (op, mut rw) = installed_operator(admin);
    rw.record.is_paused = true;
    let mut forwarded = DelegateSetAnnualRewards {
        with_delegate: WithDelegate { operator: op, delegate: signer(admin), rewarder: rw },
    };
    assert_eq!(delegate_set_annual_rewards(&mut forwarded, 9_000), Err(ErrorCode::Paused));
    assert_eq!(forwarded.with_delegate.rewarder, rw);
}

#[test]
fn delegated_rate_change_rejects_forged_operator() {
    let admin = key(3);
    let (op, rw) = installed_operator(admin);
    // An operator record copied to a different address cannot prove its
    // identity, so the forwarded call never happens.
    let forged = Keyed { address: key(55), record: op.record };
    let mut forwarded = DelegateSetAnnualRewards {
        with_delegate: WithDelegate { operator: forged, delegate: signer(admin), rewarder: rw },
    };
    assert_eq!(delegate_set_annual_rewards(&mut forwarded, 9_000), Err(ErrorCode::KeyMismatch));
    assert_eq!(forwarded.with_delegate.rewarder, rw);
}

#[test]
fn delegated_quarry_creation() {
    let admin = key(3);
    let (op, rw) = installed_operator(admin);
    let ctx = DelegateCreateQuarry {
        with_delegate: WithDelegate { operator: op, delegate: signer(admin), rewarder: rw },
        quarry: key(20),
        nft_update_authority: key(21),
    };
    let q = delegate_create_quarry(&ctx).unwrap();
    assert_eq!(q.rewarder_key, rw.address);
    assert_eq!(q.nft_update_authority, key(21));
    assert_eq!(q.rewards_share, 0);
    let wrong_role = DelegateCreateQuarry {
        with_delegate: WithDelegate { operator: op, delegate: signer(key(6)), rewarder: rw },
        ..ctx
    };
    assert_eq!(delegate_create_quarry(&wrong_role), Err(ErrorCode::Unauthorized));
}

#[test]
fn delegated_share_change() {
    let admin = key(3);
    let (op, rw) = installed_operator(admin);
    let quarry = Quarry {
        rewarder_key: rw.address,
        nft_update_authority: key(21),
        rewards_share: 0,
        famine_ts: 0,
    };
    let mut ctx = DelegateSetRewardsShare {
        with_delegate: WithDelegate { operator: op, delegate: signer(admin), rewarder: rw },
        quarry: Keyed { address: key(20), record: quarry },
    };
    assert_eq!(delegate_set_rewards_share(&mut ctx, 77), Ok(()));
    assert_eq!(ctx.quarry.record.rewards_share, 77);
    // A quarry bound to a different rewarder is refused by the forwarded
    // chain.
    ctx.quarry.record.rewarder_key = key(30);
    assert_eq!(delegate_set_rewards_share(&mut ctx, 88), Err(ErrorCode::KeyMismatch));
    assert_eq!(ctx.quarry.record.rewards_share, 77);
}

#[test]
fn metadata_program_id_matches_tag_bytes() {
    // The derivation constants are plain values; the derived operator
    // address must differ from every input to the derivation.
    let base = key(1);
    let (op_addr, _) = operator_pda(&base);
    assert_ne!(op_addr, base);
    assert_ne!(op_addr, quarry_core::pda::operator_program_id());
    assert_ne!(
        quarry_core::pda::metadata_program_id(),
        quarry_core::pda::operator_program_id()
    );
}

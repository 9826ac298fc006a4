use quarry_core::error::ErrorCode;
use quarry_core::instructions::{
    accept_authority, create_miner, create_quarry, pause, set_annual_rewards, set_famine,
    set_pause_authority, set_rewards_share, transfer_authority, unpause,
};
use quarry_core::key::Key;
use quarry_core::records::{
    Keyed, Metadata, Miner, MintWrapper, Minter, Quarry, Rewarder, SignerAccount, TokenAccount,
    TokenMint,
};
use quarry_core::validators::{
    AcceptAuthority, ClaimRewards, CreateMiner, CreateQuarry, ExtractFees,
    MutableRewarderWithAuthority, MutableRewarderWithPauseAuthority, NewRewarder,
    ReadOnlyRewarderWithAuthority, SetAnnualRewards, SetFamine, SetPauseAuthority,
    SetRewardsShare, TransferAuthority, UpdateQuarryRewards, UserClaim, UserStake,
};
use spl_associated_token_account::get_associated_token_address;
use spl_associated_token_account::solana_program::pubkey::Pubkey;

fn key(n: u8) -> Key {
    Key { bytes: [n; 32] }
}

fn pk(k: &Key) -> Pubkey {
    Pubkey::new_from_array(k.bytes)
}

fn kp(p: &Pubkey) -> Key {
    Key { bytes: p.to_bytes() }
}

fn ata(owner: &Key, mint: &Key) -> Key {
    kp(&get_associated_token_address(&pk(owner), &pk(mint)))
}

fn metadata_pda(mint: &Key) -> (Key, u8) {
    let program = pk(&quarry_core::pda::metadata_program_id());
    let (addr, bump) = Pubkey::find_program_address(
        &[b"metadata", program.as_ref(), &pk(mint).to_bytes()],
        &program,
    );
    (kp(&addr), bump)
}

fn signer(k: Key) -> SignerAccount {
    SignerAccount { key: k, is_signer: true }
}

fn base_rewarder(authority: Key) -> Rewarder {
    Rewarder {
        authority,
        pending_authority: Key::zero(),
        pause_authority: key(9),
        is_paused: false,
        rewards_token_mint: key(7),
        claim_fee_token_account: key(8),
        annual_rewards_rate: 0,
    }
}

#[test]
fn new_rewarder_accepts_canonical_fee_account() {
    let rewarder_addr = key(10);
    let mint = key(7);
    let ctx = NewRewarder {
        base: signer(key(1)),
        rewarder: rewarder_addr,
        claim_fee_token_account: Keyed {
            address: ata(&rewarder_addr, &mint),
            record: TokenAccount { owner: rewarder_addr, mint },
        },
        rewards_token_mint: mint,
        mint_wrapper: MintWrapper { token_mint: mint },
    };
    assert_eq!(ctx.validate(), Ok(()));
}

#[test]
fn new_rewarder_rejects_non_canonical_fee_account() {
    let rewarder_addr = key(10);
    let mint = key(7);
    // Handing the owner itself instead of the derived account must fail: a
    // derivation that returned its input unchanged would wrongly pass here.
    let ctx = NewRewarder {
        base: signer(key(1)),
        rewarder: rewarder_addr,
        claim_fee_token_account: Keyed {
            address: rewarder_addr,
            record: TokenAccount { owner: rewarder_addr, mint },
        },
        rewards_token_mint: mint,
        mint_wrapper: MintWrapper { token_mint: mint },
    };
    assert_eq!(ctx.validate(), Err(ErrorCode::AssociatedAccountMismatch));
}

#[test]
fn new_rewarder_rejects_unsigned_base() {
    let rewarder_addr = key(10);
    let mint = key(7);
    let ctx = NewRewarder {
        base: SignerAccount { key: key(1), is_signer: false },
        rewarder: rewarder_addr,
        claim_fee_token_account: Keyed {
            address: ata(&rewarder_addr, &mint),
            record: TokenAccount { owner: rewarder_addr, mint },
        },
        rewards_token_mint: mint,
        mint_wrapper: MintWrapper { token_mint: mint },
    };
    assert_eq!(ctx.validate(), Err(ErrorCode::Unauthorized));
}

#[test]
fn new_rewarder_rejects_wrong_mint_wrapper() {
    let rewarder_addr = key(10);
    let mint = key(7);
    let ctx = NewRewarder {
        base: signer(key(1)),
        rewarder: rewarder_addr,
        claim_fee_token_account: Keyed {
            address: ata(&rewarder_addr, &mint),
            record: TokenAccount { owner: rewarder_addr, mint },
        },
        rewards_token_mint: mint,
        mint_wrapper: MintWrapper { token_mint: key(6) },
    };
    assert_eq!(ctx.validate(), Err(ErrorCode::KeyMismatch));
}

#[test]
fn authority_check_rejects_wrong_key() {
    let auth = key(2);
    let ctx = MutableRewarderWithAuthority {
        authority: signer(key(3)),
        rewarder: Keyed { address: key(10), record: base_rewarder(auth) },
    };
    assert_eq!(ctx.validate(), Err(ErrorCode::Unauthorized));
    let ro = ReadOnlyRewarderWithAuthority {
        authority: signer(key(3)),
        rewarder: Keyed { address: key(10), record: base_rewarder(auth) },
    };
    assert_eq!(ro.validate(), Err(ErrorCode::Unauthorized));
}

#[test]
fn authority_check_rejects_single_byte_change() {
    let auth = key(2);
    let mut close = key(2);
    close.bytes[13] ^= 1;
    let ctx = MutableRewarderWithAuthority {
        authority: signer(close),
        rewarder: Keyed { address: key(10), record: base_rewarder(auth) },
    };
    assert_eq!(ctx.validate(), Err(ErrorCode::Unauthorized));
}

#[test]
fn transfer_authority_proposes_successor() {
    let auth = key(2);
    let mut ctx = TransferAuthority {
        authority: signer(auth),
        rewarder: Keyed { address: key(10), record: base_rewarder(auth) },
    };
    assert_eq!(transfer_authority(&mut ctx, key(4)), Ok(()));
    assert_eq!(ctx.rewarder.record.pending_authority, key(4));
    assert_eq!(ctx.rewarder.record.authority, auth);
}

#[test]
fn transfer_authority_rejects_paused() {
    let auth = key(2);
    let mut rw = base_rewarder(auth);
    rw.is_paused = true;
    let before = Keyed { address: key(10), record: rw };
    let mut ctx = TransferAuthority { authority: signer(auth), rewarder: before };
    assert_eq!(transfer_authority(&mut ctx, key(4)), Err(ErrorCode::Paused));
    assert_eq!(ctx.rewarder, before);
}

#[test]
fn accept_before_propose_fails() {
    let auth = key(2);
    let mut ctx = AcceptAuthority {
        authority: signer(key(4)),
        rewarder: Keyed { address: key(10), record: base_rewarder(auth) },
    };
    assert_eq!(accept_authority(&mut ctx), Err(ErrorCode::PendingAuthorityNotSet));
    assert_eq!(ctx.rewarder.record.authority, auth);
}

#[test]
fn accept_by_wrong_signer_fails() {
    let auth = key(2);
    let mut rw = base_rewarder(auth);
    rw.pending_authority = key(4);
    let mut ctx = AcceptAuthority {
        authority: signer(key(5)),
        rewarder: Keyed { address: key(10), record: rw },
    };
    assert_eq!(accept_authority(&mut ctx), Err(ErrorCode::Unauthorized));
    assert_eq!(ctx.rewarder.record.authority, auth);
    assert_eq!(ctx.rewarder.record.pending_authority, key(4));
}

#[test]
fn accept_commits_and_clears_pending() {
    let auth = key(2);
    let mut rw = base_rewarder(auth);
    rw.pending_authority = key(4);
    let mut ctx = AcceptAuthority {
        authority: signer(key(4)),
        rewarder: Keyed { address: key(10), record: rw },
    };
    assert_eq!(accept_authority(&mut ctx), Ok(()));
    assert_eq!(ctx.rewarder.record.authority, key(4));
    assert!(ctx.rewarder.record.pending_authority.is_zero());
}

#[test]
fn set_pause_authority_rotates_key() {
    let pauser = key(9);
    let mut ctx = SetPauseAuthority {
        auth: MutableRewarderWithPauseAuthority {
            pause_authority: signer(pauser),
            rewarder: Keyed { address: key(10), record: base_rewarder(key(2)) },
        },
        new_pause_authority: key(12),
    };
    assert_eq!(set_pause_authority(&mut ctx), Ok(()));
    assert_eq!(ctx.auth.rewarder.record.pause_authority, key(12));
}

#[test]
fn set_pause_authority_rejects_paused() {
    let pauser = key(9);
    let mut rw = base_rewarder(key(2));
    rw.is_paused = true;
    let mut ctx = SetPauseAuthority {
        auth: MutableRewarderWithPauseAuthority {
            pause_authority: signer(pauser),
            rewarder: Keyed { address: key(10), record: rw },
        },
        new_pause_authority: key(12),
    };
    assert_eq!(set_pause_authority(&mut ctx), Err(ErrorCode::Paused));
    assert_eq!(ctx.auth.rewarder.record.pause_authority, key(9));
}

#[test]
fn pause_and_unpause_toggle_flag() {
    let pauser = key(9);
    let mut ctx = MutableRewarderWithPauseAuthority {
        pause_authority: signer(pauser),
        rewarder: Keyed { address: key(10), record: base_rewarder(key(2)) },
    };
    assert_eq!(pause(&mut ctx), Ok(()));
    assert!(ctx.rewarder.record.is_paused);
    assert_eq!(unpause(&mut ctx), Ok(()));
    assert!(!ctx.rewarder.record.is_paused);
    let wrong = MutableRewarderWithPauseAuthority {
        pause_authority: signer(key(11)),
        rewarder: Keyed { address: key(10), record: base_rewarder(key(2)) },
    };
    assert_eq!(wrong.validate(), Err(ErrorCode::Unauthorized));
}

#[test]
fn set_annual_rewards_updates_rate() {
    let auth = key(2);
    let mut ctx = SetAnnualRewards {
        auth: MutableRewarderWithAuthority {
            authority: signer(auth),
            rewarder: Keyed { address: key(10), record: base_rewarder(auth) },
        },
    };
    assert_eq!(set_annual_rewards(&mut ctx, 1_000), Ok(()));
    assert_eq!(ctx.auth.rewarder.record.annual_rewards_rate, 1_000);
}

#[test]
fn set_annual_rewards_rejects_paused_unchanged() {
    let auth = key(2);
    let mut rw = base_rewarder(auth);
    rw.annual_rewards_rate = 5;
    rw.is_paused = true;
    let before = Keyed { address: key(10), record: rw };
    let mut ctx = SetAnnualRewards {
        auth: MutableRewarderWithAuthority { authority: signer(auth), rewarder: before },
    };
    assert_eq!(set_annual_rewards(&mut ctx, 1_000), Err(ErrorCode::Paused));
    assert_eq!(ctx.auth.rewarder, before);
}

#[test]
fn create_quarry_binds_rewarder() {
    let auth = key(2);
    let ctx = CreateQuarry {
        auth: MutableRewarderWithAuthority {
            authority: signer(auth),
            rewarder: Keyed { address: key(10), record: base_rewarder(auth) },
        },
        quarry: key(20),
        nft_update_authority: key(21),
    };
    let q = create_quarry(&ctx).unwrap();
    assert_eq!(q.rewarder_key, key(10));
    assert_eq!(q.nft_update_authority, key(21));
    assert_eq!(q.rewards_share, 0);
}

#[test]
fn set_rewards_share_checks_quarry_binding() {
    let auth = key(2);
    let quarry = Quarry {
        rewarder_key: key(30),
        nft_update_authority: key(21),
        rewards_share: 0,
        famine_ts: 0,
    };
    let mut ctx = SetRewardsShare {
        auth: MutableRewarderWithAuthority {
            authority: signer(auth),
            rewarder: Keyed { address: key(10), record: base_rewarder(auth) },
        },
        quarry: Keyed { address: key(20), record: quarry },
    };
    assert_eq!(set_rewards_share(&mut ctx, 55), Err(ErrorCode::KeyMismatch));
    assert_eq!(ctx.quarry.record.rewards_share, 0);
    ctx.quarry.record.rewarder_key = key(10);
    assert_eq!(set_rewards_share(&mut ctx, 55), Ok(()));
    assert_eq!(ctx.quarry.record.rewards_share, 55);
}

#[test]
fn set_famine_updates_timestamp() {
    let auth = key(2);
    let quarry = Quarry {
        rewarder_key: key(10),
        nft_update_authority: key(21),
        rewards_share: 0,
        famine_ts: 0,
    };
    let mut ctx = SetFamine {
        auth: ReadOnlyRewarderWithAuthority {
            authority: signer(auth),
            rewarder: Keyed { address: key(10), record: base_rewarder(auth) },
        },
        quarry: Keyed { address: key(20), record: quarry },
    };
    assert_eq!(set_famine(&mut ctx, 777), Ok(()));
    assert_eq!(ctx.quarry.record.famine_ts, 777);
}

#[test]
fn update_quarry_rewards_requires_binding_and_unpaused() {
    let quarry = Quarry {
        rewarder_key: key(10),
        nft_update_authority: key(21),
        rewards_share: 0,
        famine_ts: 0,
    };
    let ok = UpdateQuarryRewards {
        quarry: Keyed { address: key(20), record: quarry },
        rewarder: Keyed { address: key(10), record: base_rewarder(key(2)) },
    };
    assert_eq!(ok.validate(), Ok(()));
    let mut paused_rw = base_rewarder(key(2));
    paused_rw.is_paused = true;
    let paused = UpdateQuarryRewards {
        quarry: Keyed { address: key(20), record: quarry },
        rewarder: Keyed { address: key(10), record: paused_rw },
    };
    assert_eq!(paused.validate(), Err(ErrorCode::Paused));
    let unbound = UpdateQuarryRewards {
        quarry: Keyed { address: key(20), record: quarry },
        rewarder: Keyed { address: key(11), record: base_rewarder(key(2)) },
    };
    assert_eq!(unbound.validate(), Err(ErrorCode::KeyMismatch));
}

#[test]
fn create_miner_copies_bindings() {
    let quarry = Quarry {
        rewarder_key: key(10),
        nft_update_authority: key(21),
        rewards_share: 0,
        famine_ts: 0,
    };
    let ctx = CreateMiner {
        authority: key(40),
        miner: key(41),
        quarry: Keyed { address: key(20), record: quarry },
        rewarder: Keyed { address: key(10), record: base_rewarder(key(2)) },
        nft_update_authority: key(21),
    };
    let m = create_miner(&ctx).unwrap();
    assert_eq!(m, Miner { quarry_key: key(20), authority: key(40), nft_update_authority: key(21) });
    let rotated = CreateMiner { nft_update_authority: key(22), ..ctx };
    assert_eq!(create_miner(&rotated), Err(ErrorCode::KeyMismatch));
}

fn valid_stake() -> (UserStake, u8) {
    let user = key(40);
    let miner_addr = key(41);
    let quarry_addr = key(20);
    let rewarder_addr = key(10);
    let nft_mint = key(50);
    let collection = key(21);
    let (metadata_addr, bump) = metadata_pda(&nft_mint);
    let st = UserStake {
        authority: signer(user),
        miner: Keyed {
            address: miner_addr,
            record: Miner {
                quarry_key: quarry_addr,
                authority: user,
                nft_update_authority: collection,
            },
        },
        quarry: Keyed {
            address: quarry_addr,
            record: Quarry {
                rewarder_key: rewarder_addr,
                nft_update_authority: collection,
                rewards_share: 1,
                famine_ts: 0,
            },
        },
        miner_nft_vault: Keyed {
            address: ata(&miner_addr, &nft_mint),
            record: TokenAccount { owner: miner_addr, mint: nft_mint },
        },
        token_account: Keyed {
            address: ata(&user, &nft_mint),
            record: TokenAccount { owner: user, mint: nft_mint },
        },
        token_metadata: Keyed {
            address: metadata_addr,
            record: Metadata { update_authority: collection, mint: nft_mint },
        },
        token_mint: nft_mint,
        rewarder: Keyed { address: rewarder_addr, record: base_rewarder(key(2)) },
    };
    (st, bump)
}

#[test]
fn user_stake_accepts_consistent_chain() {
    let (st, bump) = valid_stake();
    assert_eq!(st.validate(bump), Ok(()));
}

#[test]
fn user_stake_rejects_wrong_metadata_address() {
    let (mut st, bump) = valid_stake();
    // Handing the mint itself as the metadata record must fail: a
    // derivation that returned its input unchanged would wrongly pass here.
    st.token_metadata.address = st.token_mint;
    assert_eq!(st.validate(bump), Err(ErrorCode::KeyMismatch));
}

#[test]
fn user_stake_rejects_wrong_bump() {
    let (st, bump) = valid_stake();
    assert_eq!(st.validate(bump.wrapping_sub(1)), Err(ErrorCode::KeyMismatch));
}

#[test]
fn user_stake_rejects_non_canonical_vault() {
    let (mut st, bump) = valid_stake();
    st.miner_nft_vault.address = st.miner.address;
    assert_eq!(st.validate(bump), Err(ErrorCode::AssociatedAccountMismatch));
}

#[test]
fn user_stake_rejects_paused() {
    let (mut st, bump) = valid_stake();
    st.rewarder.record.is_paused = true;
    assert_eq!(st.validate(bump), Err(ErrorCode::Paused));
}

#[test]
fn user_stake_rejects_wrong_user() {
    let (mut st, bump) = valid_stake();
    st.miner.record.authority = key(42);
    assert_eq!(st.validate(bump), Err(ErrorCode::Unauthorized));
}

#[test]
fn user_stake_rejects_rotated_collection_even_if_miner_matches() {
    let (mut st, bump) = valid_stake();
    // The metadata record and the miner agree on a rotated authority, but
    // the quarry still names the old collection.
    st.token_metadata.record.update_authority = key(22);
    st.miner.record.nft_update_authority = key(22);
    assert_eq!(st.validate(bump), Err(ErrorCode::KeyMismatch));
    // And when the miner does not match either, the outcome is the same.
    st.miner.record.nft_update_authority = key(21);
    assert_eq!(st.validate(bump), Err(ErrorCode::KeyMismatch));
}

fn valid_claim() -> (ClaimRewards, u8) {
    let (st, bump) = valid_stake();
    let rewards_mint = st.rewarder.record.rewards_token_mint;
    let wrapper_addr = key(60);
    let fee_account = st.rewarder.record.claim_fee_token_account;
    let claim = ClaimRewards {
        stake: st,
        mint_wrapper: Keyed {
            address: wrapper_addr,
            record: MintWrapper { token_mint: rewards_mint },
        },
        minter: Minter { minter_authority: st.rewarder.address },
        rewards_token_mint: Keyed {
            address: rewards_mint,
            record: TokenMint { mint_authority: Some(wrapper_addr) },
        },
        rewards_token_account: Keyed {
            address: key(61),
            record: TokenAccount { owner: st.authority.key, mint: rewards_mint },
        },
        claim_fee_token_account: Keyed {
            address: fee_account,
            record: TokenAccount { owner: st.rewarder.address, mint: rewards_mint },
        },
    };
    (claim, bump)
}

#[test]
fn claim_rewards_accepts_consistent_web() {
    let (c, bump) = valid_claim();
    assert_eq!(c.validate(bump), Ok(()));
}

#[test]
fn claim_rewards_rejects_missing_mint_authority() {
    let (mut c, bump) = valid_claim();
    c.rewards_token_mint.record.mint_authority = None;
    assert_eq!(c.validate(bump), Err(ErrorCode::KeyMismatch));
}

#[test]
fn claim_rewards_rejects_foreign_minter() {
    let (mut c, bump) = valid_claim();
    c.minter.minter_authority = key(62);
    assert_eq!(c.validate(bump), Err(ErrorCode::KeyMismatch));
}

#[test]
fn claim_rewards_rejects_wrong_fee_account() {
    let (mut c, bump) = valid_claim();
    c.claim_fee_token_account.address = key(63);
    assert_eq!(c.validate(bump), Err(ErrorCode::KeyMismatch));
}

#[test]
fn user_claim_checks_chain() {
    let user = key(40);
    let ok = UserClaim {
        authority: signer(user),
        miner: Keyed {
            address: key(41),
            record: Miner {
                quarry_key: key(20),
                authority: user,
                nft_update_authority: key(21),
            },
        },
        quarry: Keyed {
            address: key(20),
            record: Quarry {
                rewarder_key: key(10),
                nft_update_authority: key(21),
                rewards_share: 1,
                famine_ts: 0,
            },
        },
        rewarder: Keyed { address: key(10), record: base_rewarder(key(2)) },
    };
    assert_eq!(ok.validate(), Ok(()));
    let unsigned = UserClaim { authority: SignerAccount { key: user, is_signer: false }, ..ok };
    assert_eq!(unsigned.validate(), Err(ErrorCode::Unauthorized));
    let wrong_quarry = UserClaim {
        miner: Keyed {
            address: key(41),
            record: Miner {
                quarry_key: key(25),
                authority: user,
                nft_update_authority: key(21),
            },
        },
        ..ok
    };
    assert_eq!(wrong_quarry.validate(), Err(ErrorCode::KeyMismatch));
}

fn valid_extract() -> ExtractFees {
    let rewarder_addr = key(10);
    let recipient = key(70);
    let rw = base_rewarder(key(2));
    let mint = rw.rewards_token_mint;
    ExtractFees {
        rewarder: Keyed { address: rewarder_addr, record: rw },
        claim_fee_token_account: Keyed {
            address: ata(&rewarder_addr, &mint),
            record: TokenAccount { owner: rewarder_addr, mint },
        },
        fee_to_token_account: Keyed {
            address: ata(&recipient, &mint),
            record: TokenAccount { owner: recipient, mint },
        },
        fee_recipient: recipient,
    }
}

#[test]
fn extract_fees_accepts_canonical_destination() {
    let e = valid_extract();
    assert_eq!(e.validate(), Ok(()));
}

#[test]
fn extract_fees_rejects_foreign_owner_with_right_mint() {
    let mut e = valid_extract();
    e.fee_to_token_account.record.owner = key(71);
    assert_eq!(e.validate(), Err(ErrorCode::KeyMismatch));
}

#[test]
fn extract_fees_rejects_non_canonical_destination() {
    let mut e = valid_extract();
    let mint = e.rewarder.record.rewards_token_mint;
    e.fee_to_token_account.address = ata(&key(71), &mint);
    assert_eq!(e.validate(), Err(ErrorCode::AssociatedAccountMismatch));
}

#[test]
fn extract_fees_rejects_paused() {
    let mut e = valid_extract();
    e.rewarder.record.is_paused = true;
    assert_eq!(e.validate(), Err(ErrorCode::Paused));
}

//! Token lifecycle: mint, derived status, burn guard, batch transfer
//! atomicity and skip behaviour, and the royalty claim request.

use xnames::nft::NftMinter;
use xnames::structs::{
    MintParams, State, SubscriptionData, SubscriptionExpiryStatus, TokenData, Transfer,
};
use xnames::ContractError;

fn fresh() -> NftMinter {
    // deployer 1; grace 100, beneficiary 2, royalty 5
    NftMinter::init(State { grace: 100, benificiary: 2, royalty: 5 }, 1)
}

fn mint(m: &mut NftMinter, caller: u64, now: u64, id: &[u8], domain: &[u8], duration: u64) {
    let r = m.create_nft(
        caller,
        now,
        None,
        None,
        MintParams { token_id: id.to_vec(), domain: domain.to_vec(), owner: caller, duration },
    );
    assert!(r.is_ok());
}

#[test]
fn mint_then_read() {
    let mut m = fresh();
    let r = m.create_nft(
        9,
        1000,
        None,
        None,
        MintParams { token_id: b"a".to_vec(), domain: b"x".to_vec(), owner: 9, duration: 1000 },
    );
    let receipt = r.unwrap();
    assert_eq!(receipt.expiry, 2000);
    assert_eq!(receipt.royalty, 5);
    assert_eq!(receipt.payment_nonce, 0);

    let info = m.get_token_info(&b"a".to_vec()).unwrap();
    assert_eq!(info.domain, b"x".to_vec());
    assert_eq!(info.royalty, 5);

    let st = m.get_token_subscription_status(1000, &b"a".to_vec()).unwrap().unwrap();
    assert_eq!(st.owner, 9);
    assert_eq!(st.status, SubscriptionExpiryStatus::Owned(2000));
}

#[test]
fn mint_royalty_is_copied_not_referenced() {
    let mut m = fresh();
    mint(&mut m, 9, 1000, b"a", b"x", 1000);
    // a later configuration change does not touch the existing record
    assert_eq!(
        m.update_internal_value(1, xnames::structs::UpdateInternalValueParams::Royalty(77)),
        Ok(())
    );
    let info = m.get_token_info(&b"a".to_vec()).unwrap();
    assert_eq!(info.royalty, 5);
    // but a record minted afterwards carries the new royalty
    mint(&mut m, 9, 1000, b"b", b"y", 1000);
    assert_eq!(m.get_token_info(&b"b".to_vec()).unwrap().royalty, 77);
}

#[test]
fn expiry_transitions() {
    let mut m = fresh();
    mint(&mut m, 9, 1000, b"a", b"x", 1000); // expiry 2000, grace 100
    let status_at = |m: &NftMinter, now: u64| {
        m.get_token_subscription_status(now, &b"a".to_vec()).unwrap().unwrap().status
    };
    assert_eq!(status_at(&m, 1999), SubscriptionExpiryStatus::Owned(2000));
    assert_eq!(status_at(&m, 2000), SubscriptionExpiryStatus::Owned(2000));
    assert_eq!(status_at(&m, 2001), SubscriptionExpiryStatus::Grace(2100));
    assert_eq!(status_at(&m, 2100), SubscriptionExpiryStatus::Grace(2100));
    assert_eq!(status_at(&m, 2101), SubscriptionExpiryStatus::Expired);
}

#[test]
fn status_of_absent_token_is_none() {
    let m = fresh();
    assert_eq!(m.get_token_subscription_status(1000, &b"a".to_vec()), Ok(None));
    assert!(m.get_token_info(&b"a".to_vec()).is_none());
}

#[test]
fn status_duration_overflow() {
    let mut m = NftMinter::init(State { grace: u64::MAX, benificiary: 2, royalty: 5 }, 1);
    mint(&mut m, 9, 1000, b"a", b"x", 1000); // expiry 2000, grace u64::MAX
    assert_eq!(
        m.get_token_subscription_status(1000, &b"a".to_vec()),
        Err(ContractError::DurationOverflow)
    );
    assert_eq!(m.burn(5000, &b"a".to_vec()).unwrap_err(), ContractError::DurationOverflow);
}

#[test]
fn burn_guard() {
    let mut m = fresh();
    mint(&mut m, 9, 1000, b"a", b"x", 1000); // expiry 2000, grace 100
    assert_eq!(m.burn(2099, &b"a".to_vec()).unwrap_err(), ContractError::GracePeriodActive);
    // the record survived the rejected burn
    assert!(m.get_token_info(&b"a".to_vec()).is_some());
    // once expiry and grace have both elapsed the burn goes through
    let burned = m.burn(2100, &b"a".to_vec()).unwrap();
    assert_eq!(burned.owner, 9);
    assert_eq!(burned.domain, b"x".to_vec());
    assert!(m.get_token_info(&b"a".to_vec()).is_none());
    // burning again reports the record as missing
    assert_eq!(m.burn(2100, &b"a".to_vec()).unwrap_err(), ContractError::NotFound);
}

#[test]
fn reminting_over_a_burned_record_is_allowed() {
    let mut m = fresh();
    mint(&mut m, 9, 1000, b"a", b"x", 1000);
    assert!(m.burn(2100, &b"a".to_vec()).is_ok());
    mint(&mut m, 7, 3000, b"a", b"z", 500);
    let info = m.get_token_info(&b"a".to_vec()).unwrap();
    assert_eq!(info.domain, b"z".to_vec());
}

#[test]
fn minting_over_a_live_record_is_rejected() {
    let mut m = fresh();
    mint(&mut m, 9, 1000, b"a", b"x", 1000);
    let r = m.create_nft(
        7,
        1500,
        None,
        None,
        MintParams { token_id: b"a".to_vec(), domain: b"y".to_vec(), owner: 7, duration: 10 },
    );
    assert_eq!(r.unwrap_err(), ContractError::AlreadyExists);
    // the live record is untouched
    assert_eq!(m.get_token_info(&b"a".to_vec()).unwrap().domain, b"x".to_vec());
}

#[test]
fn mint_duration_overflow_is_rejected() {
    let mut m = fresh();
    let r = m.create_nft(
        9,
        u64::MAX - 10,
        None,
        None,
        MintParams { token_id: b"a".to_vec(), domain: b"x".to_vec(), owner: 9, duration: 11 },
    );
    assert_eq!(r.unwrap_err(), ContractError::DurationOverflow);
    assert!(m.get_token_info(&b"a".to_vec()).is_none());
}

#[test]
fn mint_payment_token_validation() {
    let mut m = fresh();
    let bad = m.create_nft(
        9,
        1000,
        Some(b"bad".to_vec()),
        None,
        MintParams { token_id: b"a".to_vec(), domain: b"x".to_vec(), owner: 9, duration: 10 },
    );
    assert_eq!(bad.unwrap_err(), ContractError::InvalidToken);
    assert!(m.get_token_info(&b"a".to_vec()).is_none());

    let good = m.create_nft(
        9,
        1000,
        Some(b"USD-abc123".to_vec()),
        Some(7),
        MintParams { token_id: b"a".to_vec(), domain: b"x".to_vec(), owner: 9, duration: 10 },
    );
    assert_eq!(good.unwrap().payment_nonce, 7);
}

#[test]
fn mint_payment_nonce_defaults() {
    let mut m = fresh();
    // a payment token without a nonce defaults to nonce zero
    let r = m.create_nft(
        9,
        1000,
        Some(b"USD-abc123".to_vec()),
        None,
        MintParams { token_id: b"a".to_vec(), domain: b"x".to_vec(), owner: 9, duration: 10 },
    );
    assert_eq!(r.unwrap().payment_nonce, 0);
    // the native coin ignores a given nonce
    let r = m.create_nft(
        9,
        1000,
        None,
        Some(7),
        MintParams { token_id: b"b".to_vec(), domain: b"x".to_vec(), owner: 9, duration: 10 },
    );
    assert_eq!(r.unwrap().payment_nonce, 0);
}

fn entry(id: &[u8], amount: u64, from: u64, to: u64) -> Transfer {
    Transfer { token_id: id.to_vec(), amount, from, to, data: Vec::new() }
}

fn owner_of(m: &NftMinter, id: &[u8], now: u64) -> u64 {
    m.get_token_subscription_status(now, &id.to_vec()).unwrap().unwrap().owner
}

#[test]
fn transfer_moves_an_expired_record() {
    let mut m = fresh();
    mint(&mut m, 9, 1000, b"a", b"x", 100); // expiry 1100, grace 100
    let evs = m.transfer(9, 2000, vec![entry(b"a", 1, 9, 4)]).unwrap();
    assert_eq!(evs.len(), 1);
    assert_eq!(evs[0].token_id, b"a".to_vec());
    assert_eq!(evs[0].from, 9);
    assert_eq!(evs[0].to, 4);
    assert_eq!(evs[0].amount, 1);
    assert_eq!(owner_of(&m, b"a", 2000), 4);
    // everything but the owner is untouched
    let info = m.get_token_info(&b"a".to_vec()).unwrap();
    assert_eq!(info.domain, b"x".to_vec());
    assert_eq!(info.royalty, 5);
}

#[test]
fn transfer_atomicity_on_bad_amount() {
    let mut m = fresh();
    mint(&mut m, 9, 1000, b"a", b"x", 100);
    mint(&mut m, 9, 1000, b"b", b"y", 100);
    let batch = vec![entry(b"a", 1, 9, 4), entry(b"b", 5, 9, 4)];
    assert_eq!(m.transfer(9, 2000, batch).unwrap_err(), ContractError::InvalidAmount);
    // the valid first entry's ownership change is not observable
    assert_eq!(owner_of(&m, b"a", 2000), 9);
    assert_eq!(owner_of(&m, b"b", 2000), 9);
}

#[test]
fn transfer_skips_zero_amount_entries() {
    let mut m = fresh();
    mint(&mut m, 9, 1000, b"a", b"x", 100);
    mint(&mut m, 9, 1000, b"b", b"y", 100);
    let batch = vec![entry(b"a", 0, 9, 4), entry(b"b", 1, 9, 4)];
    let evs = m.transfer(9, 2000, batch).unwrap();
    // the skipped entry changed nothing and produced no notification
    assert_eq!(evs.len(), 1);
    assert_eq!(evs[0].token_id, b"b".to_vec());
    assert_eq!(owner_of(&m, b"a", 2000), 9);
    // the subsequent valid entry still applied
    assert_eq!(owner_of(&m, b"b", 2000), 4);
}

#[test]
fn transfer_requires_owner_and_from_to_match() {
    let mut m = fresh();
    mint(&mut m, 9, 1000, b"a", b"x", 100);
    // the caller owns the record but names the wrong `from`
    assert_eq!(
        m.transfer(9, 2000, vec![entry(b"a", 1, 8, 4)]).unwrap_err(),
        ContractError::NotOwner
    );
    // `from` matches the stored owner but the caller is someone else
    assert_eq!(
        m.transfer(8, 2000, vec![entry(b"a", 1, 9, 4)]).unwrap_err(),
        ContractError::NotOwner
    );
    assert_eq!(owner_of(&m, b"a", 2000), 9);
}

#[test]
fn transfer_of_missing_token_is_rejected() {
    let mut m = fresh();
    assert_eq!(
        m.transfer(9, 2000, vec![entry(b"a", 1, 9, 4)]).unwrap_err(),
        ContractError::NotFound
    );
}

#[test]
fn transfer_before_full_expiry_is_rejected() {
    let mut m = fresh();
    mint(&mut m, 9, 1000, b"a", b"x", 100); // expiry 1100, grace until 1200
    assert_eq!(
        m.transfer(9, 1150, vec![entry(b"a", 1, 9, 4)]).unwrap_err(),
        ContractError::GracePeriodActive
    );
    assert_eq!(owner_of(&m, b"a", 1150), 9);
    // at the end of grace the record may move
    assert!(m.transfer(9, 1200, vec![entry(b"a", 1, 9, 4)]).is_ok());
}

#[test]
fn transfer_entries_apply_strictly_in_order() {
    let mut m = fresh();
    mint(&mut m, 9, 1000, b"a", b"x", 100);
    // the first entry hands the record to 4, so the second entry — in
    // which 9 is no longer the owner — fails, and the whole batch is
    // rolled back
    let batch = vec![entry(b"a", 1, 9, 4), entry(b"a", 1, 4, 6)];
    assert_eq!(m.transfer(9, 2000, batch).unwrap_err(), ContractError::NotOwner);
    assert_eq!(owner_of(&m, b"a", 2000), 9);
}

#[test]
fn empty_transfer_batch_succeeds() {
    let mut m = fresh();
    let evs = m.transfer(9, 2000, Vec::new()).unwrap();
    assert!(evs.is_empty());
}

#[test]
fn claim_royalties_is_owner_gated() {
    let m = fresh();
    let req = m
        .claim_royalties_from_marketplace(1, 50, b"a".to_vec(), 3)
        .unwrap();
    assert_eq!(req.marketplace_address, 50);
    assert_eq!(req.token_id, b"a".to_vec());
    assert_eq!(req.token_nonce, 3);
    assert_eq!(req.claim_destination, 1);

    assert_eq!(
        m.claim_royalties_from_marketplace(9, 50, b"a".to_vec(), 3).unwrap_err(),
        ContractError::Unauthorized
    );
}

#[test]
fn token_data_and_state_helpers() {
    let d = TokenData::new(9, 2000, 100, b"x".to_vec(), 5);
    assert_eq!(d.owner, 9);
    assert_eq!(d.expiry, 2000);
    assert_eq!(d.grace, 100);
    assert_eq!(d.domain, b"x".to_vec());
    assert_eq!(d.royalty, 5);

    let mut s = State { grace: 1, benificiary: 2, royalty: 3 };
    s.store(State { grace: 7, benificiary: 8, royalty: 9 });
    assert_eq!(s, State { grace: 7, benificiary: 8, royalty: 9 });
}

#[test]
fn into_status_matches_the_transition_rule() {
    let sub = SubscriptionData { owner: 9, expiry: 2000, grace: 100 };
    assert_eq!(sub.into_status(2000).status, SubscriptionExpiryStatus::Owned(2000));
    assert_eq!(sub.into_status(2001).status, SubscriptionExpiryStatus::Grace(2100));
    assert_eq!(sub.into_status(2100).status, SubscriptionExpiryStatus::Grace(2100));
    assert_eq!(sub.into_status(2101).status, SubscriptionExpiryStatus::Expired);
    assert_eq!(sub.into_status(2101).owner, 9);
}

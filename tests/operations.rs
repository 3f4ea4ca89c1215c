use anchor_lang::prelude::Pubkey;
use std::str::FromStr;
use tip_jar::errors::ErrorCode;
use tip_jar::instructions::{create_creator_profile, send_tip, update_profile, withdraw_tips};
use tip_jar::key::Key;
use tip_jar::states::{Creator, ProfileAccount, Tip, Wallet, Withdrawal};
use tip_jar::tip_jar::TipJar;

fn program_id() -> Key {
    Key::new(
        Pubkey::from_str("75ozxYC9js6iFTQzwaz5SAKXGa9prCvyHqY1UZzDiDun")
            .unwrap()
            .to_bytes(),
    )
}

fn owner() -> Key {
    Key::new([1u8; 32])
}

fn fan() -> Key {
    Key::new([2u8; 32])
}

fn pubkey(k: &Key) -> Pubkey {
    Pubkey::new_from_array(k.bytes)
}

fn jar_with_alice() -> (TipJar, Key) {
    let mut jar = TipJar::new(program_id());
    let address = jar
        .create_creator_profile(&owner(), "Alice".to_string(), "hi".to_string(), 1_000)
        .unwrap();
    (jar, address)
}

fn profile(jar: &TipJar, address: &Key) -> ProfileAccount {
    let i = jar.find_profile(address).unwrap();
    jar.profiles[i].clone()
}

#[test]
fn create_then_tip_then_withdraw_scenario() {
    let (mut jar, address) = jar_with_alice();
    let p = profile(&jar, &address);
    assert_eq!(p.data.name, "Alice");
    assert_eq!(p.data.bio, "hi");
    assert_eq!(p.data.authority, owner());
    assert_eq!(p.data.total_tips, 0);
    assert_eq!(p.data.tip_count, 0);
    assert_eq!(p.data.withdrawal_count, 0);
    assert_eq!(p.data.tips_balance, 0);
    assert_eq!(p.data.created_at, 1_000);
    assert_eq!(p.data.last_withdrawal, 0);

    let mut tipper = Wallet { key: fan(), lamports: 1_000 };
    let tip_address = jar
        .send_tip(&mut tipper, &address, 100, "go".to_string(), 1_100)
        .unwrap();
    let p = profile(&jar, &address);
    assert_eq!(p.data.total_tips, 100);
    assert_eq!(p.data.tip_count, 1);
    assert_eq!(p.data.tips_balance, 100);
    assert_eq!(p.lamports, 100);
    assert_eq!(tipper.lamports, 900);
    assert_eq!(jar.tips.len(), 1);
    assert_eq!(jar.tips[0].0, tip_address);
    assert_eq!(jar.tips[0].1.amount, 100);
    assert_eq!(jar.tips[0].1.message, "go");
    assert_eq!(jar.tips[0].1.creator, address);
    assert_eq!(jar.tips[0].1.tipper, fan());
    assert_eq!(jar.tips[0].1.timestamp, 1_100);

    let mut wallet = Wallet { key: owner(), lamports: 5 };
    let w_address = jar.withdraw_tips(&mut wallet, 60, 1_200).unwrap();
    let p = profile(&jar, &address);
    assert_eq!(p.data.tips_balance, 40);
    assert_eq!(p.data.total_tips, 100);
    assert_eq!(p.data.withdrawal_count, 1);
    assert_eq!(p.data.last_withdrawal, 1_200);
    assert_eq!(p.lamports, 40);
    assert_eq!(wallet.lamports, 65);
    assert_eq!(jar.withdrawals.len(), 1);
    assert_eq!(jar.withdrawals[0].0, w_address);
    assert_eq!(jar.withdrawals[0].1.amount, 60);
    assert_eq!(jar.withdrawals[0].1.creator, address);

    let r = jar.withdraw_tips(&mut wallet, 50, 1_300);
    assert_eq!(r, Err(ErrorCode::InsufficientTipsBalance));
    assert_eq!(profile(&jar, &address), p);
    assert_eq!(wallet.lamports, 65);
    assert_eq!(jar.withdrawals.len(), 1);

    let mut self_wallet = Wallet { key: owner(), lamports: 500 };
    let r = jar.send_tip(&mut self_wallet, &address, 10, String::new(), 1_400);
    assert_eq!(r, Err(ErrorCode::CannotTipSelf));
    assert_eq!(self_wallet.lamports, 500);
    assert_eq!(jar.tips.len(), 1);
    assert_eq!(profile(&jar, &address), p);
}

#[test]
fn profile_address_is_the_program_address_of_the_owner() {
    let (jar, address) = jar_with_alice();
    let (expected, bump) =
        Pubkey::find_program_address(&[b"creator", pubkey(&owner()).as_ref()], &pubkey(&program_id()));
    assert_eq!(pubkey(&address), expected);
    assert_eq!(profile(&jar, &address).data.bump, bump);
    let again = create_creator_profile::handler(
        &program_id(),
        &owner(),
        "Bob".to_string(),
        String::new(),
        7,
    )
    .unwrap();
    assert_eq!(again.0, address);
    assert_eq!(again.1.bump, bump);
}

#[test]
fn second_profile_for_one_owner_is_refused() {
    let (mut jar, _) = jar_with_alice();
    let r = jar.create_creator_profile(&owner(), "Again".to_string(), String::new(), 5);
    assert_eq!(r, Err(ErrorCode::AlreadyExists));
    assert_eq!(jar.profiles.len(), 1);
    assert_eq!(jar.profiles[0].data.name, "Alice");
}

#[test]
fn name_of_32_bytes_is_accepted() {
    let r = create_creator_profile::handler(&program_id(), &owner(), "a".repeat(32), String::new(), 0);
    assert!(r.is_ok());
}

#[test]
fn name_of_33_bytes_is_too_long() {
    let r = create_creator_profile::handler(&program_id(), &owner(), "a".repeat(33), String::new(), 0);
    assert_eq!(r, Err(ErrorCode::NameTooLong));
}

#[test]
fn empty_name_is_refused() {
    let r = create_creator_profile::handler(&program_id(), &owner(), String::new(), String::new(), 0);
    assert_eq!(r, Err(ErrorCode::NameEmpty));
}

#[test]
fn name_length_counts_bytes() {
    // Eleven three-byte characters make 33 bytes.
    let r = create_creator_profile::handler(&program_id(), &owner(), "€".repeat(11), String::new(), 0);
    assert_eq!(r, Err(ErrorCode::NameTooLong));
}

#[test]
fn bio_limits() {
    let ok = create_creator_profile::handler(&program_id(), &owner(), "A".to_string(), "b".repeat(200), 0);
    assert!(ok.is_ok());
    let long = create_creator_profile::handler(&program_id(), &owner(), "A".to_string(), "b".repeat(201), 0);
    assert_eq!(long, Err(ErrorCode::BioTooLong));
}

#[test]
fn zero_tip_is_refused_and_changes_nothing() {
    let (mut jar, address) = jar_with_alice();
    let before = profile(&jar, &address);
    let mut tipper = Wallet { key: fan(), lamports: 1_000 };
    let r = jar.send_tip(&mut tipper, &address, 0, "x".to_string(), 9);
    assert_eq!(r, Err(ErrorCode::InvalidTipAmount));
    assert_eq!(profile(&jar, &address), before);
    assert_eq!(tipper.lamports, 1_000);
    assert_eq!(jar.tips.len(), 0);
}

#[test]
fn message_limits() {
    let (mut jar, address) = jar_with_alice();
    let mut tipper = Wallet { key: fan(), lamports: 1_000 };
    let r = jar.send_tip(&mut tipper, &address, 1, "m".repeat(141), 9);
    assert_eq!(r, Err(ErrorCode::MessageTooLong));
    assert_eq!(jar.tips.len(), 0);
    assert!(jar.send_tip(&mut tipper, &address, 1, "m".repeat(140), 9).is_ok());
    assert_eq!(jar.tips.len(), 1);
}

#[test]
fn successive_tips_land_at_distinct_addresses() {
    let (mut jar, address) = jar_with_alice();
    let mut tipper = Wallet { key: fan(), lamports: 1_000 };
    let first = jar.send_tip(&mut tipper, &address, 5, String::new(), 1).unwrap();
    let second = jar.send_tip(&mut tipper, &address, 5, String::new(), 2).unwrap();
    assert_ne!(first, second);
    assert_eq!(jar.tips.len(), 2);
    let pid = pubkey(&program_id());
    let (expected_first, _) = Pubkey::find_program_address(
        &[b"tip", pubkey(&address).as_ref(), pubkey(&fan()).as_ref(), &0u64.to_le_bytes()],
        &pid,
    );
    let (expected_second, _) = Pubkey::find_program_address(
        &[b"tip", pubkey(&address).as_ref(), pubkey(&fan()).as_ref(), &1u64.to_le_bytes()],
        &pid,
    );
    assert_eq!(pubkey(&first), expected_first);
    assert_eq!(pubkey(&second), expected_second);
    assert_eq!(profile(&jar, &address).data.tip_count, 2);
}

#[test]
fn withdrawal_address_uses_the_count_before_the_withdrawal() {
    let (mut jar, address) = jar_with_alice();
    let mut tipper = Wallet { key: fan(), lamports: 1_000 };
    jar.send_tip(&mut tipper, &address, 50, String::new(), 1).unwrap();
    let mut wallet = Wallet { key: owner(), lamports: 0 };
    let first = jar.withdraw_tips(&mut wallet, 10, 2).unwrap();
    let second = jar.withdraw_tips(&mut wallet, 10, 3).unwrap();
    let pid = pubkey(&program_id());
    let (expected_first, _) = Pubkey::find_program_address(
        &[b"withdrawal", pubkey(&owner()).as_ref(), &0u64.to_le_bytes()],
        &pid,
    );
    let (expected_second, _) = Pubkey::find_program_address(
        &[b"withdrawal", pubkey(&owner()).as_ref(), &1u64.to_le_bytes()],
        &pid,
    );
    assert_eq!(pubkey(&first), expected_first);
    assert_eq!(pubkey(&second), expected_second);
    assert_eq!(wallet.lamports, 20);
    assert_eq!(profile(&jar, &address).data.tips_balance, 30);
}

#[test]
fn zero_withdrawal_is_refused() {
    let (mut jar, _) = jar_with_alice();
    let mut wallet = Wallet { key: owner(), lamports: 0 };
    assert_eq!(jar.withdraw_tips(&mut wallet, 0, 1), Err(ErrorCode::InvalidWithdrawalAmount));
    assert_eq!(jar.withdrawals.len(), 0);
}

#[test]
fn withdrawal_without_profile_is_refused() {
    let (mut jar, _) = jar_with_alice();
    let mut wallet = Wallet { key: fan(), lamports: 0 };
    assert_eq!(jar.withdraw_tips(&mut wallet, 1, 1), Err(ErrorCode::AccountNotFound));
}

#[test]
fn tip_to_unknown_address_is_refused() {
    let (mut jar, _) = jar_with_alice();
    let mut tipper = Wallet { key: fan(), lamports: 10 };
    let r = jar.send_tip(&mut tipper, &Key::new([9u8; 32]), 1, String::new(), 1);
    assert_eq!(r, Err(ErrorCode::AccountNotFound));
    assert_eq!(tipper.lamports, 10);
}

#[test]
fn tip_beyond_wallet_is_refused() {
    let (mut jar, address) = jar_with_alice();
    let mut tipper = Wallet { key: fan(), lamports: 10 };
    let r = jar.send_tip(&mut tipper, &address, 11, String::new(), 1);
    assert_eq!(r, Err(ErrorCode::InsufficientFunds));
    assert_eq!(tipper.lamports, 10);
    assert_eq!(profile(&jar, &address).data.total_tips, 0);
}

#[test]
fn tip_that_overflows_the_total_is_refused() {
    let (jar, address) = jar_with_alice();
    let mut p = profile(&jar, &address);
    p.data.total_tips = u64::MAX;
    p.data.tips_balance = 3;
    let before = p.clone();
    let mut tipper = Wallet { key: fan(), lamports: 10 };
    let r = send_tip::handler(&program_id(), &mut tipper, &mut p, 1, String::new(), 1);
    assert_eq!(r, Err(ErrorCode::Overflow));
    assert_eq!(p, before);
    assert_eq!(tipper.lamports, 10);
}

#[test]
fn withdrawal_into_a_full_wallet_is_refused() {
    let (mut jar, address) = jar_with_alice();
    let mut tipper = Wallet { key: fan(), lamports: 10 };
    jar.send_tip(&mut tipper, &address, 5, String::new(), 1).unwrap();
    let mut wallet = Wallet { key: owner(), lamports: u64::MAX };
    assert_eq!(jar.withdraw_tips(&mut wallet, 5, 2), Err(ErrorCode::Overflow));
    assert_eq!(profile(&jar, &address).data.tips_balance, 5);
}

#[test]
fn withdrawal_beyond_custody_is_refused() {
    let (jar, address) = jar_with_alice();
    let mut p = profile(&jar, &address);
    p.data.total_tips = 10;
    p.data.tips_balance = 10;
    p.lamports = 4;
    let before = p.clone();
    let mut wallet = Wallet { key: owner(), lamports: 0 };
    let r = withdraw_tips::handler(&program_id(), &mut wallet, &mut p, 5, 1);
    assert_eq!(r, Err(ErrorCode::InsufficientFunds));
    assert_eq!(p, before);
}

#[test]
fn update_changes_only_name_and_bio() {
    let (mut jar, address) = jar_with_alice();
    let mut tipper = Wallet { key: fan(), lamports: 10 };
    jar.send_tip(&mut tipper, &address, 5, String::new(), 1).unwrap();
    let before = profile(&jar, &address);
    jar.update_profile(&owner(), "Alicia".to_string(), "new bio".to_string()).unwrap();
    let after = profile(&jar, &address);
    assert_eq!(after.data.name, "Alicia");
    assert_eq!(after.data.bio, "new bio");
    let mut expected = before.clone();
    expected.data.name = "Alicia".to_string();
    expected.data.bio = "new bio".to_string();
    assert_eq!(after, expected);
}

#[test]
fn update_validates_the_text() {
    let (mut jar, address) = jar_with_alice();
    let before = profile(&jar, &address);
    assert_eq!(jar.update_profile(&owner(), String::new(), String::new()), Err(ErrorCode::NameEmpty));
    assert_eq!(jar.update_profile(&owner(), "n".repeat(33), String::new()), Err(ErrorCode::NameTooLong));
    assert_eq!(jar.update_profile(&owner(), "n".to_string(), "b".repeat(201)), Err(ErrorCode::BioTooLong));
    assert_eq!(profile(&jar, &address), before);
}

#[test]
fn update_by_someone_without_profile_is_refused() {
    let (mut jar, _) = jar_with_alice();
    assert_eq!(jar.update_profile(&fan(), "X".to_string(), String::new()), Err(ErrorCode::AccountNotFound));
}

#[test]
fn profile_owned_by_another_is_unauthorized() {
    let (jar, address) = jar_with_alice();
    let mut p = profile(&jar, &address);
    p.data.authority = fan();
    let before = p.clone();
    let r = update_profile::handler(&program_id(), &owner(), &mut p, "X".to_string(), String::new());
    assert_eq!(r, Err(ErrorCode::UnauthorizedAccess));
    assert_eq!(p, before);
    let mut wallet = Wallet { key: owner(), lamports: 0 };
    let r = withdraw_tips::handler(&program_id(), &mut wallet, &mut p, 1, 1);
    assert_eq!(r, Err(ErrorCode::UnauthorizedAccess));
}

#[test]
fn wrong_stored_bump_is_an_address_mismatch() {
    let (jar, address) = jar_with_alice();
    let mut p = profile(&jar, &address);
    p.data.bump = p.data.bump.wrapping_sub(1);
    let mut tipper = Wallet { key: fan(), lamports: 10 };
    let r = send_tip::handler(&program_id(), &mut tipper, &mut p, 1, String::new(), 1);
    assert_eq!(r, Err(ErrorCode::AddressMismatch));
    let r = update_profile::handler(&program_id(), &owner(), &mut p, "X".to_string(), String::new());
    assert_eq!(r, Err(ErrorCode::AddressMismatch));
}

#[test]
fn balance_stays_within_total_over_a_history() {
    let (mut jar, address) = jar_with_alice();
    let mut tipper = Wallet { key: fan(), lamports: 1_000 };
    let mut wallet = Wallet { key: owner(), lamports: 0 };
    let mut last = profile(&jar, &address).data;
    let steps: [(bool, u64); 7] = [(true, 30), (false, 20), (true, 5), (false, 15), (false, 1), (true, 7), (false, 7)];
    for (t, (is_tip, amount)) in steps.iter().enumerate() {
        let _ = if *is_tip {
            jar.send_tip(&mut tipper, &address, *amount, String::new(), t as i64).map(|_| ())
        } else {
            jar.withdraw_tips(&mut wallet, *amount, t as i64).map(|_| ())
        };
        let now = profile(&jar, &address).data;
        assert!(now.tips_balance <= now.total_tips);
        assert!(now.total_tips >= last.total_tips);
        assert!(now.tip_count >= last.tip_count);
        assert!(now.withdrawal_count >= last.withdrawal_count);
        last = now;
    }
    assert_eq!(last.total_tips, 42);
    assert_eq!(last.tips_balance, 0);
    assert_eq!(last.withdrawal_count, 3);
    assert_eq!(wallet.lamports, 42);
}

#[test]
fn reserved_sizes() {
    assert_eq!(Creator::space(), 329);
    assert_eq!(Tip::space(), 233);
    assert_eq!(Withdrawal::space(), 57);
}

#[test]
fn key_comparison() {
    assert!(owner().same(&owner()));
    assert!(!owner().same(&fan()));
    assert_eq!(owner().to_vec(), vec![1u8; 32]);
}

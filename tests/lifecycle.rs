use std::collections::HashMap;
use std::str::FromStr;

use native_fundraiser::address::{create_fundraiser_address, find_contributor_address, find_fundraiser_address};
use native_fundraiser::codec::Key;
use native_fundraiser::error::{FundraiserError, ProcessError};
use native_fundraiser::processor::{
    checker, contribute, process_instruction, refund, settle, AccountView, Authority,
    Effect,
};
use native_fundraiser::state::{Contributor, Fundraiser};
use solana_program::pubkey::Pubkey;

const AMOUNT_TO_RAISE: u64 = 10_000_000;
const TODAY_TIMESTAMP: i64 = 1731704609;
const DURATION_DAYS: u8 = 2;
const DAY: i64 = 86400;

const MAKER: Key = [1u8; 32];
const MINT: Key = [2u8; 32];
const VAULT: Key = [3u8; 32];
const ALICE: Key = [4u8; 32];
const ALICE_ATA: Key = [5u8; 32];
const BOB: Key = [6u8; 32];
const BOB_ATA: Key = [7u8; 32];
const MAKER_ATA: Key = [8u8; 32];

fn program_id() -> Key {
    Pubkey::from_str("22222222222222222222222222222222222222222222").unwrap().to_bytes()
}

fn token_program() -> Key {
    spl_token::ID.to_bytes()
}

fn system_program() -> Key {
    solana_program::system_program::ID.to_bytes()
}

fn account(key: Key, owner: Key, is_signer: bool, data: Vec<u8>) -> AccountView {
    AccountView { key, owner, is_signer, data }
}

fn token_account_data(amount: u64, state: u8) -> Vec<u8> {
    let mut d = vec![0u8; 165];
    d[64..72].copy_from_slice(&amount.to_le_bytes());
    d[108] = state;
    d
}

fn fundraiser_key() -> (Key, u8) {
    find_fundraiser_address(&MAKER, &program_id()).unwrap()
}

fn pledge_key(contributor: &Key) -> (Key, u8) {
    find_contributor_address(&fundraiser_key().0, contributor, &program_id()).unwrap()
}

fn initialize_data(target: u64, start: i64, duration: u8) -> Vec<u8> {
    [vec![0u8], target.to_le_bytes().to_vec(), start.to_le_bytes().to_vec(), vec![duration]].concat()
}

fn contribute_data(amount: u64) -> Vec<u8> {
    [vec![1u8], amount.to_le_bytes().to_vec()].concat()
}

/// A small host: account owners and data, and the asset balances.
struct World {
    owners: HashMap<Key, Key>,
    data: HashMap<Key, Vec<u8>>,
    balances: HashMap<Key, u64>,
}

impl World {
    fn new() -> World {
        let mut w = World { owners: HashMap::new(), data: HashMap::new(), balances: HashMap::new() };
        w.balances.insert(ALICE_ATA, 50_000_000);
        w.balances.insert(BOB_ATA, 50_000_000);
        w
    }

    fn view(&self, key: Key, is_signer: bool) -> AccountView {
        let owner = *self.owners.get(&key).unwrap_or(&system_program());
        let mut data = self.data.get(&key).cloned().unwrap_or_default();
        if owner == token_program() && !data.is_empty() {
            data = token_account_data(*self.balances.get(&key).unwrap_or(&0), 1);
        }
        account(key, owner, is_signer, data)
    }

    fn apply(&mut self, plan: &[Effect]) {
        for e in plan {
            match *e {
                Effect::CreateAccount { account, space, owner, .. } => {
                    self.owners.insert(account, owner);
                    self.data.insert(account, vec![0u8; space as usize]);
                }
                Effect::InitializeTokenAccount { account, .. } => {
                    self.balances.insert(account, 0);
                }
                Effect::TokenTransfer { source, destination, amount, .. } => {
                    *self.balances.get_mut(&source).unwrap() -= amount;
                    *self.balances.entry(destination).or_insert(0) += amount;
                }
                Effect::CloseTokenAccount { account, .. } | Effect::CloseRecord { account, .. } => {
                    self.owners.remove(&account);
                    self.data.remove(&account);
                }
                Effect::WriteFundraiser { account, record } => {
                    self.data.insert(account, record.to_bytes());
                }
                Effect::WriteContributor { account, record } => {
                    self.data.insert(account, record.to_bytes());
                }
            }
        }
    }

    fn campaign(&self) -> Fundraiser {
        Fundraiser::try_from_slice(self.data.get(&fundraiser_key().0).unwrap()).unwrap()
    }

    fn pledge(&self, contributor: &Key) -> Option<Contributor> {
        self.data.get(&pledge_key(contributor).0).map(|d| Contributor::try_from_slice(d).unwrap())
    }

    fn initialize_accounts(&self) -> Vec<AccountView> {
        vec![
            self.view(MAKER, true),
            self.view(MINT, false),
            self.view(fundraiser_key().0, false),
            self.view(VAULT, false),
            account(system_program(), system_program(), false, vec![]),
            account(token_program(), system_program(), false, vec![]),
        ]
    }

    fn contribute_accounts(&self, who: Key, ata: Key) -> Vec<AccountView> {
        vec![
            self.view(who, true),
            self.view(pledge_key(&who).0, false),
            self.view(ata, false),
            self.view(fundraiser_key().0, false),
            self.view(VAULT, false),
            account(token_program(), system_program(), false, vec![]),
            account(system_program(), system_program(), false, vec![]),
        ]
    }

    fn refund_accounts(&self, who: Key, ata: Key) -> Vec<AccountView> {
        vec![
            self.view(who, true),
            self.view(pledge_key(&who).0, false),
            self.view(ata, false),
            self.view(fundraiser_key().0, false),
            self.view(VAULT, false),
            account(token_program(), system_program(), false, vec![]),
        ]
    }

    fn checker_accounts(&self) -> Vec<AccountView> {
        vec![
            self.view(MAKER, true),
            self.view(MAKER_ATA, false),
            self.view(fundraiser_key().0, false),
            self.view(VAULT, false),
            account(token_program(), system_program(), false, vec![]),
        ]
    }

    fn vault_balance(&self) -> u64 {
        *self.balances.get(&VAULT).unwrap_or(&0)
    }
}

fn initialized_world() -> World {
    let mut w = World::new();
    let data = initialize_data(AMOUNT_TO_RAISE, TODAY_TIMESTAMP, DURATION_DAYS);
    let plan = process_instruction(&program_id(), &w.initialize_accounts(), &data, TODAY_TIMESTAMP).unwrap();
    w.apply(&plan);
    w
}

fn contribute_as(w: &mut World, who: Key, ata: Key, amount: u64, now: i64) -> Result<(), ProcessError> {
    let plan = process_instruction(&program_id(), &w.contribute_accounts(who, ata), &contribute_data(amount), now)?;
    w.apply(&plan);
    Ok(())
}

#[test]
fn initialize() {
    let w = World::new();
    let data = initialize_data(AMOUNT_TO_RAISE, TODAY_TIMESTAMP, DURATION_DAYS);
    let plan = native_fundraiser::processor::initialize(&w.initialize_accounts(), &data[1..], &program_id()).unwrap();
    assert_eq!(plan.len(), 4);
    let (fundraiser, bump) = fundraiser_key();
    match plan[1] {
        Effect::WriteFundraiser { account, record } => {
            assert_eq!(account, fundraiser);
            assert_eq!(record.maker, MAKER);
            assert_eq!(record.mint_to_raise, MINT);
            assert_eq!(record.amount_to_raise, AMOUNT_TO_RAISE);
            assert_eq!(record.current_amount, 0);
            assert_eq!(record.time_started, TODAY_TIMESTAMP);
            assert_eq!(record.duration, DURATION_DAYS);
            assert_eq!(record.bump, bump);
        }
        _ => panic!("expected the campaign record to be written"),
    }
    match plan[3] {
        Effect::InitializeTokenAccount { account, mint, authority, .. } => {
            assert_eq!((account, mint, authority), (VAULT, MINT, fundraiser));
        }
        _ => panic!("expected the vault to be initialized"),
    }
}

#[test]
fn initialize_produces_empty_vault_and_zero_raised() {
    let w = initialized_world();
    assert_eq!(w.campaign().current_amount, 0);
    assert_eq!(w.campaign().amount_to_raise, 10_000_000);
    assert_eq!(w.vault_balance(), 0);
}

#[test]
fn initialize_twice_is_refused() {
    let w = initialized_world();
    let data = initialize_data(AMOUNT_TO_RAISE, TODAY_TIMESTAMP, DURATION_DAYS);
    let mut accounts = w.initialize_accounts();
    accounts[2].owner = system_program();
    assert_eq!(
        process_instruction(&program_id(), &accounts, &data, TODAY_TIMESTAMP).err(),
        Some(ProcessError::AccountAlreadyInitialized)
    );
    let accounts = w.initialize_accounts();
    assert_eq!(
        process_instruction(&program_id(), &accounts, &data, TODAY_TIMESTAMP).err(),
        Some(ProcessError::InvalidAccountOwner)
    );
}

#[test]
fn initialize_checks_signer_seeds_and_programs() {
    let w = World::new();
    let data = initialize_data(AMOUNT_TO_RAISE, TODAY_TIMESTAMP, DURATION_DAYS);
    let mut a = w.initialize_accounts();
    a[0].is_signer = false;
    assert_eq!(process_instruction(&program_id(), &a, &data, 0).err(), Some(ProcessError::MissingRequiredSignature));
    let mut a = w.initialize_accounts();
    a[2].key = [9u8; 32];
    assert_eq!(process_instruction(&program_id(), &a, &data, 0).err(), Some(ProcessError::InvalidSeeds));
    let mut a = w.initialize_accounts();
    a[5].key = [9u8; 32];
    assert_eq!(process_instruction(&program_id(), &a, &data, 0).err(), Some(ProcessError::IncorrectProgramId));
    let mut a = w.initialize_accounts();
    a[4].key = [9u8; 32];
    assert_eq!(process_instruction(&program_id(), &a, &data, 0).err(), Some(ProcessError::IncorrectProgramId));
    let a = w.initialize_accounts();
    assert_eq!(process_instruction(&program_id(), &a[..5], &data, 0).err(), Some(ProcessError::NotEnoughAccountKeys));
    assert_eq!(process_instruction(&program_id(), &a, &data[..10], 0).err(), Some(ProcessError::InvalidInstructionData));
}

#[test]
fn dispatch_rejects_bad_discriminator() {
    let w = World::new();
    let a = w.initialize_accounts();
    assert_eq!(process_instruction(&program_id(), &a, &[], 0).err(), Some(ProcessError::InvalidInstructionData));
    assert_eq!(process_instruction(&program_id(), &a, &[4u8], 0).err(), Some(ProcessError::InvalidInstructionData));
    assert_eq!(process_instruction(&program_id(), &a, &[255u8, 0, 0], 0).err(), Some(ProcessError::InvalidInstructionData));
}

#[test]
fn first_contribution_creates_pledge() {
    let mut w = initialized_world();
    let accounts = w.contribute_accounts(ALICE, ALICE_ATA);
    let plan = contribute(&accounts, &4_000_000u64.to_le_bytes(), &program_id(), TODAY_TIMESTAMP + DAY).unwrap();
    assert_eq!(plan.len(), 4);
    let (pledge, bump) = pledge_key(&ALICE);
    match plan[0] {
        Effect::TokenTransfer { source, destination, authority, amount, .. } => {
            assert_eq!((source, destination, authority, amount), (ALICE_ATA, VAULT, ALICE, 4_000_000));
        }
        _ => panic!("expected a transfer into the vault"),
    }
    match plan[2] {
        Effect::CreateAccount { account, space, signer, .. } => {
            assert_eq!((account, space), (pledge, 9));
            assert!(matches!(signer, Authority::Pledge { bump: b, .. } if b == bump));
        }
        _ => panic!("expected the pledge record to be created"),
    }
    w.apply(&plan);
    assert_eq!(w.campaign().current_amount, 4_000_000);
    assert_eq!(w.pledge(&ALICE), Some(Contributor { amount: 4_000_000, bump }));
    assert_eq!(w.vault_balance(), 4_000_000);
}

#[test]
fn second_contribution_accumulates() {
    let mut w = initialized_world();
    contribute_as(&mut w, ALICE, ALICE_ATA, 4_000_000, TODAY_TIMESTAMP + DAY).unwrap();
    let plan = contribute(
        &w.contribute_accounts(ALICE, ALICE_ATA),
        &1_000_000u64.to_le_bytes(),
        &program_id(),
        TODAY_TIMESTAMP + DAY,
    )
    .unwrap();
    assert_eq!(plan.len(), 3);
    assert!(!plan.iter().any(|e| matches!(e, Effect::CreateAccount { .. })));
    w.apply(&plan);
    assert_eq!(w.pledge(&ALICE).unwrap().amount, 5_000_000);
    assert_eq!(w.campaign().current_amount, 5_000_000);
}

#[test]
fn contribution_after_window_is_refused() {
    let mut w = initialized_world();
    let before = w.campaign().current_amount;
    let r = contribute_as(&mut w, ALICE, ALICE_ATA, 1_000, TODAY_TIMESTAMP + 2 * DAY);
    assert_eq!(r, Err(ProcessError::Custom(FundraiserError::FundraiserEnded)));
    assert_eq!(w.campaign().current_amount, before);
    assert_eq!(w.pledge(&ALICE), None);
    assert_eq!(w.vault_balance(), 0);
    assert_eq!(*w.balances.get(&ALICE_ATA).unwrap(), 50_000_000);
    assert!(contribute_as(&mut w, ALICE, ALICE_ATA, 1_000, TODAY_TIMESTAMP + 2 * DAY - 1).is_ok());
}

#[test]
fn contribution_overflow_changes_nothing() {
    let mut w = initialized_world();
    contribute_as(&mut w, ALICE, ALICE_ATA, 4_000_000, TODAY_TIMESTAMP).unwrap();
    let r = contribute(&w.contribute_accounts(BOB, BOB_ATA), &u64::MAX.to_le_bytes(), &program_id(), TODAY_TIMESTAMP);
    assert_eq!(r.err(), Some(ProcessError::ArithmeticOverflow));
    assert_eq!(w.campaign().current_amount, 4_000_000);
}

#[test]
fn contribution_checks_accounts() {
    let w = initialized_world();
    let data = 10u64.to_le_bytes();
    let mut a = w.contribute_accounts(ALICE, ALICE_ATA);
    a[0].is_signer = false;
    assert_eq!(contribute(&a, &data, &program_id(), TODAY_TIMESTAMP).err(), Some(ProcessError::MissingRequiredSignature));
    let mut a = w.contribute_accounts(ALICE, ALICE_ATA);
    a[1].key = [9u8; 32];
    assert_eq!(contribute(&a, &data, &program_id(), TODAY_TIMESTAMP).err(), Some(ProcessError::InvalidSeeds));
    let mut a = w.contribute_accounts(ALICE, ALICE_ATA);
    a[3].owner = system_program();
    assert_eq!(contribute(&a, &data, &program_id(), TODAY_TIMESTAMP).err(), Some(ProcessError::InvalidAccountOwner));
    let mut a = w.contribute_accounts(ALICE, ALICE_ATA);
    a[3].data.truncate(90);
    assert_eq!(contribute(&a, &data, &program_id(), TODAY_TIMESTAMP).err(), Some(ProcessError::InvalidAccountData));
    let a = w.contribute_accounts(ALICE, ALICE_ATA);
    assert_eq!(contribute(&a, &data[..7], &program_id(), TODAY_TIMESTAMP).err(), Some(ProcessError::InvalidInstructionData));
}

#[test]
fn books_stay_balanced_over_a_campaign() {
    let mut w = initialized_world();
    let check = |w: &World| {
        let pledges: u64 = [ALICE, BOB].iter().filter_map(|c| w.pledge(c)).map(|p| p.amount).sum();
        assert_eq!(w.campaign().current_amount, pledges);
        assert_eq!(w.campaign().current_amount, w.vault_balance());
    };
    contribute_as(&mut w, ALICE, ALICE_ATA, 4_000_000, TODAY_TIMESTAMP + DAY).unwrap();
    check(&w);
    contribute_as(&mut w, BOB, BOB_ATA, 2_500_000, TODAY_TIMESTAMP + DAY).unwrap();
    check(&w);
    contribute_as(&mut w, ALICE, ALICE_ATA, 1_000_000, TODAY_TIMESTAMP + DAY + 1).unwrap();
    check(&w);
    let plan = refund(&w.refund_accounts(BOB, BOB_ATA), &program_id(), TODAY_TIMESTAMP + DAY).unwrap();
    w.apply(&plan);
    check(&w);
    assert_eq!(w.campaign().current_amount, 5_000_000);
}

#[test]
fn checker_refuses_when_under_target() {
    let mut w = initialized_world();
    contribute_as(&mut w, ALICE, ALICE_ATA, 5_000_000, TODAY_TIMESTAMP + DAY).unwrap();
    let before = w.data.get(&fundraiser_key().0).cloned();
    let r = checker(&w.checker_accounts(), &program_id());
    assert_eq!(r.err(), Some(ProcessError::Custom(FundraiserError::AmountRaisedNotEnough)));
    assert_eq!(w.data.get(&fundraiser_key().0).cloned(), before);
}

#[test]
fn checker_pays_out_full_vault() {
    let mut w = initialized_world();
    contribute_as(&mut w, ALICE, ALICE_ATA, 6_000_000, TODAY_TIMESTAMP + DAY).unwrap();
    contribute_as(&mut w, BOB, BOB_ATA, 5_000_000, TODAY_TIMESTAMP + DAY).unwrap();
    let plan = process_instruction(&program_id(), &w.checker_accounts(), &[3u8], TODAY_TIMESTAMP + DAY).unwrap();
    assert_eq!(plan.len(), 3);
    match plan[0] {
        Effect::TokenTransfer { source, destination, amount, .. } => {
            assert_eq!((source, destination, amount), (VAULT, MAKER_ATA, 11_000_000));
        }
        _ => panic!("expected the vault to be paid out"),
    }
    w.apply(&plan);
    assert_eq!(*w.balances.get(&MAKER_ATA).unwrap(), 11_000_000);
    assert!(!w.data.contains_key(&fundraiser_key().0));
    assert!(!w.data.contains_key(&VAULT));
    assert!(checker(&w.checker_accounts(), &program_id()).is_err());
}

#[test]
fn checker_refuses_malformed_vault_layout() {
    let mut w = initialized_world();
    contribute_as(&mut w, ALICE, ALICE_ATA, 10_000_000, TODAY_TIMESTAMP).unwrap();
    let mut a = w.checker_accounts();
    a[3].data[72] = 2;
    assert_eq!(checker(&a, &program_id()).err(), Some(ProcessError::InvalidAccountData));
    let mut a = w.checker_accounts();
    a[3].data[108] = 3;
    assert_eq!(checker(&a, &program_id()).err(), Some(ProcessError::InvalidAccountData));
    let mut a = w.checker_accounts();
    a[3].data[108] = 2;
    assert!(checker(&a, &program_id()).is_ok());
}

#[test]
fn checker_checks_maker_and_vault() {
    let mut w = initialized_world();
    contribute_as(&mut w, ALICE, ALICE_ATA, 10_000_000, TODAY_TIMESTAMP).unwrap();
    let mut a = w.checker_accounts();
    a[0].key = BOB;
    assert_eq!(checker(&a, &program_id()).err(), Some(ProcessError::Custom(FundraiserError::InvalidFundraiserMaker)));
    let mut a = w.checker_accounts();
    a[3].data = token_account_data(10_000_000, 0);
    assert_eq!(checker(&a, &program_id()).err(), Some(ProcessError::UninitializedAccount));
    let mut a = w.checker_accounts();
    a[3].data.truncate(100);
    assert_eq!(checker(&a, &program_id()).err(), Some(ProcessError::InvalidAccountData));
    let mut a = w.checker_accounts();
    a[4].key = [9u8; 32];
    assert_eq!(checker(&a, &program_id()).err(), Some(ProcessError::IncorrectProgramId));
    let a = w.checker_accounts();
    assert_eq!(checker(&a[..4], &program_id()).err(), Some(ProcessError::NotEnoughAccountKeys));
}

#[test]
fn settle_at_exact_target() {
    let record = Fundraiser::init(&MAKER, &MINT, 100, 100, 0, 1, 254);
    assert_eq!(
        settle(&MAKER, &MAKER_ATA, &[9u8; 32], &VAULT, &record, 99).err(),
        Some(ProcessError::Custom(FundraiserError::AmountRaisedNotEnough))
    );
    let plan = settle(&MAKER, &MAKER_ATA, &[9u8; 32], &VAULT, &record, 100).unwrap();
    assert!(matches!(plan[0], Effect::TokenTransfer { amount: 100, .. }));
    assert!(matches!(plan[1], Effect::CloseTokenAccount { account, .. } if account == VAULT));
    assert!(matches!(plan[2], Effect::CloseRecord { recipient, .. } if recipient == MAKER));
}

#[test]
fn refund_without_pledge_is_uninitialized() {
    let w = initialized_world();
    let r = refund(&w.refund_accounts(ALICE, ALICE_ATA), &program_id(), TODAY_TIMESTAMP + 3 * DAY);
    assert_eq!(r.err(), Some(ProcessError::UninitializedAccount));
}

#[test]
fn refund_returns_exact_pledge_once() {
    let mut w = initialized_world();
    contribute_as(&mut w, ALICE, ALICE_ATA, 4_000_000, TODAY_TIMESTAMP + DAY).unwrap();
    contribute_as(&mut w, BOB, BOB_ATA, 1_500_000, TODAY_TIMESTAMP + DAY).unwrap();
    let late = refund(&w.refund_accounts(ALICE, ALICE_ATA), &program_id(), TODAY_TIMESTAMP + 2 * DAY);
    assert_eq!(late.err(), Some(ProcessError::Custom(FundraiserError::FundraiserNotEnded)));
    let plan = process_instruction(&program_id(), &w.refund_accounts(ALICE, ALICE_ATA), &[2u8], TODAY_TIMESTAMP + DAY).unwrap();
    match plan[0] {
        Effect::TokenTransfer { source, destination, amount, signer, .. } => {
            assert_eq!((source, destination, amount), (VAULT, ALICE_ATA, 4_000_000));
            assert!(matches!(signer, Authority::Campaign { maker, .. } if maker == MAKER));
        }
        _ => panic!("expected a transfer out of the vault"),
    }
    w.apply(&plan);
    assert_eq!(*w.balances.get(&ALICE_ATA).unwrap(), 50_000_000);
    assert_eq!(w.campaign().current_amount, 1_500_000);
    assert_eq!(w.vault_balance(), 1_500_000);
    assert_eq!(w.pledge(&ALICE), None);
    let again = refund(&w.refund_accounts(ALICE, ALICE_ATA), &program_id(), TODAY_TIMESTAMP + DAY);
    assert_eq!(again.err(), Some(ProcessError::UninitializedAccount));
}

#[test]
fn refund_checks_accounts() {
    let mut w = initialized_world();
    contribute_as(&mut w, ALICE, ALICE_ATA, 4_000_000, TODAY_TIMESTAMP).unwrap();
    let later = TODAY_TIMESTAMP + DAY;
    let mut a = w.refund_accounts(ALICE, ALICE_ATA);
    a[0].is_signer = false;
    assert_eq!(refund(&a, &program_id(), later).err(), Some(ProcessError::MissingRequiredSignature));
    let mut a = w.refund_accounts(ALICE, ALICE_ATA);
    a[1].owner = system_program();
    assert_eq!(refund(&a, &program_id(), later).err(), Some(ProcessError::InvalidAccountOwner));
    let mut a = w.refund_accounts(ALICE, ALICE_ATA);
    a[0].key = BOB;
    assert_eq!(refund(&a, &program_id(), later).err(), Some(ProcessError::InvalidAccountData));
    let mut a = w.refund_accounts(ALICE, ALICE_ATA);
    a[5].key = [9u8; 32];
    assert_eq!(refund(&a, &program_id(), later).err(), Some(ProcessError::IncorrectProgramId));
}

#[test]
fn stored_nonce_reproduces_address() {
    let (fundraiser, bump) = fundraiser_key();
    assert_eq!(create_fundraiser_address(&MAKER, bump, &program_id()), Some(fundraiser));
    for b in 0..=255u8 {
        if b != bump {
            assert_ne!(create_fundraiser_address(&MAKER, b, &program_id()), Some(fundraiser));
        }
        if b > bump {
            assert_eq!(create_fundraiser_address(&MAKER, b, &program_id()), None);
        }
    }
    let expected = Pubkey::find_program_address(&[b"fundraiser", &MAKER], &Pubkey::new_from_array(program_id()));
    assert_eq!((expected.0.to_bytes(), expected.1), (fundraiser, bump));
    let (pledge, pbump) = pledge_key(&ALICE);
    let expected = Pubkey::find_program_address(
        &[b"contributor", &fundraiser, &ALICE],
        &Pubkey::new_from_array(program_id()),
    );
    assert_eq!((expected.0.to_bytes(), expected.1), (pledge, pbump));
}

#[test]
fn records_round_trip_through_bytes() {
    let f = Fundraiser::init(&MAKER, &MINT, 10_000_000, 123, -5, 2, 250);
    let bytes = f.to_bytes();
    assert_eq!(bytes.len(), 96);
    assert_eq!(&bytes[64..72], &10_000_000u64.to_le_bytes());
    assert_eq!(&bytes[80..88], &(-5i64).to_le_bytes());
    let back = Fundraiser::try_from_slice(&bytes).unwrap();
    assert_eq!((back.maker, back.mint_to_raise, back.amount_to_raise, back.current_amount), (MAKER, MINT, 10_000_000, 123));
    assert_eq!((back.time_started, back.duration, back.bump), (-5, 2, 250));
    assert_eq!(Fundraiser::try_from_slice(&bytes[..95]).err(), Some(ProcessError::InvalidAccountData));
    let c = Contributor::init(5_000_000, 7);
    let cb = c.to_bytes();
    assert_eq!(cb, [5_000_000u64.to_le_bytes().to_vec(), vec![7]].concat());
    assert_eq!(Contributor::try_from_slice(&cb), Ok(c));
    assert_eq!(Contributor::try_from_slice(&cb[..8]), Err(ProcessError::InvalidAccountData));
}

#[test]
fn increase_amount_gates_on_elapsed_days() {
    let mut f = Fundraiser::init(&MAKER, &MINT, 100, 10, 1000, 2, 250);
    assert_eq!(f.increase_amount(5, 1000 + 2 * DAY - 1), Ok(()));
    assert_eq!(f.current_amount, 15);
    assert_eq!(f.increase_amount(5, 1000 + 2 * DAY), Err(ProcessError::Custom(FundraiserError::FundraiserEnded)));
    assert_eq!(f.current_amount, 15);
    assert_eq!(f.increase_amount(5, 1000 - 3 * DAY), Ok(()));
    assert_eq!(f.increase_amount(u64::MAX, 1000), Err(ProcessError::ArithmeticOverflow));
    let mut c = Contributor::init(3, 1);
    assert_eq!(c.increase_amount(4), Ok(()));
    assert_eq!(c.amount, 7);
    assert_eq!(c.increase_amount(u64::MAX), Err(ProcessError::ArithmeticOverflow));
    assert_eq!(c.amount, 7);
}

#[test]
fn error_codes_are_stable() {
    assert_eq!(FundraiserError::FundraiserEnded.code(), 0);
    assert_eq!(FundraiserError::FundraiserNotEnded.code(), 1);
    assert_eq!(FundraiserError::InvalidFundraiserMaker.code(), 2);
    assert_eq!(FundraiserError::AmountRaisedNotEnough.code(), 3);
    assert_eq!(FundraiserError::AmountRaisedNotEnough.message(), "The amount raised is not enough");
}

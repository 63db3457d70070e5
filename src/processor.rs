use vstd::prelude::*;
use solana_program::program_error::ProgramError;
use solana_program::program_pack::Pack;
use crate::address::{
    check_system_program, check_token_program, contributor_seeds, created_program_address,
    create_fundraiser_address, find_contributor_address, find_fundraiser_address,
    found_program_address, fundraiser_seeds, is_system_program_key, is_token_program_key,
};
use crate::codec::{Key, keys_equal, u64_from_le};
use crate::error::{FundraiserError, ProcessError};
use crate::instructions::{
    initialize_args_of, instruction_of, unpack_contribute_amount, FundraiserInstructions,
    InitializeArgs, CONTRIBUTE_PAYLOAD_LEN, INITIALIZE_PAYLOAD_LEN,
};
use crate::state::{
    contributor_from_bytes, fundraiser_from_bytes, Contributor, Fundraiser, FundraiserView,
    CONTRIBUTOR_LEN, FUNDRAISER_LEN,
};

verus! {

/// Size of a token-holding account's storage.
pub const TOKEN_ACCOUNT_LEN: usize = 165;

/// What the host shows of one account supplied to a call.
pub struct AccountView {
    pub key: Key,
    pub owner: Key,
    pub is_signer: bool,
    pub data: Vec<u8>,
}

/// Who signs an outside call: the caller's own wallet, or one of this
/// program's derived addresses by its seeds.
#[derive(Debug, Clone, Copy)]
pub enum Authority {
    Wallet,
    Campaign { maker: Key, bump: u8 },
    Pledge { fundraiser: Key, contributor: Key, bump: u8 },
}

/// One step of a call's plan, carried out by the host in order; the host
/// commits all of a plan or none of it.
#[derive(Debug, Clone, Copy)]
pub enum Effect {
    /// Allocate `space` bytes at `account`, owned by `owner`, funded by `payer`.
    CreateAccount { payer: Key, account: Key, space: u64, owner: Key, signer: Authority },
    /// Make `account` a holding account of `mint` under `authority`.
    InitializeTokenAccount { account: Key, mint: Key, authority: Key, signer: Authority },
    /// Move `amount` of the asset from `source` to `destination`.
    TokenTransfer {
        source: Key,
        destination: Key,
        authority: Key,
        amount: u64,
        signer: Authority,
    },
    /// Close a holding account, its deposit going to `destination`.
    CloseTokenAccount { account: Key, destination: Key, authority: Key, signer: Authority },
    /// Store a campaign record at `account`.
    WriteFundraiser { account: Key, record: Fundraiser },
    /// Store a pledge record at `account`.
    WriteContributor { account: Key, record: Contributor },
    /// Empty and release a record of this program, its deposit going to `recipient`.
    CloseRecord { account: Key, recipient: Key },
}

/// `e` stores the campaign record `rec` at `account`.
pub open spec fn is_fundraiser_write(e: Effect, account: Key, rec: FundraiserView) -> bool {
    match e {
        Effect::WriteFundraiser { account: a, record } => a == account && record@ == rec,
        _ => false,
    }
}

/// `e` moves `amount` out of `vault` to `destination`, signed by the
/// campaign of `maker` with nonce `bump`.
pub open spec fn is_vault_transfer(
    e: Effect,
    vault: Key,
    destination: Key,
    fundraiser: Key,
    amount: u64,
    maker: Seq<u8>,
    bump: u8,
) -> bool {
    match e {
        Effect::TokenTransfer { source, destination: d, authority, amount: n, signer } => {
            &&& source == vault
            &&& d == destination
            &&& authority == fundraiser
            &&& n == amount
            &&& match signer {
                Authority::Campaign { maker: m, bump: b } => m@ == maker && b == bump,
                _ => false,
            }
        },
        _ => false,
    }
}

// ---------------------------------------------------------------- Initialize

/// Why Initialize refuses, if it does. Accounts: maker, mint, campaign
/// record, vault, system program, token program.
pub open spec fn initialize_error(a: Seq<AccountView>, data: Seq<u8>, pid: Key) -> Option<
    ProcessError,
> {
    let found = found_program_address(fundraiser_seeds(a[0].key@), pid@);
    if a.len() != 6 {
        Some(ProcessError::NotEnoughAccountKeys)
    } else if data.len() < INITIALIZE_PAYLOAD_LEN {
        Some(ProcessError::InvalidInstructionData)
    } else if !a[0].is_signer {
        Some(ProcessError::MissingRequiredSignature)
    } else if found is None || found->Some_0.0 != a[2].key@ {
        Some(ProcessError::InvalidSeeds)
    } else if !is_system_program_key(a[2].owner@) {
        Some(ProcessError::InvalidAccountOwner)
    } else if a[2].data@.len() != 0 {
        Some(ProcessError::AccountAlreadyInitialized)
    } else if !is_token_program_key(a[5].key@) || !is_system_program_key(a[4].key@) {
        Some(ProcessError::IncorrectProgramId)
    } else {
        None
    }
}

/// The plan of a successful Initialize.
pub open spec fn initialize_plan(a: Seq<AccountView>, data: Seq<u8>, pid: Key, plan: Seq<Effect>) -> bool {
    let args = initialize_args_of(data);
    let bump = found_program_address(fundraiser_seeds(a[0].key@), pid@)->Some_0.1;
    let campaign = Authority::Campaign { maker: a[0].key, bump };
    &&& plan.len() == 4
    &&& plan[0] == Effect::CreateAccount {
        payer: a[0].key,
        account: a[2].key,
        space: FUNDRAISER_LEN as u64,
        owner: pid,
        signer: campaign,
    }
    &&& is_fundraiser_write(
        plan[1],
        a[2].key,
        FundraiserView {
            maker: a[0].key@,
            mint_to_raise: a[1].key@,
            amount_to_raise: args.amount_to_raise,
            current_amount: 0,
            time_started: args.time_started,
            duration: args.duration,
            bump,
        },
    )
    &&& plan[2] == Effect::CreateAccount {
        payer: a[0].key,
        account: a[3].key,
        space: TOKEN_ACCOUNT_LEN as u64,
        owner: a[5].key,
        signer: Authority::Wallet,
    }
    &&& plan[3] == Effect::InitializeTokenAccount {
        account: a[3].key,
        mint: a[1].key,
        authority: a[2].key,
        signer: campaign,
    }
}

/// Creates a campaign: its record at the maker's derived address, with
/// nothing raised yet, and its vault under the campaign's authority.
pub fn initialize(accounts: &[AccountView], instruction_data: &[u8], program_id: &Key) -> (r:
    Result<Vec<Effect>, ProcessError>)
    ensures
        match initialize_error(accounts@, instruction_data@, *program_id) {
            Some(e) => r == Err::<Vec<Effect>, ProcessError>(e),
            None => r is Ok && initialize_plan(
                accounts@,
                instruction_data@,
                *program_id,
                r->Ok_0@,
            ),
        },
{
    if accounts.len() != 6 {
        return Err(ProcessError::NotEnoughAccountKeys);
    }
    let maker = &accounts[0];
    let mint_to_raise = &accounts[1];
    let fundraiser = &accounts[2];
    let vault = &accounts[3];
    let system_program = &accounts[4];
    let token_program = &accounts[5];
    let args = match InitializeArgs::unpack(instruction_data) {
        Ok(a) => a,
        Err(e) => return Err(e),
    };
    if !maker.is_signer {
        return Err(ProcessError::MissingRequiredSignature);
    }
    let (fundraiser_pda, bump) = match find_fundraiser_address(&maker.key, program_id) {
        Some(p) => p,
        None => return Err(ProcessError::InvalidSeeds),
    };
    if !keys_equal(&fundraiser_pda, &fundraiser.key) {
        return Err(ProcessError::InvalidSeeds);
    }
    if !check_system_program(&fundraiser.owner) {
        return Err(ProcessError::InvalidAccountOwner);
    }
    if fundraiser.data.len() != 0 {
        return Err(ProcessError::AccountAlreadyInitialized);
    }
    if !check_token_program(&token_program.key) {
        return Err(ProcessError::IncorrectProgramId);
    }
    if !check_system_program(&system_program.key) {
        return Err(ProcessError::IncorrectProgramId);
    }
    let record = Fundraiser::init(
        &maker.key,
        &mint_to_raise.key,
        args.amount_to_raise,
        0,
        args.time_started,
        args.duration,
        bump,
    );
    let campaign = Authority::Campaign { maker: maker.key, bump };
    let mut plan: Vec<Effect> = Vec::new();
    plan.push(
        Effect::CreateAccount {
            payer: maker.key,
            account: fundraiser.key,
            space: FUNDRAISER_LEN as u64,
            owner: *program_id,
            signer: campaign,
        },
    );
    plan.push(Effect::WriteFundraiser { account: fundraiser.key, record });
    plan.push(
        Effect::CreateAccount {
            payer: maker.key,
            account: vault.key,
            space: TOKEN_ACCOUNT_LEN as u64,
            owner: token_program.key,
            signer: Authority::Wallet,
        },
    );
    plan.push(
        Effect::InitializeTokenAccount {
            account: vault.key,
            mint: mint_to_raise.key,
            authority: fundraiser.key,
            signer: campaign,
        },
    );
    Ok(plan)
}


// ---------------------------------------------------------------- Contribute

/// Whether the pledge slot has never held a record.
pub open spec fn pledge_slot_is_empty(acc: AccountView) -> bool {
    is_system_program_key(acc.owner@) && acc.data@.len() == 0
}

/// Why Contribute refuses at time `now`, if it does. Accounts: contributor,
/// pledge record, contributor's asset account, campaign record, vault,
/// token program, system program.
pub open spec fn contribute_error(a: Seq<AccountView>, data: Seq<u8>, pid: Key, now: i64) -> Option<
    ProcessError,
> {
    let amount = u64_from_le(data, 0);
    let f = fundraiser_from_bytes(a[3].data@);
    let found = found_program_address(contributor_seeds(a[3].key@, a[0].key@), pid@);
    let c = contributor_from_bytes(a[1].data@);
    if a.len() != 7 {
        Some(ProcessError::NotEnoughAccountKeys)
    } else if data.len() < CONTRIBUTE_PAYLOAD_LEN {
        Some(ProcessError::InvalidInstructionData)
    } else if !a[0].is_signer {
        Some(ProcessError::MissingRequiredSignature)
    } else if !is_token_program_key(a[5].key@) || !is_system_program_key(a[6].key@) {
        Some(ProcessError::IncorrectProgramId)
    } else if a[3].owner@ != pid@ {
        Some(ProcessError::InvalidAccountOwner)
    } else if a[3].data@.len() != FUNDRAISER_LEN {
        Some(ProcessError::InvalidAccountData)
    } else if f.has_ended(now) {
        Some(ProcessError::Custom(FundraiserError::FundraiserEnded))
    } else if f.current_amount + amount > u64::MAX {
        Some(ProcessError::ArithmeticOverflow)
    } else if found is None || found->Some_0.0 != a[1].key@ {
        Some(ProcessError::InvalidSeeds)
    } else if pledge_slot_is_empty(a[1]) {
        None
    } else if a[1].owner@ != pid@ {
        Some(ProcessError::InvalidAccountOwner)
    } else if a[1].data@.len() != CONTRIBUTOR_LEN {
        Some(ProcessError::InvalidAccountData)
    } else if c.amount + amount > u64::MAX {
        Some(ProcessError::ArithmeticOverflow)
    } else {
        None
    }
}

/// The plan of a successful Contribute: the asset moves into the vault, the
/// campaign's total and the contributor's pledge both grow by the amount, and
/// a first pledge creates its record.
pub open spec fn contribute_plan(a: Seq<AccountView>, data: Seq<u8>, pid: Key, plan: Seq<Effect>) -> bool {
    let amount = u64_from_le(data, 0);
    let f = fundraiser_from_bytes(a[3].data@);
    let bump = found_program_address(contributor_seeds(a[3].key@, a[0].key@), pid@)->Some_0.1;
    let c = contributor_from_bytes(a[1].data@);
    &&& plan[0] == Effect::TokenTransfer {
        source: a[2].key,
        destination: a[4].key,
        authority: a[0].key,
        amount,
        signer: Authority::Wallet,
    }
    &&& is_fundraiser_write(
        plan[1],
        a[3].key,
        FundraiserView { current_amount: (f.current_amount + amount) as u64, ..f },
    )
    &&& if pledge_slot_is_empty(a[1]) {
        &&& plan.len() == 4
        &&& plan[2] == Effect::CreateAccount {
            payer: a[0].key,
            account: a[1].key,
            space: CONTRIBUTOR_LEN as u64,
            owner: pid,
            signer: Authority::Pledge { fundraiser: a[3].key, contributor: a[0].key, bump },
        }
        &&& plan[3] == Effect::WriteContributor {
            account: a[1].key,
            record: Contributor { amount, bump },
        }
    } else {
        &&& plan.len() == 3
        &&& plan[2] == Effect::WriteContributor {
            account: a[1].key,
            record: Contributor { amount: (c.amount + amount) as u64, bump: c.bump },
        }
    }
}

/// Records a contribution at time `now`: the transfer into the vault and the
/// updates of both records stand in one plan, or the call fails with none.
pub fn contribute(
    accounts: &[AccountView],
    instruction_data: &[u8],
    program_id: &Key,
    now: i64,
) -> (r: Result<Vec<Effect>, ProcessError>)
    ensures
        match contribute_error(accounts@, instruction_data@, *program_id, now) {
            Some(e) => r == Err::<Vec<Effect>, ProcessError>(e),
            None => r is Ok && contribute_plan(
                accounts@,
                instruction_data@,
                *program_id,
                r->Ok_0@,
            ),
        },
{
    if accounts.len() != 7 {
        return Err(ProcessError::NotEnoughAccountKeys);
    }
    let contributor = &accounts[0];
    let contributor_account = &accounts[1];
    let contributor_ata = &accounts[2];
    let fundraiser = &accounts[3];
    let vault = &accounts[4];
    let token_program = &accounts[5];
    let system_program = &accounts[6];
    let amount = match unpack_contribute_amount(instruction_data) {
        Ok(a) => a,
        Err(e) => return Err(e),
    };
    if !contributor.is_signer {
        return Err(ProcessError::MissingRequiredSignature);
    }
    if !check_token_program(&token_program.key) {
        return Err(ProcessError::IncorrectProgramId);
    }
    if !check_system_program(&system_program.key) {
        return Err(ProcessError::IncorrectProgramId);
    }
    if !keys_equal(&fundraiser.owner, program_id) {
        return Err(ProcessError::InvalidAccountOwner);
    }
    let mut record = match Fundraiser::try_from_slice(fundraiser.data.as_slice()) {
        Ok(f) => f,
        Err(e) => return Err(e),
    };
    match record.increase_amount(amount, now) {
        Ok(()) => {},
        Err(e) => return Err(e),
    }
    let (expected_pda, bump) = match find_contributor_address(
        &fundraiser.key,
        &contributor.key,
        program_id,
    ) {
        Some(p) => p,
        None => return Err(ProcessError::InvalidSeeds),
    };
    if !keys_equal(&expected_pda, &contributor_account.key) {
        return Err(ProcessError::InvalidSeeds);
    }
    let mut plan: Vec<Effect> = Vec::new();
    plan.push(
        Effect::TokenTransfer {
            source: contributor_ata.key,
            destination: vault.key,
            authority: contributor.key,
            amount,
            signer: Authority::Wallet,
        },
    );
    plan.push(Effect::WriteFundraiser { account: fundraiser.key, record });
    if check_system_program(&contributor_account.owner) && contributor_account.data.len() == 0 {
        plan.push(
            Effect::CreateAccount {
                payer: contributor.key,
                account: contributor_account.key,
                space: CONTRIBUTOR_LEN as u64,
                owner: *program_id,
                signer: Authority::Pledge {
                    fundraiser: fundraiser.key,
                    contributor: contributor.key,
                    bump,
                },
            },
        );
        plan.push(
            Effect::WriteContributor {
                account: contributor_account.key,
                record: Contributor::init(amount, bump),
            },
        );
    } else {
        if !keys_equal(&contributor_account.owner, program_id) {
            return Err(ProcessError::InvalidAccountOwner);
        }
        let mut pledge = match Contributor::try_from_slice(contributor_account.data.as_slice()) {
            Ok(c) => c,
            Err(e) => return Err(e),
        };
        match pledge.increase_amount(amount) {
            Ok(()) => {},
            Err(e) => return Err(e),
        }
        plan.push(Effect::WriteContributor { account: contributor_account.key, record: pledge });
    }
    Ok(plan)
}


// ---------------------------------------------------------------- Refund

/// Why Refund refuses at time `now`, if it does. Accounts: contributor,
/// pledge record, contributor's asset account, campaign record, vault,
/// token program.
pub open spec fn refund_error(a: Seq<AccountView>, pid: Key, now: i64) -> Option<ProcessError> {
    let found = found_program_address(contributor_seeds(a[3].key@, a[0].key@), pid@);
    let c = contributor_from_bytes(a[1].data@);
    let f = fundraiser_from_bytes(a[3].data@);
    if a.len() != 6 {
        Some(ProcessError::NotEnoughAccountKeys)
    } else if !is_token_program_key(a[5].key@) {
        Some(ProcessError::IncorrectProgramId)
    } else if a[1].data@.len() == 0 {
        Some(ProcessError::UninitializedAccount)
    } else if a[1].owner@ != pid@ {
        Some(ProcessError::InvalidAccountOwner)
    } else if !a[0].is_signer {
        Some(ProcessError::MissingRequiredSignature)
    } else if found is None || found->Some_0.0 != a[1].key@ {
        Some(ProcessError::InvalidAccountData)
    } else if a[1].data@.len() != CONTRIBUTOR_LEN {
        Some(ProcessError::InvalidAccountData)
    } else if a[3].owner@ != pid@ {
        Some(ProcessError::InvalidAccountOwner)
    } else if a[3].data@.len() != FUNDRAISER_LEN {
        Some(ProcessError::InvalidAccountData)
    } else if f.has_ended(now) {
        Some(ProcessError::Custom(FundraiserError::FundraiserNotEnded))
    } else if f.current_amount < c.amount {
        Some(ProcessError::ArithmeticOverflow)
    } else {
        None
    }
}

/// The plan of a successful Refund: exactly the pledged amount leaves the
/// vault for the contributor, the campaign's total drops by it, and the
/// pledge record is closed. The transfer is signed with the campaign's
/// seeds: the campaign's address is the vault's authority, so only its
/// signature can move the vault's funds.
pub open spec fn refund_plan(a: Seq<AccountView>, plan: Seq<Effect>) -> bool {
    let c = contributor_from_bytes(a[1].data@);
    let f = fundraiser_from_bytes(a[3].data@);
    &&& plan.len() == 3
    &&& is_vault_transfer(plan[0], a[4].key, a[2].key, a[3].key, c.amount, f.maker, f.bump)
    &&& is_fundraiser_write(
        plan[1],
        a[3].key,
        FundraiserView { current_amount: (f.current_amount - c.amount) as u64, ..f },
    )
    &&& plan[2] == Effect::CloseRecord { account: a[1].key, recipient: a[0].key }
}

/// Returns a contributor's whole pledge. The time gate refuses with
/// `FundraiserNotEnded` once the campaign's whole days are up, and lets the
/// refund through while they are not; this polarity reads inverted against
/// the evident intent (refund only after expiry) and is an open product
/// question, kept here as described rather than silently changed.
pub fn refund(accounts: &[AccountView], program_id: &Key, now: i64) -> (r: Result<
    Vec<Effect>,
    ProcessError,
>)
    ensures
        match refund_error(accounts@, *program_id, now) {
            Some(e) => r == Err::<Vec<Effect>, ProcessError>(e),
            None => r is Ok && refund_plan(accounts@, r->Ok_0@),
        },
{
    if accounts.len() != 6 {
        return Err(ProcessError::NotEnoughAccountKeys);
    }
    let contributor = &accounts[0];
    let contributor_account = &accounts[1];
    let contributor_ata = &accounts[2];
    let fundraiser = &accounts[3];
    let vault = &accounts[4];
    let token_program = &accounts[5];
    if !check_token_program(&token_program.key) {
        return Err(ProcessError::IncorrectProgramId);
    }
    if contributor_account.data.len() == 0 {
        return Err(ProcessError::UninitializedAccount);
    }
    if !keys_equal(&contributor_account.owner, program_id) {
        return Err(ProcessError::InvalidAccountOwner);
    }
    if !contributor.is_signer {
        return Err(ProcessError::MissingRequiredSignature);
    }
    match find_contributor_address(&fundraiser.key, &contributor.key, program_id) {
        Some(p) => {
            if !keys_equal(&p.0, &contributor_account.key) {
                return Err(ProcessError::InvalidAccountData);
            }
        },
        None => return Err(ProcessError::InvalidAccountData),
    }
    let pledge = match Contributor::try_from_slice(contributor_account.data.as_slice()) {
        Ok(c) => c,
        Err(e) => return Err(e),
    };
    if !keys_equal(&fundraiser.owner, program_id) {
        return Err(ProcessError::InvalidAccountOwner);
    }
    let mut record = match Fundraiser::try_from_slice(fundraiser.data.as_slice()) {
        Ok(f) => f,
        Err(e) => return Err(e),
    };
    let elapsed = crate::state::compute_elapsed_days(record.time_started, now);
    if elapsed >= record.duration as i128 {
        return Err(ProcessError::Custom(FundraiserError::FundraiserNotEnded));
    }
    if record.current_amount < pledge.amount {
        return Err(ProcessError::ArithmeticOverflow);
    }
    record.current_amount = record.current_amount - pledge.amount;
    let mut plan: Vec<Effect> = Vec::new();
    plan.push(
        Effect::TokenTransfer {
            source: vault.key,
            destination: contributor_ata.key,
            authority: fundraiser.key,
            amount: pledge.amount,
            signer: Authority::Campaign { maker: record.maker, bump: record.bump },
        },
    );
    plan.push(Effect::WriteFundraiser { account: fundraiser.key, record });
    plan.push(Effect::CloseRecord { account: contributor_account.key, recipient: contributor.key });
    Ok(plan)
}

// ---------------------------------------------------------------- Finalize

/// Whether the four tag bytes of an optional field at `off` are a valid tag.
pub open spec fn option_tag_ok(d: Seq<u8>, off: int) -> bool {
    (d[off] == 0 || d[off] == 1) && d[off + 1] == 0 && d[off + 2] == 0 && d[off + 3] == 0
}

/// Whether `d` has the layout of a holding account: 165 bytes, valid tags on
/// its optional delegate (72), native reserve (109) and close authority
/// (129), and a known state byte (108).
pub open spec fn token_account_layout_ok(d: Seq<u8>) -> bool {
    &&& d.len() == TOKEN_ACCOUNT_LEN
    &&& option_tag_ok(d, 72)
    &&& option_tag_ok(d, 109)
    &&& option_tag_ok(d, 129)
    &&& d[108] <= 2
}

/// Whether `d` holds a holding account that has been initialized.
pub open spec fn token_account_initialized(d: Seq<u8>) -> bool {
    token_account_layout_ok(d) && d[108] != 0
}

/// Relies on `spl_token::state::Account::unpack`: the storage must be exactly
/// 165 bytes with valid option tags and state byte, else the data is
/// invalid; a state byte of zero means not initialized; otherwise the
/// balance is the little-endian value at offset 64.
#[verifier::external_body]
fn token_account_amount(data: &[u8]) -> (r: Result<u64, ProcessError>)
    ensures
        r is Ok <==> token_account_initialized(data@),
        r is Ok ==> r->Ok_0 == u64_from_le(data@, 64),
        !token_account_layout_ok(data@) ==> r is Err && r->Err_0 == ProcessError::InvalidAccountData,
        token_account_layout_ok(data@) && data@[108] == 0 ==> r is Err && r->Err_0
            == ProcessError::UninitializedAccount,
{
    match spl_token::state::Account::unpack(data) {
        Ok(account) => Ok(account.amount),
        Err(ProgramError::UninitializedAccount) => Err(ProcessError::UninitializedAccount),
        Err(_) => Err(ProcessError::InvalidAccountData),
    }
}

/// The plan that settles a funded campaign: the whole vault balance goes to
/// the maker, then the vault and the campaign record are closed.
pub open spec fn settle_plan(
    maker: Key,
    maker_ata: Key,
    fundraiser: Key,
    vault: Key,
    bump: u8,
    vault_balance: u64,
) -> Seq<Effect> {
    let campaign = Authority::Campaign { maker, bump };
    seq![
        Effect::TokenTransfer {
            source: vault,
            destination: maker_ata,
            authority: fundraiser,
            amount: vault_balance,
            signer: campaign,
        },
        Effect::CloseTokenAccount {
            account: vault,
            destination: maker,
            authority: fundraiser,
            signer: campaign,
        },
        Effect::CloseRecord { account: fundraiser, recipient: maker },
    ]
}

/// Settles a campaign whose vault holds `vault_balance`: refused while the
/// balance is under the target, else the plan that pays it all out.
pub fn settle(
    maker: &Key,
    maker_ata: &Key,
    fundraiser: &Key,
    vault: &Key,
    record: &Fundraiser,
    vault_balance: u64,
) -> (r: Result<Vec<Effect>, ProcessError>)
    ensures
        vault_balance < record.amount_to_raise ==> r == Err::<Vec<Effect>, ProcessError>(
            ProcessError::Custom(FundraiserError::AmountRaisedNotEnough),
        ),
        vault_balance >= record.amount_to_raise ==> r is Ok && r->Ok_0@ == settle_plan(
            *maker,
            *maker_ata,
            *fundraiser,
            *vault,
            record.bump,
            vault_balance,
        ),
{
    if vault_balance < record.amount_to_raise {
        return Err(ProcessError::Custom(FundraiserError::AmountRaisedNotEnough));
    }
    let campaign = Authority::Campaign { maker: *maker, bump: record.bump };
    let mut plan: Vec<Effect> = Vec::new();
    plan.push(
        Effect::TokenTransfer {
            source: *vault,
            destination: *maker_ata,
            authority: *fundraiser,
            amount: vault_balance,
            signer: campaign,
        },
    );
    plan.push(
        Effect::CloseTokenAccount {
            account: *vault,
            destination: *maker,
            authority: *fundraiser,
            signer: campaign,
        },
    );
    plan.push(Effect::CloseRecord { account: *fundraiser, recipient: *maker });
    assert(plan@ =~= settle_plan(
        *maker,
        *maker_ata,
        *fundraiser,
        *vault,
        record.bump,
        vault_balance,
    ));
    Ok(plan)
}

/// Why Finalize refuses, if it does. Accounts: maker, maker's asset
/// account, campaign record, vault, token program.
pub open spec fn checker_error(a: Seq<AccountView>, pid: Key) -> Option<ProcessError> {
    let f = fundraiser_from_bytes(a[2].data@);
    if a.len() != 5 {
        Some(ProcessError::NotEnoughAccountKeys)
    } else if !is_token_program_key(a[4].key@) {
        Some(ProcessError::IncorrectProgramId)
    } else if !a[0].is_signer {
        Some(ProcessError::MissingRequiredSignature)
    } else if a[2].owner@ != pid@ {
        Some(ProcessError::InvalidAccountOwner)
    } else if a[2].data@.len() != FUNDRAISER_LEN {
        Some(ProcessError::InvalidAccountData)
    } else if f.maker != a[0].key@ {
        Some(ProcessError::Custom(FundraiserError::InvalidFundraiserMaker))
    } else if created_program_address(fundraiser_seeds(a[0].key@).push(seq![f.bump]), pid@)
        != Some(a[2].key@) {
        Some(ProcessError::InvalidSeeds)
    } else if !token_account_layout_ok(a[3].data@) {
        Some(ProcessError::InvalidAccountData)
    } else if a[3].data@[108] == 0 {
        Some(ProcessError::UninitializedAccount)
    } else if u64_from_le(a[3].data@, 64) < f.amount_to_raise {
        Some(ProcessError::Custom(FundraiserError::AmountRaisedNotEnough))
    } else {
        None
    }
}

/// The plan of a successful Finalize.
pub open spec fn checker_plan(a: Seq<AccountView>) -> Seq<Effect> {
    settle_plan(
        a[0].key,
        a[1].key,
        a[2].key,
        a[3].key,
        fundraiser_from_bytes(a[2].data@).bump,
        u64_from_le(a[3].data@, 64),
    )
}

/// Finalizes a funded campaign: its maker takes the whole vault balance and
/// the vault and the campaign record are closed.
pub fn checker(accounts: &[AccountView], program_id: &Key) -> (r: Result<Vec<Effect>, ProcessError>)
    ensures
        match checker_error(accounts@, *program_id) {
            Some(e) => r == Err::<Vec<Effect>, ProcessError>(e),
            None => r is Ok && r->Ok_0@ == checker_plan(accounts@),
        },
{
    if accounts.len() != 5 {
        return Err(ProcessError::NotEnoughAccountKeys);
    }
    let maker = &accounts[0];
    let maker_ata = &accounts[1];
    let fundraiser = &accounts[2];
    let vault = &accounts[3];
    let token_program = &accounts[4];
    if !check_token_program(&token_program.key) {
        return Err(ProcessError::IncorrectProgramId);
    }
    if !maker.is_signer {
        return Err(ProcessError::MissingRequiredSignature);
    }
    if !keys_equal(&fundraiser.owner, program_id) {
        return Err(ProcessError::InvalidAccountOwner);
    }
    let record = match Fundraiser::try_from_slice(fundraiser.data.as_slice()) {
        Ok(f) => f,
        Err(e) => return Err(e),
    };
    if !keys_equal(&record.maker, &maker.key) {
        return Err(ProcessError::Custom(FundraiserError::InvalidFundraiserMaker));
    }
    match create_fundraiser_address(&maker.key, record.bump, program_id) {
        Some(a) => {
            if !keys_equal(&a, &fundraiser.key) {
                return Err(ProcessError::InvalidSeeds);
            }
        },
        None => return Err(ProcessError::InvalidSeeds),
    }
    let vault_balance = match token_account_amount(vault.data.as_slice()) {
        Ok(b) => b,
        Err(e) => return Err(e),
    };
    settle(&maker.key, &maker_ata.key, &fundraiser.key, &vault.key, &record, vault_balance)
}

// ---------------------------------------------------------------- Dispatch

/// Routes a call by its first byte to its handler, which reads the rest.
pub fn process_instruction(
    program_id: &Key,
    accounts: &[AccountView],
    instruction_data: &[u8],
    now: i64,
) -> (r: Result<Vec<Effect>, ProcessError>)
    ensures
        instruction_data@.len() == 0 ==> r == Err::<Vec<Effect>, ProcessError>(
            ProcessError::InvalidInstructionData,
        ),
        instruction_data@.len() > 0 ==> {
            let payload = instruction_data@.drop_first();
            match instruction_of(instruction_data@[0]) {
                None => r == Err::<Vec<Effect>, ProcessError>(ProcessError::InvalidInstructionData),
                Some(FundraiserInstructions::Initialize) => match initialize_error(
                    accounts@,
                    payload,
                    *program_id,
                ) {
                    Some(e) => r == Err::<Vec<Effect>, ProcessError>(e),
                    None => r is Ok && initialize_plan(accounts@, payload, *program_id, r->Ok_0@),
                },
                Some(FundraiserInstructions::Contribute) => match contribute_error(
                    accounts@,
                    payload,
                    *program_id,
                    now,
                ) {
                    Some(e) => r == Err::<Vec<Effect>, ProcessError>(e),
                    None => r is Ok && contribute_plan(accounts@, payload, *program_id, r->Ok_0@),
                },
                Some(FundraiserInstructions::Refund) => match refund_error(
                    accounts@,
                    *program_id,
                    now,
                ) {
                    Some(e) => r == Err::<Vec<Effect>, ProcessError>(e),
                    None => r is Ok && refund_plan(accounts@, r->Ok_0@),
                },
                Some(FundraiserInstructions::Checker) => match checker_error(
                    accounts@,
                    *program_id,
                ) {
                    Some(e) => r == Err::<Vec<Effect>, ProcessError>(e),
                    None => r is Ok && r->Ok_0@ == checker_plan(accounts@),
                },
            }
        },
{
    if instruction_data.len() == 0 {
        return Err(ProcessError::InvalidInstructionData);
    }
    let payload = slice_from(instruction_data, 1);
    match FundraiserInstructions::try_from(&instruction_data[0]) {
        Ok(FundraiserInstructions::Initialize) => initialize(accounts, payload.as_slice(), program_id),
        Ok(FundraiserInstructions::Contribute) => contribute(accounts, payload.as_slice(), program_id, now),
        Ok(FundraiserInstructions::Refund) => refund(accounts, program_id, now),
        Ok(FundraiserInstructions::Checker) => checker(accounts, program_id),
        Err(e) => Err(e),
    }
}

/// The bytes of `data` from `start` on.
fn slice_from(data: &[u8], start: usize) -> (r: Vec<u8>)
    requires
        start <= data@.len(),
    ensures
        r@ == data@.subrange(start as int, data@.len() as int),
{
    let mut out: Vec<u8> = Vec::new();
    let mut i: usize = start;
    while i < data.len()
        invariant
            start <= i <= data@.len(),
            out@ == data@.subrange(start as int, i as int),
        decreases data@.len() - i,
    {
        out.push(data[i]);
        i = i + 1;
        assert(out@ =~= data@.subrange(start as int, i as int));
    }
    out
}

} // verus!

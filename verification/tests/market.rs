use amm::addr::Addr;
use amm::error::{AmmError, ProcessError};
use amm::instruction::AmmInstruction;
use amm::pda::{Pda, SeedRole};
use amm::processor::{AccountView, Plan, Processor, TransferAuthority};
use amm::state::Vault;

fn addr(b: u8) -> Addr {
    Addr::new(vec![b; 32]).unwrap()
}

fn processor() -> Processor {
    Processor::new(addr(200), addr(210))
}

fn account(key: &Addr, is_signer: bool, data: Vec<u8>) -> AccountView {
    AccountView { key: key.dup(), is_signer, data }
}

const USER_OWNER_X: u8 = 10;
const USER_OWNER_Y: u8 = 11;
const PAYER: u8 = 12;
const USER_TOKEN_X: u8 = 13;
const USER_TOKEN_Y: u8 = 14;
const MINTER_X: u8 = 1;
const MINTER_Y: u8 = 2;

fn market_pda(p: &Processor, minter_x: &Addr, minter_y: &Addr) -> Pda {
    Pda::generate(minter_x, minter_y, &p.token_program_id, &p.program_id).expect("pda")
}

/// The valid sixteen-slot creation list for the market (MINTER_X, MINTER_Y).
fn init_accounts(p: &Processor) -> Vec<AccountView> {
    let pda = market_pda(p, &addr(MINTER_X), &addr(MINTER_Y));
    vec![
        account(&addr(USER_OWNER_X), true, vec![]),
        account(&addr(USER_OWNER_Y), true, vec![]),
        account(&addr(PAYER), true, vec![]),
        account(&addr(USER_TOKEN_X), false, vec![]),
        account(&addr(USER_TOKEN_Y), false, vec![]),
        account(&addr(MINTER_X), false, vec![]),
        account(&addr(MINTER_Y), false, vec![]),
        account(&pda.pda_token_x_pk, false, vec![]),
        account(&pda.pda_token_y_pk, false, vec![]),
        account(&pda.pda_owner_token_x.0, false, vec![]),
        account(&pda.pda_owner_token_y.0, false, vec![]),
        account(&pda.vault.0, false, vec![]),
        account(&addr(100), false, vec![]),
        account(&addr(101), false, vec![]),
        account(&p.token_program_id, false, vec![]),
        account(&addr(102), false, vec![]),
    ]
}

/// The valid eleven-slot swap list, with the given vault record bytes.
fn swap_accounts(p: &Processor, vault_data: Vec<u8>) -> Vec<AccountView> {
    let pda = market_pda(p, &addr(MINTER_X), &addr(MINTER_Y));
    vec![
        account(&addr(USER_OWNER_X), true, vec![]),
        account(&addr(USER_TOKEN_X), false, vec![]),
        account(&addr(USER_TOKEN_Y), false, vec![]),
        account(&addr(MINTER_X), false, vec![]),
        account(&addr(MINTER_Y), false, vec![]),
        account(&pda.pda_token_x_pk, false, vec![]),
        account(&pda.pda_token_y_pk, false, vec![]),
        account(&pda.pda_owner_token_x.0, false, vec![]),
        account(&pda.pda_owner_token_y.0, false, vec![]),
        account(&pda.vault.0, false, vault_data),
        account(&p.token_program_id, false, vec![]),
    ]
}

#[test]
fn init_x_y_market() {
    let p = processor();
    let pda = market_pda(&p, &addr(MINTER_X), &addr(MINTER_Y));
    let plan = p.process_init_market(100, 300, &init_accounts(&p)).expect("init_market");
    // The ledger reads {100, 300}.
    assert_eq!(plan.vault, Vault { token_x_amount: 100, token_y_amount: 300 });
    assert_eq!(plan.create_holding_x.owner, pda.pda_owner_token_x.0);
    assert_eq!(plan.create_holding_x.mint, addr(MINTER_X));
    assert_eq!(plan.create_holding_x.address, pda.pda_token_x_pk);
    assert_eq!(plan.create_holding_y.owner, pda.pda_owner_token_y.0);
    assert_eq!(plan.create_holding_y.mint, addr(MINTER_Y));
    assert_eq!(plan.create_holding_y.address, pda.pda_token_y_pk);
    assert_eq!(plan.deposit_x.source, addr(USER_TOKEN_X));
    assert_eq!(plan.deposit_x.destination, pda.pda_token_x_pk);
    assert_eq!(plan.deposit_x.authority, TransferAuthority::Signer(addr(USER_OWNER_X)));
    assert_eq!(plan.deposit_x.amount, 100);
    assert_eq!(plan.deposit_y.amount, 300);
    assert_eq!(plan.create_vault.address, pda.vault.0);
    assert_eq!(plan.create_vault.bump, pda.vault.1);
    assert_eq!(plan.create_vault.size, 16);
}

#[test]
fn init_market_same_minter() {
    let p = processor();
    let mut accounts = init_accounts(&p);
    accounts[6] = account(&addr(MINTER_X), false, vec![]);
    let init_error = p.process_init_market(100, 300, &accounts).expect_err("init_error");
    assert_eq!(init_error, ProcessError::Amm(AmmError::IdenticalMinter));
}

#[test]
fn init_market_zero_amount() {
    let p = processor();
    let accounts = init_accounts(&p);
    let init_error = p.process_init_market(0, 0, &accounts).expect_err("init_error");
    assert_eq!(init_error, ProcessError::Amm(AmmError::AmountZero));
    let init_error = p.process_init_market(100, 0, &accounts).expect_err("init_error");
    assert_eq!(init_error, ProcessError::Amm(AmmError::AmountZero));
}

#[test]
fn init_market_missing_signature() {
    let p = processor();
    let mut accounts = init_accounts(&p);
    accounts[2] = account(&addr(PAYER), false, vec![]);
    let init_error = p.process_init_market(100, 300, &accounts).expect_err("init_error");
    assert_eq!(init_error, ProcessError::MissingSignature);
}

#[test]
fn init_market_tampered_vault_address() {
    let p = processor();
    let mut accounts = init_accounts(&p);
    accounts[11] = account(&addr(66), false, vec![]);
    let init_error = p.process_init_market(100, 300, &accounts).expect_err("init_error");
    assert_eq!(init_error, ProcessError::InvalidSeeds);
}

#[test]
fn init_market_not_enough_accounts() {
    let p = processor();
    let mut accounts = init_accounts(&p);
    accounts.truncate(12);
    let init_error = p.process_init_market(100, 300, &accounts).expect_err("init_error");
    assert_eq!(init_error, ProcessError::NotEnoughAccounts);
}

#[test]
fn init_market_twice_already_in_use() {
    let p = processor();
    let first = p.process_init_market(100, 300, &init_accounts(&p)).expect("first");

    // The host applies the first plan: the holding accounts now hold token
    // state and the vault holds the persisted ledger.
    let mut accounts = init_accounts(&p);
    accounts[7].data = vec![1; 165];
    accounts[8].data = vec![1; 165];
    accounts[11].data = first.vault.to_bytes();

    let init_error = p.process_init_market(100, 300, &accounts).expect_err("init_error");
    assert_eq!(init_error, ProcessError::Amm(AmmError::AlreadyInUse));
    // The failed call requested nothing, so the ledger still reads what the
    // first call set.
    assert_eq!(
        Vault::try_from_bytes(&accounts[11].data),
        Some(Vault { token_x_amount: 100, token_y_amount: 300 }),
    );
}

#[test]
fn swap_x_to_y() {
    let p = processor();
    let pda = market_pda(&p, &addr(MINTER_X), &addr(MINTER_Y));
    let init = p.process_init_market(500, 300, &init_accounts(&p)).expect("init_market");
    let accounts = swap_accounts(&p, init.vault.to_bytes());
    let plan = p.process_swap(100, addr(MINTER_X), &accounts).expect("swap");
    assert_eq!(plan.take_transfer.amount, 100);
    assert_eq!(plan.give_transfer.amount, 50);
    assert_eq!(plan.take_transfer.source, addr(USER_TOKEN_X));
    assert_eq!(plan.take_transfer.destination, pda.pda_token_x_pk);
    assert_eq!(plan.take_transfer.authority, TransferAuthority::Signer(addr(USER_OWNER_X)));
    assert_eq!(plan.give_transfer.source, pda.pda_token_y_pk);
    assert_eq!(plan.give_transfer.destination, addr(USER_TOKEN_Y));
    assert_eq!(
        plan.give_transfer.authority,
        TransferAuthority::Derived {
            address: pda.pda_owner_token_y.0.dup(),
            role: SeedRole::OwnerY,
            bump: pda.pda_owner_token_y.1,
        },
    );
    // The ledger updates to {600, 250} and K does not decrease.
    assert_eq!(plan.vault, Vault { token_x_amount: 600, token_y_amount: 250 });
    assert!(600u128 * 250u128 >= 500u128 * 300u128);
}

#[test]
fn swap_y_to_x() {
    let p = processor();
    let pda = market_pda(&p, &addr(MINTER_X), &addr(MINTER_Y));
    let init = p.process_init_market(500, 300, &init_accounts(&p)).expect("init_market");
    let accounts = swap_accounts(&p, init.vault.to_bytes());
    let plan = p.process_swap(100, addr(MINTER_Y), &accounts).expect("swap");
    assert_eq!(plan.take_transfer.amount, 100);
    assert_eq!(plan.give_transfer.amount, 125);
    assert_eq!(plan.take_transfer.source, addr(USER_TOKEN_Y));
    assert_eq!(plan.take_transfer.destination, pda.pda_token_y_pk);
    assert_eq!(plan.give_transfer.source, pda.pda_token_x_pk);
    assert_eq!(plan.give_transfer.destination, addr(USER_TOKEN_X));
    assert_eq!(
        plan.give_transfer.authority,
        TransferAuthority::Derived {
            address: pda.pda_owner_token_x.0.dup(),
            role: SeedRole::OwnerX,
            bump: pda.pda_owner_token_x.1,
        },
    );
    assert_eq!(plan.vault, Vault { token_x_amount: 375, token_y_amount: 400 });
    assert!(375u128 * 400u128 >= 500u128 * 300u128);
}

#[test]
fn swap_x_to_y_revert_amount() {
    let p = processor();
    let init = p.process_init_market(300, 500, &init_accounts(&p)).expect("init_market");
    let accounts = swap_accounts(&p, init.vault.to_bytes());
    let plan = p.process_swap(100, addr(MINTER_X), &accounts).expect("swap");
    assert_eq!(plan.take_transfer.amount, 100);
    assert_eq!(plan.give_transfer.amount, 125);
    assert_eq!(plan.vault, Vault { token_x_amount: 400, token_y_amount: 375 });
    assert!(400u128 * 375u128 >= 300u128 * 500u128);
}

#[test]
fn swap_y_to_x_revert_amount() {
    let p = processor();
    let init = p.process_init_market(300, 500, &init_accounts(&p)).expect("init_market");
    let accounts = swap_accounts(&p, init.vault.to_bytes());
    let plan = p.process_swap(100, addr(MINTER_Y), &accounts).expect("swap");
    assert_eq!(plan.take_transfer.amount, 100);
    assert_eq!(plan.give_transfer.amount, 50);
    assert_eq!(plan.vault, Vault { token_x_amount: 250, token_y_amount: 600 });
    assert!(250u128 * 600u128 >= 300u128 * 500u128);
}

#[test]
fn swap_without_inited_market() {
    let p = processor();
    // No vault record exists: its account carries no data.
    let accounts = swap_accounts(&p, vec![]);
    let swap_error = p.process_swap(100, addr(MINTER_Y), &accounts).expect_err("swap_error");
    assert_eq!(swap_error, ProcessError::Amm(AmmError::InvalidVault));
}

#[test]
fn swap_zero_amount() {
    let p = processor();
    // The amount is rejected before any ledger read: the vault record may
    // not even exist.
    let accounts = swap_accounts(&p, vec![]);
    let swap_error = p.process_swap(0, addr(MINTER_Y), &accounts).expect_err("swap_error");
    assert_eq!(swap_error, ProcessError::Amm(AmmError::AmountZero));
}

#[test]
fn swap_unknown_selected_asset() {
    let p = processor();
    let vault = Vault { token_x_amount: 500, token_y_amount: 300 };
    let accounts = swap_accounts(&p, vault.to_bytes());
    let swap_error = p.process_swap(100, addr(77), &accounts).expect_err("swap_error");
    assert_eq!(swap_error, ProcessError::Amm(AmmError::IncorrectSwapPk));
}

#[test]
fn swap_degenerate_amount() {
    let p = processor();
    let vault = Vault { token_x_amount: 1_000_000, token_y_amount: 1 };
    let accounts = swap_accounts(&p, vault.to_bytes());
    let swap_error = p.process_swap(1, addr(MINTER_X), &accounts).expect_err("swap_error");
    assert_eq!(swap_error, ProcessError::Amm(AmmError::CalculatedZeroSwap));
}

#[test]
fn two_sequential_swaps_stay_consistent() {
    let p = processor();
    let init = p.process_init_market(500, 300, &init_accounts(&p)).expect("init_market");

    let first = p
        .process_swap(100, addr(MINTER_X), &swap_accounts(&p, init.vault.to_bytes()))
        .expect("first swap");
    assert_eq!(first.vault, Vault { token_x_amount: 600, token_y_amount: 250 });
    let k0 = 500u128 * 300u128;
    let k1 = first.vault.token_x_amount as u128 * first.vault.token_y_amount as u128;
    assert!(k1 >= k0);

    let second = p
        .process_swap(50, addr(MINTER_Y), &swap_accounts(&p, first.vault.to_bytes()))
        .expect("second swap");
    let k2 = second.vault.token_x_amount as u128 * second.vault.token_y_amount as u128;
    assert!(k2 >= k1);

    // The ledger equals the initial deposit moved by the committed deltas.
    let x0 = 500i128 + first.take_transfer.amount as i128 - second.give_transfer.amount as i128;
    let y0 = 300i128 - first.give_transfer.amount as i128 + second.take_transfer.amount as i128;
    assert_eq!(second.vault.token_x_amount as i128, x0);
    assert_eq!(second.vault.token_y_amount as i128, y0);
    assert_eq!(second.vault, Vault { token_x_amount: 500, token_y_amount: 300 });
}

#[test]
fn process_dispatches_by_discriminant() {
    let p = processor();
    let init_bytes = (AmmInstruction::InitMarket { amount_x: 100, amount_y: 300 }).to_bytes();
    match p.process(&init_bytes, &init_accounts(&p)).expect("init") {
        Plan::Init(plan) => {
            assert_eq!(plan.vault, Vault { token_x_amount: 100, token_y_amount: 300 })
        },
        Plan::Swap(_) => panic!("expected a creation plan"),
    }

    let vault = Vault { token_x_amount: 500, token_y_amount: 300 };
    let swap_bytes = (AmmInstruction::Swap { amount: 100, minter_pk: addr(MINTER_X) }).to_bytes();
    match p.process(&swap_bytes, &swap_accounts(&p, vault.to_bytes())).expect("swap") {
        Plan::Swap(plan) => {
            assert_eq!(plan.vault, Vault { token_x_amount: 600, token_y_amount: 250 })
        },
        Plan::Init(_) => panic!("expected a swap plan"),
    }

    let garbage = vec![9u8; 20];
    assert_eq!(
        p.process(&garbage, &init_accounts(&p)).expect_err("garbage"),
        ProcessError::InvalidInstruction,
    );
}

#[test]
fn swap_overflowing_reserve_update() {
    let p = processor();
    // K = 2^63 * 4 and the offer doubles the source reserve: the adjusted
    // source reserve is 2^64, which no longer fits the ledger field.
    let vault = Vault { token_x_amount: 1 << 63, token_y_amount: 4 };
    let accounts = swap_accounts(&p, vault.to_bytes());
    let swap_error = p.process_swap(1 << 63, addr(MINTER_X), &accounts).expect_err("swap_error");
    assert_eq!(swap_error, ProcessError::Amm(AmmError::Overflow));
}

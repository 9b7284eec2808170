use amm::addr::Addr;
use amm::instruction::{AmmInstruction, ProgramIds};
use amm::pda::{find_pk_and_bump, Pda};
use solana_program::pubkey::Pubkey;

fn to_addr(pk: &Pubkey) -> Addr {
    Addr::new(pk.to_bytes().to_vec()).unwrap()
}

fn addr(b: u8) -> Addr {
    Addr::new(vec![b; 32]).unwrap()
}

fn ids() -> ProgramIds {
    ProgramIds {
        program_id: addr(200),
        token_program_id: to_addr(&spl_token::id()),
        ata_program_id: to_addr(&spl_associated_token_account::id()),
        system_program_id: addr(201),
        rent_sysvar_id: addr(202),
    }
}

#[test]
fn derivation_matches_host_recomputation() {
    let minter_x = Pubkey::new_from_array([1; 32]);
    let minter_y = Pubkey::new_from_array([2; 32]);
    let token_prog = spl_token::id();
    let program = Pubkey::new_from_array([9; 32]);

    let pda = Pda::generate(
        &to_addr(&minter_x),
        &to_addr(&minter_y),
        &to_addr(&token_prog),
        &to_addr(&program),
    )
    .expect("generate");

    let seeds_of = |tag: &[u8]| {
        Pubkey::find_program_address(
            &[tag, &minter_x.to_bytes(), &minter_y.to_bytes(), &token_prog.to_bytes()],
            &program,
        )
    };
    let (owner_x, bump_x) = seeds_of(b"SPL_TOKEN_X_OWNER");
    let (owner_y, bump_y) = seeds_of(b"SPL_TOKEN_Y_OWNER");
    let (vault, bump_v) = seeds_of(b"VAULT");
    assert_eq!(pda.pda_owner_token_x, (to_addr(&owner_x), bump_x));
    assert_eq!(pda.pda_owner_token_y, (to_addr(&owner_y), bump_y));
    assert_eq!(pda.vault, (to_addr(&vault), bump_v));
    assert_eq!(
        pda.pda_token_x_pk,
        to_addr(&spl_associated_token_account::get_associated_token_address(&owner_x, &minter_x)),
    );
    assert_eq!(
        pda.pda_token_y_pk,
        to_addr(&spl_associated_token_account::get_associated_token_address(&owner_y, &minter_y)),
    );

    let direct = find_pk_and_bump(
        "SPL_TOKEN_X_OWNER",
        &to_addr(&minter_x),
        &to_addr(&minter_y),
        &to_addr(&token_prog),
        &to_addr(&program),
    )
    .expect("find_pk_and_bump");
    assert_eq!(direct, (to_addr(&owner_x), bump_x));
}

#[test]
fn derivation_deterministic() {
    let x = addr(1);
    let y = addr(2);
    let t = addr(3);
    let p = addr(4);
    let first = Pda::generate(&x, &y, &t, &p).expect("first");
    let second = Pda::generate(&x, &y, &t, &p).expect("second");
    assert_eq!(first, second);
}

#[test]
fn derivation_role_swap_changes_addresses() {
    let x = addr(1);
    let y = addr(2);
    let t = addr(3);
    let p = addr(4);
    let forward = Pda::generate(&x, &y, &t, &p).expect("forward");
    let backward = Pda::generate(&y, &x, &t, &p).expect("backward");
    assert_ne!(forward.pda_owner_token_x.0, backward.pda_owner_token_x.0);
    assert_ne!(forward.pda_owner_token_y.0, backward.pda_owner_token_y.0);
    assert_ne!(forward.pda_token_x_pk, backward.pda_token_x_pk);
    assert_ne!(forward.pda_token_y_pk, backward.pda_token_y_pk);
    assert_ne!(forward.vault.0, backward.vault.0);
    // The three roles of one market are pairwise distinct as well.
    assert_ne!(forward.pda_owner_token_x.0, forward.pda_owner_token_y.0);
    assert_ne!(forward.pda_owner_token_x.0, forward.vault.0);
    assert_ne!(forward.pda_owner_token_y.0, forward.vault.0);
}

#[test]
fn init_market_request_layout() {
    let ids = ids();
    let minter_x = addr(1);
    let minter_y = addr(2);
    let pda = Pda::generate(&minter_x, &minter_y, &ids.token_program_id, &ids.program_id)
        .expect("pda");
    let plan = AmmInstruction::init_market(
        100,
        300,
        &addr(10),
        &addr(11),
        &addr(12),
        &addr(13),
        &addr(14),
        &minter_x,
        &minter_y,
        &ids,
    )
    .expect("plan");
    assert_eq!(plan.program_id, ids.program_id);
    assert_eq!(plan.data, (AmmInstruction::InitMarket { amount_x: 100, amount_y: 300 }).to_bytes());
    assert_eq!(plan.accounts.len(), 16);
    let expect = [
        (addr(10), true, false),
        (addr(11), true, false),
        (addr(12), true, true),
        (addr(13), false, true),
        (addr(14), false, true),
        (minter_x.dup(), false, false),
        (minter_y.dup(), false, false),
        (pda.pda_token_x_pk.dup(), false, true),
        (pda.pda_token_y_pk.dup(), false, true),
        (pda.pda_owner_token_x.0.dup(), false, false),
        (pda.pda_owner_token_y.0.dup(), false, false),
        (pda.vault.0.dup(), false, true),
        (ids.rent_sysvar_id.dup(), false, false),
        (ids.system_program_id.dup(), false, false),
        (ids.token_program_id.dup(), false, false),
        (ids.ata_program_id.dup(), false, false),
    ];
    for (i, (key, signer, writable)) in expect.iter().enumerate() {
        assert_eq!(&plan.accounts[i].key, key, "slot {}", i);
        assert_eq!(plan.accounts[i].is_signer, *signer, "slot {}", i);
        assert_eq!(plan.accounts[i].is_writable, *writable, "slot {}", i);
    }
}

#[test]
fn swap_request_layout() {
    let ids = ids();
    let minter_x = addr(1);
    let minter_y = addr(2);
    let pda = Pda::generate(&minter_x, &minter_y, &ids.token_program_id, &ids.program_id)
        .expect("pda");
    let plan = AmmInstruction::swap(
        100,
        &minter_x,
        &addr(10),
        &addr(13),
        &addr(14),
        &minter_x,
        &minter_y,
        &ids,
    )
    .expect("plan");
    assert_eq!(plan.program_id, ids.program_id);
    assert_eq!(
        plan.data,
        (AmmInstruction::Swap { amount: 100, minter_pk: minter_x.dup() }).to_bytes(),
    );
    assert_eq!(plan.accounts.len(), 11);
    let expect = [
        (addr(10), true, true),
        (addr(13), false, true),
        (addr(14), false, true),
        (minter_x.dup(), false, false),
        (minter_y.dup(), false, false),
        (pda.pda_token_x_pk.dup(), false, true),
        (pda.pda_token_y_pk.dup(), false, true),
        (pda.pda_owner_token_x.0.dup(), false, false),
        (pda.pda_owner_token_y.0.dup(), false, false),
        (pda.vault.0.dup(), false, true),
        (ids.token_program_id.dup(), false, false),
    ];
    for (i, (key, signer, writable)) in expect.iter().enumerate() {
        assert_eq!(&plan.accounts[i].key, key, "slot {}", i);
        assert_eq!(plan.accounts[i].is_signer, *signer, "slot {}", i);
        assert_eq!(plan.accounts[i].is_writable, *writable, "slot {}", i);
    }
}

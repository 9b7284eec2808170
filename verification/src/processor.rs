use vstd::prelude::*;
use crate::addr::Addr;
use crate::error::{AmmError, ProcessError};
use crate::instruction::{instruction_bytes_wf, AmmInstruction};
use crate::pda::{ata_of, derivations_ok, owner_x_of, owner_y_of, vault_of, Pda, SeedRole};
use crate::state::{u64_from_le, Vault};
use crate::swap::{calc_swap, calc_swap_spec, lemma_new_source_bounded, lemma_swap_non_decreasing, SwapDirection, SwapResult};

verus! {

/// What the processor reads of one account in the positional list: its
/// address, whether it signs the invocation, and its stored bytes (empty
/// for an account that does not exist yet).
#[derive(Debug, PartialEq, Eq)]
pub struct AccountView {
    pub key: Addr,
    pub is_signer: bool,
    pub data: Vec<u8>,
}

/// Who authorizes a token transfer: the signing caller, or a derived
/// authority the program signs for by reconstructing its seed material.
#[derive(Debug, PartialEq, Eq)]
pub enum TransferAuthority {
    /// An ordinary signature by this account.
    Signer(Addr),
    /// A derived-authority signature: the seed tag of `role`, the two
    /// mints, the token-service identity, and `bump` reconstruct `address`.
    Derived { address: Addr, role: SeedRole, bump: u8 },
}

/// A request to the token-transfer collaborator.
#[derive(Debug, PartialEq, Eq)]
pub struct TokenTransfer {
    pub source: Addr,
    pub destination: Addr,
    pub authority: TransferAuthority,
    pub amount: u64,
}

/// A request to create one pool holding account, owned by a derived
/// authority, for one asset.
#[derive(Debug, PartialEq, Eq)]
pub struct CreateHolding {
    pub payer: Addr,
    pub owner: Addr,
    pub mint: Addr,
    pub address: Addr,
}

/// A request to create the vault record account at its derived address,
/// signed for with the vault seed material and `bump`.
#[derive(Debug, PartialEq, Eq)]
pub struct CreateVaultAccount {
    pub payer: Addr,
    pub address: Addr,
    pub bump: u8,
    pub size: u64,
}

/// Everything a successful market creation asks of the collaborators, in
/// the order it must be performed: create the two holding accounts, move
/// the two deposits, create the vault account, then persist `vault`.
#[derive(Debug, PartialEq, Eq)]
pub struct InitPlan {
    pub create_holding_x: CreateHolding,
    pub create_holding_y: CreateHolding,
    pub deposit_x: TokenTransfer,
    pub deposit_y: TokenTransfer,
    pub create_vault: CreateVaultAccount,
    pub vault: Vault,
}

/// Everything a successful swap asks of the collaborators, in order: move
/// the taken amount into the pool, move the returned amount out, then
/// persist `vault`.
#[derive(Debug, PartialEq, Eq)]
pub struct SwapPlan {
    pub take_transfer: TokenTransfer,
    pub give_transfer: TokenTransfer,
    pub vault: Vault,
}

/// The outcome of one decoded invocation.
#[derive(Debug, PartialEq, Eq)]
pub enum Plan {
    Init(InitPlan),
    Swap(SwapPlan),
}

/// The instruction-processing state machine. It validates an untrusted
/// account list against recomputed derivations, applies the business rules,
/// and answers with the exact requests the host must perform; it never
/// performs them itself, so a failed invocation carries no effect.
#[derive(Debug, PartialEq, Eq)]
pub struct Processor {
    /// The identity this program runs under.
    pub program_id: Addr,
    /// The identity of the fungible-token service.
    pub token_program_id: Addr,
}

/// Whether the five derived-address slots of the creation list equal their
/// recomputation from the two mints.
pub open spec fn init_seeds_match(
    token_program_id: Seq<u8>,
    program_id: Seq<u8>,
    s: Seq<AccountView>,
) -> bool {
    let ox = owner_x_of(s[5].key@, s[6].key@, token_program_id, program_id)->0;
    let oy = owner_y_of(s[5].key@, s[6].key@, token_program_id, program_id)->0;
    let va = vault_of(s[5].key@, s[6].key@, token_program_id, program_id)->0;
    &&& s[9].key@ == ox.0
    &&& s[10].key@ == oy.0
    &&& s[7].key@ == ata_of(ox.0, s[5].key@)
    &&& s[8].key@ == ata_of(oy.0, s[6].key@)
    &&& s[11].key@ == va.0
}

/// The first rule a market creation breaks, if any, in the order the rules
/// are checked: enough accounts, three signatures, distinct mints, matching
/// derivations, non-zero deposits, and a market not yet in use.
pub open spec fn init_error_spec(
    token_program_id: Seq<u8>,
    program_id: Seq<u8>,
    amount_x: u64,
    amount_y: u64,
    s: Seq<AccountView>,
) -> Option<ProcessError> {
    if s.len() < 16 {
        Some(ProcessError::NotEnoughAccounts)
    } else if !s[0].is_signer || !s[1].is_signer || !s[2].is_signer {
        Some(ProcessError::MissingSignature)
    } else if s[5].key@ == s[6].key@ {
        Some(ProcessError::Amm(AmmError::IdenticalMinter))
    } else if !derivations_ok(s[5].key@, s[6].key@, token_program_id, program_id) {
        Some(ProcessError::InvalidSeeds)
    } else if !init_seeds_match(token_program_id, program_id, s) {
        Some(ProcessError::InvalidSeeds)
    } else if amount_x == 0 || amount_y == 0 {
        Some(ProcessError::Amm(AmmError::AmountZero))
    } else if s[7].data@.len() > 0 || s[8].data@.len() > 0 || s[11].data@.len() > 0 {
        Some(ProcessError::Amm(AmmError::AlreadyInUse))
    } else {
        None
    }
}

/// What a successful market creation requests, slot by slot.
pub open spec fn init_plan_ok(
    token_program_id: Seq<u8>,
    program_id: Seq<u8>,
    amount_x: u64,
    amount_y: u64,
    s: Seq<AccountView>,
    p: InitPlan,
) -> bool {
    let ox = owner_x_of(s[5].key@, s[6].key@, token_program_id, program_id)->0;
    let oy = owner_y_of(s[5].key@, s[6].key@, token_program_id, program_id)->0;
    let va = vault_of(s[5].key@, s[6].key@, token_program_id, program_id)->0;
    &&& p.create_holding_x.payer@ == s[2].key@
    &&& p.create_holding_x.owner@ == ox.0
    &&& p.create_holding_x.mint@ == s[5].key@
    &&& p.create_holding_x.address@ == ata_of(ox.0, s[5].key@)
    &&& p.create_holding_y.payer@ == s[2].key@
    &&& p.create_holding_y.owner@ == oy.0
    &&& p.create_holding_y.mint@ == s[6].key@
    &&& p.create_holding_y.address@ == ata_of(oy.0, s[6].key@)
    &&& p.deposit_x.source@ == s[3].key@
    &&& p.deposit_x.destination@ == ata_of(ox.0, s[5].key@)
    &&& (p.deposit_x.authority matches TransferAuthority::Signer(a) && a@ == s[0].key@)
    &&& p.deposit_x.amount == amount_x
    &&& p.deposit_y.source@ == s[4].key@
    &&& p.deposit_y.destination@ == ata_of(oy.0, s[6].key@)
    &&& (p.deposit_y.authority matches TransferAuthority::Signer(a) && a@ == s[1].key@)
    &&& p.deposit_y.amount == amount_y
    &&& p.create_vault.payer@ == s[2].key@
    &&& p.create_vault.address@ == va.0
    &&& p.create_vault.bump == va.1
    &&& p.create_vault.size == 16
    &&& p.vault == (Vault { token_x_amount: amount_x, token_y_amount: amount_y })
}

/// Whether the five derived-address slots of the swap list equal their
/// recomputation from the two mints.
pub open spec fn swap_seeds_match(
    token_program_id: Seq<u8>,
    program_id: Seq<u8>,
    s: Seq<AccountView>,
) -> bool {
    let ox = owner_x_of(s[3].key@, s[4].key@, token_program_id, program_id)->0;
    let oy = owner_y_of(s[3].key@, s[4].key@, token_program_id, program_id)->0;
    let va = vault_of(s[3].key@, s[4].key@, token_program_id, program_id)->0;
    &&& s[7].key@ == ox.0
    &&& s[8].key@ == oy.0
    &&& s[5].key@ == ata_of(ox.0, s[3].key@)
    &&& s[6].key@ == ata_of(oy.0, s[4].key@)
    &&& s[9].key@ == va.0
}

/// The reserve paid into, under the ledger `v`, for a given direction.
pub open spec fn reserve_in(v: Vault, dir: SwapDirection) -> u64 {
    if dir == SwapDirection::XtoY {
        v.token_x_amount
    } else {
        v.token_y_amount
    }
}

/// The reserve paid out of, under the ledger `v`, for a given direction.
pub open spec fn reserve_out(v: Vault, dir: SwapDirection) -> u64 {
    if dir == SwapDirection::XtoY {
        v.token_y_amount
    } else {
        v.token_x_amount
    }
}

/// The ledger after committing a swap result in a given direction.
pub open spec fn vault_after_swap(v: Vault, dir: SwapDirection, res: SwapResult) -> Vault
    recommends
        reserve_in(v, dir) + res.take_amount <= u64::MAX,
        res.return_amount <= reserve_out(v, dir),
{
    if dir == SwapDirection::XtoY {
        Vault {
            token_x_amount: (v.token_x_amount + res.take_amount) as u64,
            token_y_amount: (v.token_y_amount - res.return_amount) as u64,
        }
    } else {
        Vault {
            token_x_amount: (v.token_x_amount - res.return_amount) as u64,
            token_y_amount: (v.token_y_amount + res.take_amount) as u64,
        }
    }
}

/// The direction a swap resolves to under the two mints of the account
/// list: paying in X when the selected asset is mint X, otherwise in Y.
pub open spec fn swap_direction_spec(mpk: Seq<u8>, s: Seq<AccountView>) -> SwapDirection {
    if mpk == s[3].key@ {
        SwapDirection::XtoY
    } else {
        SwapDirection::YtoX
    }
}

/// The first rule a swap breaks, if any, in the order the rules are
/// checked: enough accounts, a signing caller, distinct mints, a selected
/// asset that belongs to the market, matching derivations, a non-zero
/// amount (checked before any ledger read), a decodable vault, a
/// non-degenerate exchange, and reserves the update arithmetic can carry.
pub open spec fn swap_error_spec(
    token_program_id: Seq<u8>,
    program_id: Seq<u8>,
    amount: u64,
    mpk: Seq<u8>,
    s: Seq<AccountView>,
) -> Option<ProcessError> {
    if s.len() < 11 {
        Some(ProcessError::NotEnoughAccounts)
    } else if !s[0].is_signer {
        Some(ProcessError::MissingSignature)
    } else if s[3].key@ == s[4].key@ {
        Some(ProcessError::Amm(AmmError::IdenticalMinter))
    } else if mpk != s[3].key@ && mpk != s[4].key@ {
        Some(ProcessError::Amm(AmmError::IncorrectSwapPk))
    } else if !derivations_ok(s[3].key@, s[4].key@, token_program_id, program_id) {
        Some(ProcessError::InvalidSeeds)
    } else if !swap_seeds_match(token_program_id, program_id, s) {
        Some(ProcessError::InvalidSeeds)
    } else if amount == 0 {
        Some(ProcessError::Amm(AmmError::AmountZero))
    } else if Vault::decode_spec(s[9].data@) is None {
        Some(ProcessError::Amm(AmmError::InvalidVault))
    } else {
        let v = Vault::decode_spec(s[9].data@)->0;
        let dir = swap_direction_spec(mpk, s);
        let rin = reserve_in(v, dir);
        let rout = reserve_out(v, dir);
        if calc_swap_spec(amount, rin, rout) is None {
            Some(ProcessError::Amm(AmmError::CalculatedZeroSwap))
        } else {
            let res = calc_swap_spec(amount, rin, rout)->0;
            if rin + res.take_amount > u64::MAX {
                Some(ProcessError::Amm(AmmError::Overflow))
            } else if rout < res.return_amount {
                Some(ProcessError::Amm(AmmError::Underflow))
            } else {
                None
            }
        }
    }
}

/// What a successful swap requests: the taken amount moves from the caller
/// into the incoming pool under the caller's signature, the returned amount
/// moves from the outgoing pool to the caller under the derived authority
/// of that pool's owner, and the ledger advances by exactly those deltas.
pub open spec fn swap_plan_ok(
    token_program_id: Seq<u8>,
    program_id: Seq<u8>,
    amount: u64,
    mpk: Seq<u8>,
    s: Seq<AccountView>,
    p: SwapPlan,
) -> bool {
    let ox = owner_x_of(s[3].key@, s[4].key@, token_program_id, program_id)->0;
    let oy = owner_y_of(s[3].key@, s[4].key@, token_program_id, program_id)->0;
    let v = Vault::decode_spec(s[9].data@)->0;
    let dir = swap_direction_spec(mpk, s);
    let res = calc_swap_spec(amount, reserve_in(v, dir), reserve_out(v, dir))->0;
    &&& p.take_transfer.amount == res.take_amount
    &&& p.give_transfer.amount == res.return_amount
    &&& (p.take_transfer.authority matches TransferAuthority::Signer(a) && a@ == s[0].key@)
    &&& p.vault == vault_after_swap(v, dir, res)
    &&& if dir == SwapDirection::XtoY {
        &&& p.take_transfer.source@ == s[1].key@
        &&& p.take_transfer.destination@ == ata_of(ox.0, s[3].key@)
        &&& p.give_transfer.source@ == ata_of(oy.0, s[4].key@)
        &&& p.give_transfer.destination@ == s[2].key@
        &&& (p.give_transfer.authority matches TransferAuthority::Derived { address, role, bump }
            && address@ == oy.0 && role == SeedRole::OwnerY && bump == oy.1)
    } else {
        &&& p.take_transfer.source@ == s[2].key@
        &&& p.take_transfer.destination@ == ata_of(oy.0, s[4].key@)
        &&& p.give_transfer.source@ == ata_of(ox.0, s[3].key@)
        &&& p.give_transfer.destination@ == s[1].key@
        &&& (p.give_transfer.authority matches TransferAuthority::Derived { address, role, bump }
            && address@ == ox.0 && role == SeedRole::OwnerX && bump == ox.1)
    }
}

impl Processor {
    /// A processor running under the given program and token-service
    /// identities.
    pub fn new(program_id: Addr, token_program_id: Addr) -> (r: Processor)
        ensures
            r.program_id@ == program_id@,
            r.token_program_id@ == token_program_id@,
    {
        Processor { program_id, token_program_id }
    }

    /// Validates a market creation and answers with the exact creation,
    /// deposit and vault requests; any broken rule aborts with the first
    /// error of `init_error_spec` and requests nothing.
    pub fn process_init_market(&self, amount_x: u64, amount_y: u64, accounts: &[AccountView]) -> (r:
        Result<InitPlan, ProcessError>)
        ensures
            r is Err <==> init_error_spec(
                self.token_program_id@,
                self.program_id@,
                amount_x,
                amount_y,
                accounts@,
            ) is Some,
            r matches Err(e) ==> Some(e) == init_error_spec(
                self.token_program_id@,
                self.program_id@,
                amount_x,
                amount_y,
                accounts@,
            ),
            r matches Ok(p) ==> init_plan_ok(
                self.token_program_id@,
                self.program_id@,
                amount_x,
                amount_y,
                accounts@,
                p,
            ),
    {
        if accounts.len() < 16 {
            return Err(ProcessError::NotEnoughAccounts);
        }
        if !accounts[0].is_signer {
            return Err(ProcessError::MissingSignature);
        }
        if !accounts[1].is_signer {
            return Err(ProcessError::MissingSignature);
        }
        if !accounts[2].is_signer {
            return Err(ProcessError::MissingSignature);
        }
        if accounts[5].key.equals(&accounts[6].key) {
            return Err(ProcessError::Amm(AmmError::IdenticalMinter));
        }
        let pda = match Pda::generate(
            &accounts[5].key,
            &accounts[6].key,
            &self.token_program_id,
            &self.program_id,
        ) {
            Some(p) => p,
            None => {
                return Err(ProcessError::InvalidSeeds);
            },
        };
        if !accounts[9].key.equals(&pda.pda_owner_token_x.0) {
            return Err(ProcessError::InvalidSeeds);
        }
        if !accounts[10].key.equals(&pda.pda_owner_token_y.0) {
            return Err(ProcessError::InvalidSeeds);
        }
        if !accounts[7].key.equals(&pda.pda_token_x_pk) {
            return Err(ProcessError::InvalidSeeds);
        }
        if !accounts[8].key.equals(&pda.pda_token_y_pk) {
            return Err(ProcessError::InvalidSeeds);
        }
        if !accounts[11].key.equals(&pda.vault.0) {
            return Err(ProcessError::InvalidSeeds);
        }
        if amount_x == 0 || amount_y == 0 {
            return Err(ProcessError::Amm(AmmError::AmountZero));
        }
        if accounts[7].data.len() > 0 {
            return Err(ProcessError::Amm(AmmError::AlreadyInUse));
        }
        if accounts[8].data.len() > 0 {
            return Err(ProcessError::Amm(AmmError::AlreadyInUse));
        }
        if accounts[11].data.len() > 0 {
            return Err(ProcessError::Amm(AmmError::AlreadyInUse));
        }
        Ok(
            InitPlan {
                create_holding_x: CreateHolding {
                    payer: accounts[2].key.dup(),
                    owner: pda.pda_owner_token_x.0.dup(),
                    mint: accounts[5].key.dup(),
                    address: pda.pda_token_x_pk.dup(),
                },
                create_holding_y: CreateHolding {
                    payer: accounts[2].key.dup(),
                    owner: pda.pda_owner_token_y.0.dup(),
                    mint: accounts[6].key.dup(),
                    address: pda.pda_token_y_pk.dup(),
                },
                deposit_x: TokenTransfer {
                    source: accounts[3].key.dup(),
                    destination: pda.pda_token_x_pk.dup(),
                    authority: TransferAuthority::Signer(accounts[0].key.dup()),
                    amount: amount_x,
                },
                deposit_y: TokenTransfer {
                    source: accounts[4].key.dup(),
                    destination: pda.pda_token_y_pk.dup(),
                    authority: TransferAuthority::Signer(accounts[1].key.dup()),
                    amount: amount_y,
                },
                create_vault: CreateVaultAccount {
                    payer: accounts[2].key.dup(),
                    address: pda.vault.0.dup(),
                    bump: pda.vault.1,
                    size: 16,
                },
                vault: Vault { token_x_amount: amount_x, token_y_amount: amount_y },
            },
        )
    }

    /// Validates a swap and answers with the two transfer requests and the
    /// advanced ledger; any broken rule aborts with the first error of
    /// `swap_error_spec` and requests nothing. The amount is checked before
    /// the ledger is read.
    pub fn process_swap(&self, amount: u64, minter_pk: Addr, accounts: &[AccountView]) -> (r:
        Result<SwapPlan, ProcessError>)
        ensures
            r is Err <==> swap_error_spec(
                self.token_program_id@,
                self.program_id@,
                amount,
                minter_pk@,
                accounts@,
            ) is Some,
            r matches Err(e) ==> Some(e) == swap_error_spec(
                self.token_program_id@,
                self.program_id@,
                amount,
                minter_pk@,
                accounts@,
            ),
            r matches Ok(p) ==> swap_plan_ok(
                self.token_program_id@,
                self.program_id@,
                amount,
                minter_pk@,
                accounts@,
                p,
            ),
    {
        if accounts.len() < 11 {
            return Err(ProcessError::NotEnoughAccounts);
        }
        if !accounts[0].is_signer {
            return Err(ProcessError::MissingSignature);
        }
        if accounts[3].key.equals(&accounts[4].key) {
            return Err(ProcessError::Amm(AmmError::IdenticalMinter));
        }
        if !minter_pk.equals(&accounts[3].key) && !minter_pk.equals(&accounts[4].key) {
            return Err(ProcessError::Amm(AmmError::IncorrectSwapPk));
        }
        let pda = match Pda::generate(
            &accounts[3].key,
            &accounts[4].key,
            &self.token_program_id,
            &self.program_id,
        ) {
            Some(p) => p,
            None => {
                return Err(ProcessError::InvalidSeeds);
            },
        };
        if !accounts[7].key.equals(&pda.pda_owner_token_x.0) {
            return Err(ProcessError::InvalidSeeds);
        }
        if !accounts[8].key.equals(&pda.pda_owner_token_y.0) {
            return Err(ProcessError::InvalidSeeds);
        }
        if !accounts[5].key.equals(&pda.pda_token_x_pk) {
            return Err(ProcessError::InvalidSeeds);
        }
        if !accounts[6].key.equals(&pda.pda_token_y_pk) {
            return Err(ProcessError::InvalidSeeds);
        }
        if !accounts[9].key.equals(&pda.vault.0) {
            return Err(ProcessError::InvalidSeeds);
        }
        if amount == 0 {
            return Err(ProcessError::Amm(AmmError::AmountZero));
        }
        let vault = match Vault::try_from_bytes(accounts[9].data.as_slice()) {
            Some(v) => v,
            None => {
                return Err(ProcessError::Amm(AmmError::InvalidVault));
            },
        };
        let direction = match SwapDirection::new(&minter_pk, &accounts[3].key, &accounts[4].key) {
            Some(d) => d,
            None => {
                return Err(ProcessError::Amm(AmmError::IncorrectSwapPk));
            },
        };
        let (reserve_in_now, reserve_out_now) = match direction {
            SwapDirection::XtoY => (vault.token_x_amount, vault.token_y_amount),
            SwapDirection::YtoX => (vault.token_y_amount, vault.token_x_amount),
        };
        let result = match calc_swap(amount, reserve_in_now, reserve_out_now) {
            Some(res) => res,
            None => {
                return Err(ProcessError::Amm(AmmError::CalculatedZeroSwap));
            },
        };
        let new_reserve_in = match reserve_in_now.checked_add(result.take_amount) {
            Some(v) => v,
            None => {
                return Err(ProcessError::Amm(AmmError::Overflow));
            },
        };
        let new_reserve_out = match reserve_out_now.checked_sub(result.return_amount) {
            Some(v) => v,
            None => {
                return Err(ProcessError::Amm(AmmError::Underflow));
            },
        };
        match direction {
            SwapDirection::XtoY => Ok(
                SwapPlan {
                    take_transfer: TokenTransfer {
                        source: accounts[1].key.dup(),
                        destination: pda.pda_token_x_pk.dup(),
                        authority: TransferAuthority::Signer(accounts[0].key.dup()),
                        amount: result.take_amount,
                    },
                    give_transfer: TokenTransfer {
                        source: pda.pda_token_y_pk.dup(),
                        destination: accounts[2].key.dup(),
                        authority: TransferAuthority::Derived {
                            address: pda.pda_owner_token_y.0.dup(),
                            role: SeedRole::OwnerY,
                            bump: pda.pda_owner_token_y.1,
                        },
                        amount: result.return_amount,
                    },
                    vault: Vault {
                        token_x_amount: new_reserve_in,
                        token_y_amount: new_reserve_out,
                    },
                },
            ),
            SwapDirection::YtoX => Ok(
                SwapPlan {
                    take_transfer: TokenTransfer {
                        source: accounts[2].key.dup(),
                        destination: pda.pda_token_y_pk.dup(),
                        authority: TransferAuthority::Signer(accounts[0].key.dup()),
                        amount: result.take_amount,
                    },
                    give_transfer: TokenTransfer {
                        source: pda.pda_token_x_pk.dup(),
                        destination: accounts[1].key.dup(),
                        authority: TransferAuthority::Derived {
                            address: pda.pda_owner_token_x.0.dup(),
                            role: SeedRole::OwnerX,
                            bump: pda.pda_owner_token_x.1,
                        },
                        amount: result.return_amount,
                    },
                    vault: Vault {
                        token_x_amount: new_reserve_out,
                        token_y_amount: new_reserve_in,
                    },
                },
            ),
        }
    }

    /// Decodes one invocation and dispatches it; an undecodable operation
    /// is refused before any account is looked at.
    pub fn process(&self, instruction_data: &[u8], accounts: &[AccountView]) -> (r: Result<
        Plan,
        ProcessError,
    >)
        ensures
            !instruction_bytes_wf(instruction_data@) ==> r == Result::<
                Plan,
                ProcessError,
            >::Err(ProcessError::InvalidInstruction),
            instruction_bytes_wf(instruction_data@) && instruction_data@[0] == 0 ==> ({
                let ax = u64_from_le(instruction_data@.subrange(1, 9));
                let ay = u64_from_le(instruction_data@.subrange(9, 17));
                &&& (r is Err <==> init_error_spec(
                    self.token_program_id@,
                    self.program_id@,
                    ax,
                    ay,
                    accounts@,
                ) is Some)
                &&& (r matches Err(e) ==> Some(e) == init_error_spec(
                    self.token_program_id@,
                    self.program_id@,
                    ax,
                    ay,
                    accounts@,
                ))
                &&& (r matches Ok(p) ==> p matches Plan::Init(ip) && init_plan_ok(
                    self.token_program_id@,
                    self.program_id@,
                    ax,
                    ay,
                    accounts@,
                    ip,
                ))
            }),
            instruction_bytes_wf(instruction_data@) && instruction_data@[0] == 1 ==> ({
                let amount = u64_from_le(instruction_data@.subrange(1, 9));
                let mpk = instruction_data@.subrange(9, 41);
                &&& (r is Err <==> swap_error_spec(
                    self.token_program_id@,
                    self.program_id@,
                    amount,
                    mpk,
                    accounts@,
                ) is Some)
                &&& (r matches Err(e) ==> Some(e) == swap_error_spec(
                    self.token_program_id@,
                    self.program_id@,
                    amount,
                    mpk,
                    accounts@,
                ))
                &&& (r matches Ok(p) ==> p matches Plan::Swap(sp) && swap_plan_ok(
                    self.token_program_id@,
                    self.program_id@,
                    amount,
                    mpk,
                    accounts@,
                    sp,
                ))
            }),
    {
        let ix = match AmmInstruction::try_from_bytes(instruction_data) {
            Some(ix) => ix,
            None => {
                return Err(ProcessError::InvalidInstruction);
            },
        };
        match ix {
            AmmInstruction::InitMarket { amount_x, amount_y } => {
                match self.process_init_market(amount_x, amount_y, accounts) {
                    Ok(p) => Ok(Plan::Init(p)),
                    Err(e) => Err(e),
                }
            },
            AmmInstruction::Swap { amount, minter_pk } => {
                match self.process_swap(amount, minter_pk, accounts) {
                    Ok(p) => Ok(Plan::Swap(p)),
                    Err(e) => Err(e),
                }
            },
        }
    }
}

} // verus!

verus! {

/// One committed swap as a pure ledger transition: the new ledger, or
/// nothing when the exchange is degenerate or its update arithmetic does
/// not carry.
pub open spec fn swap_step(v: Vault, dir: SwapDirection, amount: u64) -> Option<Vault> {
    let rin = reserve_in(v, dir);
    let rout = reserve_out(v, dir);
    if calc_swap_spec(amount, rin, rout) is None {
        None
    } else {
        let res = calc_swap_spec(amount, rin, rout)->0;
        if rin + res.take_amount > u64::MAX || rout < res.return_amount {
            None
        } else {
            Some(vault_after_swap(v, dir, res))
        }
    }
}

/// How a committed swap moves the X reserve: up by the taken amount when X
/// is paid in, down by the returned amount when X is paid out.
pub open spec fn swap_delta_x(v: Vault, dir: SwapDirection, amount: u64) -> int {
    let res = calc_swap_spec(amount, reserve_in(v, dir), reserve_out(v, dir))->0;
    if dir == SwapDirection::XtoY {
        res.take_amount as int
    } else {
        -(res.return_amount as int)
    }
}

/// How a committed swap moves the Y reserve.
pub open spec fn swap_delta_y(v: Vault, dir: SwapDirection, amount: u64) -> int {
    let res = calc_swap_spec(amount, reserve_in(v, dir), reserve_out(v, dir))->0;
    if dir == SwapDirection::XtoY {
        -(res.return_amount as int)
    } else {
        res.take_amount as int
    }
}

/// A committed swap never decreases the invariant `K`, leaves both reserves
/// positive, and moves the ledger by exactly the taken and returned
/// amounts.
pub proof fn lemma_swap_step(v: Vault, dir: SwapDirection, amount: u64)
    requires
        swap_step(v, dir, amount) is Some,
    ensures
        ({
            let v2 = swap_step(v, dir, amount)->0;
            &&& v2.token_x_amount * v2.token_y_amount >= v.token_x_amount * v.token_y_amount
            &&& v2.token_x_amount >= 1
            &&& v2.token_y_amount >= 1
            &&& v2.token_x_amount == v.token_x_amount + swap_delta_x(v, dir, amount)
            &&& v2.token_y_amount == v.token_y_amount + swap_delta_y(v, dir, amount)
        }),
{
    let rin = reserve_in(v, dir);
    let rout = reserve_out(v, dir);
    let res = calc_swap_spec(amount, rin, rout)->0;
    let v2 = swap_step(v, dir, amount)->0;
    lemma_swap_non_decreasing(amount, rin, rout);
    lemma_new_source_bounded(amount, rin, rout);
    assert((rin + res.take_amount) * (rout - res.return_amount) >= rin * rout);
    if dir == SwapDirection::XtoY {
        assert(v2.token_x_amount * v2.token_y_amount >= v.token_x_amount * v.token_y_amount);
    } else {
        assert(v2.token_x_amount == rout - res.return_amount);
        assert(v2.token_y_amount == rin + res.take_amount);
        assert(v2.token_x_amount * v2.token_y_amount == (rout - res.return_amount) * (rin
            + res.take_amount));
        assert((rout - res.return_amount) * (rin + res.take_amount) == (rin + res.take_amount) * (
        rout - res.return_amount)) by (nonlinear_arith);
    }
}

/// Two sequential committed swaps each keep the invariant from shrinking,
/// and leave the ledger at the initial reserves moved by exactly the sum of
/// the two committed deltas.
pub proof fn lemma_two_swaps_consistent(
    v0: Vault,
    dir1: SwapDirection,
    amount1: u64,
    dir2: SwapDirection,
    amount2: u64,
)
    requires
        swap_step(v0, dir1, amount1) is Some,
        swap_step(swap_step(v0, dir1, amount1)->0, dir2, amount2) is Some,
    ensures
        ({
            let v1 = swap_step(v0, dir1, amount1)->0;
            let v2 = swap_step(v1, dir2, amount2)->0;
            &&& v1.token_x_amount * v1.token_y_amount >= v0.token_x_amount * v0.token_y_amount
            &&& v2.token_x_amount * v2.token_y_amount >= v1.token_x_amount * v1.token_y_amount
            &&& v2.token_x_amount * v2.token_y_amount >= v0.token_x_amount * v0.token_y_amount
            &&& v2.token_x_amount == v0.token_x_amount + swap_delta_x(v0, dir1, amount1)
                + swap_delta_x(v1, dir2, amount2)
            &&& v2.token_y_amount == v0.token_y_amount + swap_delta_y(v0, dir1, amount1)
                + swap_delta_y(v1, dir2, amount2)
        }),
{
    let v1 = swap_step(v0, dir1, amount1)->0;
    lemma_swap_step(v0, dir1, amount1);
    lemma_swap_step(v1, dir2, amount2);
}

/// A successful swap is exactly one committed ledger transition: the plan's
/// new ledger is `swap_step` of the decoded ledger, so the non-decrease and
/// delta facts of `lemma_swap_step` hold of every plan the processor
/// answers with.
pub proof fn lemma_swap_ok_is_step(
    token_program_id: Seq<u8>,
    program_id: Seq<u8>,
    amount: u64,
    mpk: Seq<u8>,
    s: Seq<AccountView>,
    plan: SwapPlan,
)
    requires
        swap_error_spec(token_program_id, program_id, amount, mpk, s) is None,
        swap_plan_ok(token_program_id, program_id, amount, mpk, s, plan),
    ensures
        swap_step(
            Vault::decode_spec(s[9].data@)->0,
            swap_direction_spec(mpk, s),
            amount,
        ) == Some(plan.vault),
{
}

/// The idempotent creation guard: once a market creation has succeeded and
/// its requests were applied (so the holding accounts exist), any further
/// creation of the same market fails with `AlreadyInUse` — and, requesting
/// nothing, leaves the ledger exactly as the first call set it.
pub proof fn lemma_init_guard(
    token_program_id: Seq<u8>,
    program_id: Seq<u8>,
    amount_x1: u64,
    amount_y1: u64,
    amount_x2: u64,
    amount_y2: u64,
    s1: Seq<AccountView>,
    s2: Seq<AccountView>,
)
    requires
        init_error_spec(token_program_id, program_id, amount_x1, amount_y1, s1) is None,
        s2.len() == s1.len(),
        forall|i: int|
            0 <= i < s1.len() ==> s2[i].key@ == s1[i].key@ && s2[i].is_signer == s1[i].is_signer,
        s2[7].data@.len() > 0,
        amount_x2 != 0,
        amount_y2 != 0,
    ensures
        init_error_spec(token_program_id, program_id, amount_x2, amount_y2, s2) == Some(
            ProcessError::Amm(AmmError::AlreadyInUse),
        ),
{
    assert(s2[0].is_signer == s1[0].is_signer);
    assert(s2[1].is_signer == s1[1].is_signer);
    assert(s2[2].is_signer == s1[2].is_signer);
    assert(s2[5].key@ == s1[5].key@ && s2[6].key@ == s1[6].key@);
    assert(s2[7].key@ == s1[7].key@ && s2[8].key@ == s1[8].key@);
    assert(s2[9].key@ == s1[9].key@ && s2[10].key@ == s1[10].key@);
    assert(s2[11].key@ == s1[11].key@);
}

} // verus!

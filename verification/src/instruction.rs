use vstd::prelude::*;
use crate::addr::Addr;
use crate::pda::{ata_of, derivations_ok, owner_x_of, owner_y_of, vault_of, Pda};
use crate::state::{bytes_range, lemma_u64_le_bytes_of_read, push_bytes, push_u64_le, read_u64_le, u64_from_le, u64_le_bytes};

verus! {

/// The two operations of the market, as carried on the wire: a one-byte
/// discriminant (0 = initialize, 1 = swap) followed by the fixed-width
/// little-endian fields, with no padding.
#[derive(Debug, PartialEq, Eq)]
pub enum AmmInstruction {
    /// Creates the market of `(minter_x, minter_y)` and deposits the two
    /// initial reserve amounts.
    InitMarket { amount_x: u64, amount_y: u64 },
    /// Exchanges `amount` of the selected asset against the market.
    Swap { amount: u64, minter_pk: Addr },
}

/// Whether a byte string is a well-formed encoded operation.
pub open spec fn instruction_bytes_wf(d: Seq<u8>) -> bool {
    (d.len() == 17 && d[0] == 0) || (d.len() == 41 && d[0] == 1)
}

/// A positional slot of an operation's account list.
#[derive(Debug, PartialEq, Eq)]
pub struct AccountSlot {
    pub key: Addr,
    pub is_signer: bool,
    pub is_writable: bool,
}

/// Whether a slot carries exactly this key and these permissions.
pub open spec fn slot_is(s: AccountSlot, key: Seq<u8>, signer: bool, writable: bool) -> bool {
    s.key@ == key && s.is_signer == signer && s.is_writable == writable
}

/// A fully assembled operation request: the program to invoke, the typed
/// positional account list, and the encoded operation bytes.
#[derive(Debug, PartialEq, Eq)]
pub struct InstructionPlan {
    pub program_id: Addr,
    pub accounts: Vec<AccountSlot>,
    pub data: Vec<u8>,
}

/// The identities of the program and of the services it cooperates with,
/// threaded in as configuration rather than baked in as constants.
#[derive(Debug, PartialEq, Eq)]
pub struct ProgramIds {
    pub program_id: Addr,
    pub token_program_id: Addr,
    pub ata_program_id: Addr,
    pub system_program_id: Addr,
    pub rent_sysvar_id: Addr,
}

impl AmmInstruction {
    /// The wire bytes of the operation.
    pub open spec fn spec_bytes(&self) -> Seq<u8> {
        match self {
            AmmInstruction::InitMarket { amount_x, amount_y } => seq![0u8] + u64_le_bytes(
                *amount_x,
            ) + u64_le_bytes(*amount_y),
            AmmInstruction::Swap { amount, minter_pk } => seq![1u8] + u64_le_bytes(*amount)
                + minter_pk@,
        }
    }

    /// Serializes the operation to its wire form.
    pub fn to_bytes(&self) -> (r: Vec<u8>)
        ensures
            r@ == self.spec_bytes(),
    {
        let mut out: Vec<u8> = Vec::new();
        match self {
            AmmInstruction::InitMarket { amount_x, amount_y } => {
                out.push(0u8);
                push_u64_le(&mut out, *amount_x);
                push_u64_le(&mut out, *amount_y);
            },
            AmmInstruction::Swap { amount, minter_pk } => {
                out.push(1u8);
                push_u64_le(&mut out, *amount);
                push_bytes(&mut out, minter_pk.as_bytes());
            },
        }
        proof {
            assert(out@ =~= self.spec_bytes());
        }
        out
    }

    /// Decodes an operation from its wire form; fails on an unknown
    /// discriminant, a wrong length, or trailing bytes.
    pub fn try_from_bytes(d: &[u8]) -> (r: Option<AmmInstruction>)
        ensures
            r is Some <==> instruction_bytes_wf(d@),
            r is Some ==> match r->0 {
                AmmInstruction::InitMarket { amount_x, amount_y } => d@.len() == 17 && d@[0] == 0
                    && amount_x == u64_from_le(d@.subrange(1, 9)) && amount_y == u64_from_le(
                    d@.subrange(9, 17),
                ),
                AmmInstruction::Swap { amount, minter_pk } => d@.len() == 41 && d@[0] == 1
                    && amount == u64_from_le(d@.subrange(1, 9)) && minter_pk@ == d@.subrange(9, 41),
            },
    {
        if d.len() == 17 && d[0] == 0 {
            let amount_x = read_u64_le(d, 1);
            let amount_y = read_u64_le(d, 9);
            Some(AmmInstruction::InitMarket { amount_x, amount_y })
        } else if d.len() == 41 && d[0] == 1 {
            let amount = read_u64_le(d, 1);
            let pk_bytes = bytes_range(d, 9, 41);
            let minter_pk = Addr::new(pk_bytes).unwrap();
            Some(AmmInstruction::Swap { amount, minter_pk })
        } else {
            None
        }
    }

    /// Encoding an operation yields well-formed bytes that decode back to
    /// the same fields.
    pub proof fn lemma_codec_round_trip(&self)
        requires
            match self {
                AmmInstruction::InitMarket { amount_x: _, amount_y: _ } => true,
                AmmInstruction::Swap { amount: _, minter_pk } => minter_pk@.len() == 32,
            },
        ensures
            instruction_bytes_wf(self.spec_bytes()),
            match self {
                AmmInstruction::InitMarket { amount_x, amount_y } => u64_from_le(
                    self.spec_bytes().subrange(1, 9),
                ) == *amount_x && u64_from_le(self.spec_bytes().subrange(9, 17)) == *amount_y,
                AmmInstruction::Swap { amount, minter_pk } => u64_from_le(
                    self.spec_bytes().subrange(1, 9),
                ) == *amount && self.spec_bytes().subrange(9, 41) == minter_pk@,
            },
    {
        match self {
            AmmInstruction::InitMarket { amount_x, amount_y } => {
                crate::state::lemma_u64_le_round_trip(*amount_x);
                crate::state::lemma_u64_le_round_trip(*amount_y);
                assert(self.spec_bytes().subrange(1, 9) =~= u64_le_bytes(*amount_x));
                assert(self.spec_bytes().subrange(9, 17) =~= u64_le_bytes(*amount_y));
            },
            AmmInstruction::Swap { amount, minter_pk } => {
                crate::state::lemma_u64_le_round_trip(*amount);
                assert(self.spec_bytes().subrange(1, 9) =~= u64_le_bytes(*amount));
                assert(self.spec_bytes().subrange(9, 41) =~= minter_pk@);
            },
        }
    }

    /// Re-encoding a decoded operation gives the original bytes back: every
    /// operation has exactly one wire form. The hypotheses are what
    /// `try_from_bytes` ensures of its result.
    pub proof fn lemma_decode_encodes_back(&self, d: Seq<u8>)
        requires
            match self {
                AmmInstruction::InitMarket { amount_x, amount_y } => d.len() == 17 && d[0] == 0
                    && amount_x == u64_from_le(d.subrange(1, 9)) && amount_y == u64_from_le(
                    d.subrange(9, 17),
                ),
                AmmInstruction::Swap { amount, minter_pk } => d.len() == 41 && d[0] == 1 && amount
                    == u64_from_le(d.subrange(1, 9)) && minter_pk@ == d.subrange(9, 41),
            },
        ensures
            self.spec_bytes() == d,
    {
        match self {
            AmmInstruction::InitMarket { amount_x: _, amount_y: _ } => {
                lemma_u64_le_bytes_of_read(d.subrange(1, 9));
                lemma_u64_le_bytes_of_read(d.subrange(9, 17));
            },
            AmmInstruction::Swap { amount: _, minter_pk: _ } => {
                lemma_u64_le_bytes_of_read(d.subrange(1, 9));
            },
        }
        assert(self.spec_bytes() =~= d);
    }

    /// The five derived-address slots shared by both account lists: the two
    /// holding accounts (writable), the two owner authorities, the vault
    /// (writable).
    fn get_pda_account_meta(pda: &Pda) -> (r: Vec<AccountSlot>)
        ensures
            r@.len() == 5,
            slot_is(r@[0], pda.pda_token_x_pk@, false, true),
            slot_is(r@[1], pda.pda_token_y_pk@, false, true),
            slot_is(r@[2], pda.pda_owner_token_x.0@, false, false),
            slot_is(r@[3], pda.pda_owner_token_y.0@, false, false),
            slot_is(r@[4], pda.vault.0@, false, true),
    {
        let mut out: Vec<AccountSlot> = Vec::new();
        out.push(AccountSlot { key: pda.pda_token_x_pk.dup(), is_signer: false, is_writable: true });
        out.push(AccountSlot { key: pda.pda_token_y_pk.dup(), is_signer: false, is_writable: true });
        out.push(
            AccountSlot { key: pda.pda_owner_token_x.0.dup(), is_signer: false, is_writable: false },
        );
        out.push(
            AccountSlot { key: pda.pda_owner_token_y.0.dup(), is_signer: false, is_writable: false },
        );
        out.push(AccountSlot { key: pda.vault.0.dup(), is_signer: false, is_writable: true });
        out
    }

    /// Assembles the market-creation request: the encoded operation and the
    /// sixteen-slot account list it expects, in order.
    pub fn init_market(
        amount_x: u64,
        amount_y: u64,
        user_owner_token_x_pk: &Addr,
        user_owner_token_y_pk: &Addr,
        user_payer_pk: &Addr,
        user_token_x_pk: &Addr,
        user_token_y_pk: &Addr,
        minter_x_pk: &Addr,
        minter_y_pk: &Addr,
        ids: &ProgramIds,
    ) -> (r: Option<InstructionPlan>)
        ensures
            r is Some <==> derivations_ok(
                minter_x_pk@,
                minter_y_pk@,
                ids.token_program_id@,
                ids.program_id@,
            ),
            r is Some ==> ({
                let p = r->0;
                let ox = owner_x_of(minter_x_pk@, minter_y_pk@, ids.token_program_id@, ids.program_id@)->0;
                let oy = owner_y_of(minter_x_pk@, minter_y_pk@, ids.token_program_id@, ids.program_id@)->0;
                let va = vault_of(minter_x_pk@, minter_y_pk@, ids.token_program_id@, ids.program_id@)->0;
                &&& p.program_id@ == ids.program_id@
                &&& p.data@ == (AmmInstruction::InitMarket { amount_x, amount_y }).spec_bytes()
                &&& p.accounts@.len() == 16
                &&& slot_is(p.accounts@[0], user_owner_token_x_pk@, true, false)
                &&& slot_is(p.accounts@[1], user_owner_token_y_pk@, true, false)
                &&& slot_is(p.accounts@[2], user_payer_pk@, true, true)
                &&& slot_is(p.accounts@[3], user_token_x_pk@, false, true)
                &&& slot_is(p.accounts@[4], user_token_y_pk@, false, true)
                &&& slot_is(p.accounts@[5], minter_x_pk@, false, false)
                &&& slot_is(p.accounts@[6], minter_y_pk@, false, false)
                &&& slot_is(p.accounts@[7], ata_of(ox.0, minter_x_pk@), false, true)
                &&& slot_is(p.accounts@[8], ata_of(oy.0, minter_y_pk@), false, true)
                &&& slot_is(p.accounts@[9], ox.0, false, false)
                &&& slot_is(p.accounts@[10], oy.0, false, false)
                &&& slot_is(p.accounts@[11], va.0, false, true)
                &&& slot_is(p.accounts@[12], ids.rent_sysvar_id@, false, false)
                &&& slot_is(p.accounts@[13], ids.system_program_id@, false, false)
                &&& slot_is(p.accounts@[14], ids.token_program_id@, false, false)
                &&& slot_is(p.accounts@[15], ids.ata_program_id@, false, false)
            }),
    {
        let pda = match Pda::generate(
            minter_x_pk,
            minter_y_pk,
            &ids.token_program_id,
            &ids.program_id,
        ) {
            Some(p) => p,
            None => {
                return None;
            },
        };
        let mut accounts: Vec<AccountSlot> = Vec::new();
        accounts.push(
            AccountSlot { key: user_owner_token_x_pk.dup(), is_signer: true, is_writable: false },
        );
        accounts.push(
            AccountSlot { key: user_owner_token_y_pk.dup(), is_signer: true, is_writable: false },
        );
        accounts.push(AccountSlot { key: user_payer_pk.dup(), is_signer: true, is_writable: true });
        accounts.push(AccountSlot { key: user_token_x_pk.dup(), is_signer: false, is_writable: true });
        accounts.push(AccountSlot { key: user_token_y_pk.dup(), is_signer: false, is_writable: true });
        accounts.push(AccountSlot { key: minter_x_pk.dup(), is_signer: false, is_writable: false });
        accounts.push(AccountSlot { key: minter_y_pk.dup(), is_signer: false, is_writable: false });
        let mut pda_accounts = Self::get_pda_account_meta(&pda);
        accounts.append(&mut pda_accounts);
        accounts.push(
            AccountSlot { key: ids.rent_sysvar_id.dup(), is_signer: false, is_writable: false },
        );
        accounts.push(
            AccountSlot { key: ids.system_program_id.dup(), is_signer: false, is_writable: false },
        );
        accounts.push(
            AccountSlot { key: ids.token_program_id.dup(), is_signer: false, is_writable: false },
        );
        accounts.push(
            AccountSlot { key: ids.ata_program_id.dup(), is_signer: false, is_writable: false },
        );
        let data = (AmmInstruction::InitMarket { amount_x, amount_y }).to_bytes();
        Some(InstructionPlan { program_id: ids.program_id.dup(), accounts, data })
    }

    /// Assembles the swap request: the encoded operation and the
    /// eleven-slot account list it expects, in order.
    pub fn swap(
        amount: u64,
        minter_pk: &Addr,
        user_owner_token_pk: &Addr,
        user_token_x_pk: &Addr,
        user_token_y_pk: &Addr,
        minter_x_pk: &Addr,
        minter_y_pk: &Addr,
        ids: &ProgramIds,
    ) -> (r: Option<InstructionPlan>)
        ensures
            r is Some <==> derivations_ok(
                minter_x_pk@,
                minter_y_pk@,
                ids.token_program_id@,
                ids.program_id@,
            ),
            r is Some ==> ({
                let p = r->0;
                let ox = owner_x_of(minter_x_pk@, minter_y_pk@, ids.token_program_id@, ids.program_id@)->0;
                let oy = owner_y_of(minter_x_pk@, minter_y_pk@, ids.token_program_id@, ids.program_id@)->0;
                let va = vault_of(minter_x_pk@, minter_y_pk@, ids.token_program_id@, ids.program_id@)->0;
                &&& p.program_id@ == ids.program_id@
                &&& p.data@ == seq![1u8] + u64_le_bytes(amount) + minter_pk@
                &&& p.accounts@.len() == 11
                &&& slot_is(p.accounts@[0], user_owner_token_pk@, true, true)
                &&& slot_is(p.accounts@[1], user_token_x_pk@, false, true)
                &&& slot_is(p.accounts@[2], user_token_y_pk@, false, true)
                &&& slot_is(p.accounts@[3], minter_x_pk@, false, false)
                &&& slot_is(p.accounts@[4], minter_y_pk@, false, false)
                &&& slot_is(p.accounts@[5], ata_of(ox.0, minter_x_pk@), false, true)
                &&& slot_is(p.accounts@[6], ata_of(oy.0, minter_y_pk@), false, true)
                &&& slot_is(p.accounts@[7], ox.0, false, false)
                &&& slot_is(p.accounts@[8], oy.0, false, false)
                &&& slot_is(p.accounts@[9], va.0, false, true)
                &&& slot_is(p.accounts@[10], ids.token_program_id@, false, false)
            }),
    {
        let pda = match Pda::generate(
            minter_x_pk,
            minter_y_pk,
            &ids.token_program_id,
            &ids.program_id,
        ) {
            Some(p) => p,
            None => {
                return None;
            },
        };
        let mut accounts: Vec<AccountSlot> = Vec::new();
        accounts.push(
            AccountSlot { key: user_owner_token_pk.dup(), is_signer: true, is_writable: true },
        );
        accounts.push(AccountSlot { key: user_token_x_pk.dup(), is_signer: false, is_writable: true });
        accounts.push(AccountSlot { key: user_token_y_pk.dup(), is_signer: false, is_writable: true });
        accounts.push(AccountSlot { key: minter_x_pk.dup(), is_signer: false, is_writable: false });
        accounts.push(AccountSlot { key: minter_y_pk.dup(), is_signer: false, is_writable: false });
        let mut pda_accounts = Self::get_pda_account_meta(&pda);
        accounts.append(&mut pda_accounts);
        accounts.push(
            AccountSlot { key: ids.token_program_id.dup(), is_signer: false, is_writable: false },
        );
        let data = (AmmInstruction::Swap { amount, minter_pk: minter_pk.dup() }).to_bytes();
        Some(InstructionPlan { program_id: ids.program_id.dup(), accounts, data })
    }
}

} // verus!

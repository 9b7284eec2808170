use vstd::prelude::*;
use crate::addr::Addr;
use solana_program::pubkey::Pubkey;

verus! {

/// The derived addresses of one market. All of them are pure functions of
/// the two asset mints, the token-service identity and the program
/// identity; the bumps prove each owned derivation canonical and off-curve.
#[derive(Debug, PartialEq, Eq)]
pub struct Pda {
    /// Authority over the pool's X holding account, with its bump.
    pub pda_owner_token_x: (Addr, u8),
    /// Authority over the pool's Y holding account, with its bump.
    pub pda_owner_token_y: (Addr, u8),
    /// The pool's holding account for asset X.
    pub pda_token_x_pk: Addr,
    /// The pool's holding account for asset Y.
    pub pda_token_y_pk: Addr,
    /// The vault record's address, with its bump.
    pub vault: (Addr, u8),
}

/// The roles a derived authority can play; each role has its own seed tag,
/// so the three owned derivations of a market never collide.
#[derive(Clone, Copy, Debug, PartialEq, Eq, Structural)]
pub enum SeedRole {
    OwnerX,
    OwnerY,
    Vault,
}

/// The seed tag of each derivation role.
pub open spec fn seed_tag_spec(role: SeedRole) -> Seq<char> {
    match role {
        SeedRole::OwnerX => "SPL_TOKEN_X_OWNER"@,
        SeedRole::OwnerY => "SPL_TOKEN_Y_OWNER"@,
        SeedRole::Vault => "VAULT"@,
    }
}

/// The seed tag of a derivation role, as the text whose bytes lead the
/// seed material.
pub fn seed_tag(role: SeedRole) -> (r: &'static str)
    ensures
        r@ == seed_tag_spec(role),
{
    match role {
        SeedRole::OwnerX => "SPL_TOKEN_X_OWNER",
        SeedRole::OwnerY => "SPL_TOKEN_Y_OWNER",
        SeedRole::Vault => "VAULT",
    }
}

/// What the owned derivation returns for given seed material: the canonical
/// derived address and its bump, or nothing when the search finds no
/// off-curve address (statistically unreachable for seed material within
/// the derivation's limits, as a market's always is).
pub uninterp spec fn find_pda_of(
    tag: Seq<char>,
    minter_x: Seq<u8>,
    minter_y: Seq<u8>,
    token_program_id: Seq<u8>,
    program_id: Seq<u8>,
) -> Option<(Seq<u8>, u8)>;

/// What the token service's own addressing convention returns: the
/// canonical holding-account address for a wallet and a mint.
pub uninterp spec fn ata_of(owner: Seq<u8>, minter: Seq<u8>) -> Seq<u8>;

/// Relies on `Pubkey::try_find_program_address` of `solana_program`: the
/// result is a pure function of the seeds and the program identity, and it
/// is `None` exactly when the search finds no usable bump. The seed
/// material is the role tag followed by the two mints and the
/// token-service identity, four seeds of at most 32 bytes each, so the
/// only `None` left is the statistically unreachable exhaustion of the
/// bump space.
#[verifier::external_body]
pub fn find_pk_and_bump(
    key_name: &str,
    minter_x: &Addr,
    minter_y: &Addr,
    token_program_id: &Addr,
    program_id: &Addr,
) -> (r: Option<(Addr, u8)>)
    ensures
        r is Some <==> find_pda_of(key_name@, minter_x@, minter_y@, token_program_id@, program_id@)
            is Some,
        r is Some ==> ({
            let d = find_pda_of(key_name@, minter_x@, minter_y@, token_program_id@, program_id@)->0;
            (r->0).0@ == d.0 && (r->0).1 == d.1
        }),
{
    let program = Pubkey::new_from_array(program_id.as_bytes().as_slice().try_into().unwrap());
    let (pk, bump) = Pubkey::try_find_program_address(
        &[
            key_name.as_bytes(),
            minter_x.as_bytes().as_slice(),
            minter_y.as_bytes().as_slice(),
            token_program_id.as_bytes().as_slice(),
        ],
        &program,
    )?;
    Some((Addr::new(pk.to_bytes().to_vec()).unwrap(), bump))
}

/// Relies on `spl_associated_token_account::get_associated_token_address`:
/// the canonical associated holding account is a pure function of the
/// wallet and the mint. Its internal bump search has no fallible variant;
/// exhaustion of the derivation space is treated as unreachable there.
#[verifier::external_body]
fn associated_token_address(owner: &Addr, minter: &Addr) -> (r: Addr)
    ensures
        r@ == ata_of(owner@, minter@),
{
    let owner_pk = Pubkey::new_from_array(owner.as_bytes().as_slice().try_into().unwrap());
    let minter_pk = Pubkey::new_from_array(minter.as_bytes().as_slice().try_into().unwrap());
    let pk = spl_associated_token_account::get_associated_token_address(&owner_pk, &minter_pk);
    Addr::new(pk.to_bytes().to_vec()).unwrap()
}

/// The owner-X derivation of a market.
pub open spec fn owner_x_of(
    minter_x: Seq<u8>,
    minter_y: Seq<u8>,
    token_program_id: Seq<u8>,
    program_id: Seq<u8>,
) -> Option<(Seq<u8>, u8)> {
    find_pda_of(seed_tag_spec(SeedRole::OwnerX), minter_x, minter_y, token_program_id, program_id)
}

/// The owner-Y derivation of a market.
pub open spec fn owner_y_of(
    minter_x: Seq<u8>,
    minter_y: Seq<u8>,
    token_program_id: Seq<u8>,
    program_id: Seq<u8>,
) -> Option<(Seq<u8>, u8)> {
    find_pda_of(seed_tag_spec(SeedRole::OwnerY), minter_x, minter_y, token_program_id, program_id)
}

/// The vault derivation of a market.
pub open spec fn vault_of(
    minter_x: Seq<u8>,
    minter_y: Seq<u8>,
    token_program_id: Seq<u8>,
    program_id: Seq<u8>,
) -> Option<(Seq<u8>, u8)> {
    find_pda_of(seed_tag_spec(SeedRole::Vault), minter_x, minter_y, token_program_id, program_id)
}

/// Whether all three owned derivations of a market succeed.
pub open spec fn derivations_ok(
    minter_x: Seq<u8>,
    minter_y: Seq<u8>,
    token_program_id: Seq<u8>,
    program_id: Seq<u8>,
) -> bool {
    owner_x_of(minter_x, minter_y, token_program_id, program_id) is Some && owner_y_of(
        minter_x,
        minter_y,
        token_program_id,
        program_id,
    ) is Some && vault_of(minter_x, minter_y, token_program_id, program_id) is Some
}

/// Whether a derived-address set is the recomputation for the given market.
pub open spec fn pda_matches(
    pda: Pda,
    minter_x: Seq<u8>,
    minter_y: Seq<u8>,
    token_program_id: Seq<u8>,
    program_id: Seq<u8>,
) -> bool {
    let ox = owner_x_of(minter_x, minter_y, token_program_id, program_id)->0;
    let oy = owner_y_of(minter_x, minter_y, token_program_id, program_id)->0;
    let va = vault_of(minter_x, minter_y, token_program_id, program_id)->0;
    &&& derivations_ok(minter_x, minter_y, token_program_id, program_id)
    &&& pda.pda_owner_token_x.0@ == ox.0
    &&& pda.pda_owner_token_x.1 == ox.1
    &&& pda.pda_owner_token_y.0@ == oy.0
    &&& pda.pda_owner_token_y.1 == oy.1
    &&& pda.pda_token_x_pk@ == ata_of(ox.0, minter_x)
    &&& pda.pda_token_y_pk@ == ata_of(oy.0, minter_y)
    &&& pda.vault.0@ == va.0
    &&& pda.vault.1 == va.1
}

impl Pda {
    /// Recomputes every derived address of the market `(minter_x, minter_y)`
    /// under the given token-service and program identities.
    pub fn generate(
        minter_x: &Addr,
        minter_y: &Addr,
        token_program_id: &Addr,
        program_id: &Addr,
    ) -> (r: Option<Pda>)
        ensures
            r is Some <==> derivations_ok(minter_x@, minter_y@, token_program_id@, program_id@),
            r is Some ==> pda_matches(r->0, minter_x@, minter_y@, token_program_id@, program_id@),
    {
        let pda_owner_token_x = match find_pk_and_bump(
            seed_tag(SeedRole::OwnerX),
            minter_x,
            minter_y,
            token_program_id,
            program_id,
        ) {
            Some(v) => v,
            None => {
                return None;
            },
        };
        let pda_owner_token_y = match find_pk_and_bump(
            seed_tag(SeedRole::OwnerY),
            minter_x,
            minter_y,
            token_program_id,
            program_id,
        ) {
            Some(v) => v,
            None => {
                return None;
            },
        };
        let vault = match find_pk_and_bump(
            seed_tag(SeedRole::Vault),
            minter_x,
            minter_y,
            token_program_id,
            program_id,
        ) {
            Some(v) => v,
            None => {
                return None;
            },
        };
        let pda_token_x_pk = associated_token_address(&pda_owner_token_x.0, minter_x);
        let pda_token_y_pk = associated_token_address(&pda_owner_token_y.0, minter_y);
        Some(
            Pda {
                pda_owner_token_x,
                pda_owner_token_y,
                pda_token_x_pk,
                pda_token_y_pk,
                vault,
            },
        )
    }
}

/// Address derivation is deterministic: recomputing the derived addresses
/// of the same market under the same identities gives the same result.
pub proof fn lemma_generate_deterministic(
    p1: Pda,
    p2: Pda,
    minter_x: Seq<u8>,
    minter_y: Seq<u8>,
    token_program_id: Seq<u8>,
    program_id: Seq<u8>,
)
    requires
        pda_matches(p1, minter_x, minter_y, token_program_id, program_id),
        pda_matches(p2, minter_x, minter_y, token_program_id, program_id),
    ensures
        p1.pda_owner_token_x.0@ == p2.pda_owner_token_x.0@,
        p1.pda_owner_token_x.1 == p2.pda_owner_token_x.1,
        p1.pda_owner_token_y.0@ == p2.pda_owner_token_y.0@,
        p1.pda_owner_token_y.1 == p2.pda_owner_token_y.1,
        p1.pda_token_x_pk@ == p2.pda_token_x_pk@,
        p1.pda_token_y_pk@ == p2.pda_token_y_pk@,
        p1.vault.0@ == p2.vault.0@,
        p1.vault.1 == p2.vault.1,
{
}

} // verus!

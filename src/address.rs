//! Derivation of the snapshot record's address from a constant label.
use anchor_lang::prelude::Pubkey;
use vstd::prelude::*;

verus! {

/// The id of this program, under which the snapshot address is derived.
pub const PROGRAM_ID: [u8; 32] = [
    51, 210, 102, 138, 48, 22, 117, 228, 0, 158, 3, 116, 226, 138, 12, 128, 79, 144, 144, 86, 136,
    94, 57, 220, 196, 73, 119, 33, 151, 214, 31, 25,
];

/// The domain-separation label of the snapshot address: `price_data`.
pub const SNAPSHOT_SEED: [u8; 10] = [112, 114, 105, 99, 101, 95, 100, 97, 116, 97];

/// The program address derived from `label` and `bump` under `program`, or
/// `None` where the hash lands on the curve and no such address exists.
pub uninterp spec fn program_address(label: Seq<u8>, bump: u8, program: Seq<u8>) -> Option<Seq<u8>>;

/// Relies on `Pubkey::create_program_address` with the seeds `label` and
/// `[bump]`: with one seed of at most 32 bytes it fails only where the
/// derived point lies on the curve.
#[verifier::external_body]
fn create_address(label: &[u8], bump: u8, program: &[u8; 32]) -> (r: Option<[u8; 32]>)
    requires
        label@.len() <= 32,
    ensures
        r matches Some(a) ==> program_address(label@, bump, program@) == Some(a@),
        r is None ==> program_address(label@, bump, program@) is None,
{
    let bump_seed = [bump];
    Pubkey::create_program_address(&[label, &bump_seed], &Pubkey::new_from_array(*program))
        .ok()
        .map(|a| a.to_bytes())
}

/// Relies on `Pubkey::try_find_program_address` with the one seed `label`: it
/// tries the bumps from 255 down to 1 and returns the first that derives an
/// address, or `None` when none does.
#[verifier::external_body]
fn find_address(label: &[u8], program: &[u8; 32]) -> (r: Option<([u8; 32], u8)>)
    requires
        label@.len() <= 32,
    ensures
        r matches Some((a, b)) ==> 1 <= b && program_address(label@, b, program@) == Some(a@)
            && forall|c: u8| b < c ==> program_address(label@, c, program@) is None,
        r is None ==> forall|c: u8| 1 <= c ==> program_address(label@, c, program@) is None,
{
    Pubkey::try_find_program_address(&[label], &Pubkey::new_from_array(*program))
        .map(|(a, b)| (a.to_bytes(), b))
}

/// The snapshot address for `bump`, if that bump derives one.
pub open spec fn snapshot_address_for(bump: u8) -> Option<Seq<u8>> {
    program_address(SNAPSHOT_SEED@, bump, PROGRAM_ID@)
}

/// `bump` is the canonical bump: the largest that derives an address.
pub open spec fn is_canonical_bump(bump: u8) -> bool {
    1 <= bump && snapshot_address_for(bump) is Some
        && forall|c: u8| bump < c ==> snapshot_address_for(c) is None
}

/// `addr` is the one address the snapshot record may live at: the one derived
/// with the canonical bump.
pub open spec fn is_snapshot_address(addr: Seq<u8>) -> bool {
    exists|b: u8| is_canonical_bump(b) && snapshot_address_for(b) == Some(addr)
}

/// Derives the snapshot address from the constant label and `bump`.
pub fn derive_snapshot_address(bump: u8) -> (r: Option<[u8; 32]>)
    ensures
        r matches Some(a) ==> snapshot_address_for(bump) == Some(a@),
        r is None ==> snapshot_address_for(bump) is None,
{
    create_address(&SNAPSHOT_SEED, bump, &PROGRAM_ID)
}

/// Finds the canonical bump and the snapshot address it derives.
pub fn canonical_snapshot_address() -> (r: Option<([u8; 32], u8)>)
    ensures
        r matches Some((a, b)) ==> is_canonical_bump(b) && snapshot_address_for(b) == Some(a@),
        r is None ==> forall|c: u8| 1 <= c ==> snapshot_address_for(c) is None,
{
    find_address(&SNAPSHOT_SEED, &PROGRAM_ID)
}

/// Two addresses agree byte for byte.
pub fn same_address(a: &[u8; 32], b: &[u8; 32]) -> (r: bool)
    ensures
        r == (a@ == b@),
{
    let mut i: usize = 0;
    while i < 32
        invariant
            0 <= i <= 32,
            forall|j: int| 0 <= j < i ==> a@[j] == b@[j],
        decreases 32 - i,
    {
        if a[i] != b[i] {
            return false;
        }
        i = i + 1;
    }
    assert(a@ =~= b@);
    true
}

} // verus!

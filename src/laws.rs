//! Laws that relate the registry's operations to one another.

use vstd::prelude::*;
use crate::pallet::{bounded, create_step, revoke_step, transfer_step, Error};
use crate::store::{AccountId, BlockNumber, Entry};

verus! {

/// A claim longer than the bound is refused with `ClaimTooLong` by every
/// operation, whoever asks; a refused operation leaves the registry as it was.
pub proof fn lemma_too_long_always_refused(
    max: nat,
    reg: Map<Seq<u8>, Entry>,
    who: AccountId,
    dest: AccountId,
    claim: Seq<u8>,
    now: BlockNumber,
)
    requires
        claim.len() > max,
    ensures
        create_step(max, reg, who, claim, now) == Err::<Map<Seq<u8>, Entry>, Error>(Error::ClaimTooLong),
        revoke_step(max, reg, who, claim) == Err::<Map<Seq<u8>, Entry>, Error>(Error::ClaimTooLong),
        transfer_step(max, reg, who, dest, claim, now) == Err::<Map<Seq<u8>, Entry>, Error>(Error::ClaimTooLong),
{
}

/// Once a claim is created, creating it again, by anyone, is refused with
/// `ProofAlreadyExist`, and the first creator still owns it.
pub proof fn lemma_create_twice_refused(
    max: nat,
    reg: Map<Seq<u8>, Entry>,
    first: AccountId,
    second: AccountId,
    claim: Seq<u8>,
    now: BlockNumber,
    later: BlockNumber,
    after: Map<Seq<u8>, Entry>,
)
    requires
        create_step(max, reg, first, claim, now) == Ok::<Map<Seq<u8>, Entry>, Error>(after),
    ensures
        create_step(max, after, second, claim, later) == Err::<Map<Seq<u8>, Entry>, Error>(Error::ProofAlreadyExist),
        after.contains_key(claim),
        after[claim] == (first, now),
{
}

/// Revoking or transferring a claim that has no entry is refused with
/// `ClaimNotExist` (for a claim within the bound; a longer one is refused as
/// too long).
pub proof fn lemma_absent_claim_refused(
    max: nat,
    reg: Map<Seq<u8>, Entry>,
    who: AccountId,
    dest: AccountId,
    claim: Seq<u8>,
    now: BlockNumber,
)
    requires
        claim.len() <= max,
        !reg.contains_key(claim),
    ensures
        revoke_step(max, reg, who, claim) == Err::<Map<Seq<u8>, Entry>, Error>(Error::ClaimNotExist),
        transfer_step(max, reg, who, dest, claim, now) == Err::<Map<Seq<u8>, Entry>, Error>(Error::ClaimNotExist),
{
}

/// Revoking or transferring a held claim by anyone but its owner is refused
/// with `NotClaimOwner`.
pub proof fn lemma_non_owner_refused(
    max: nat,
    reg: Map<Seq<u8>, Entry>,
    who: AccountId,
    dest: AccountId,
    claim: Seq<u8>,
    now: BlockNumber,
)
    requires
        bounded(max, reg),
        reg.contains_key(claim),
        reg[claim].0 != who,
    ensures
        revoke_step(max, reg, who, claim) == Err::<Map<Seq<u8>, Entry>, Error>(Error::NotClaimOwner),
        transfer_step(max, reg, who, dest, claim, now) == Err::<Map<Seq<u8>, Entry>, Error>(Error::NotClaimOwner),
{
}

/// Creating a claim and then revoking it as its creator gives back the
/// registry as it was, in which anyone may create the claim afresh.
pub proof fn lemma_create_revoke_round_trip(
    max: nat,
    reg: Map<Seq<u8>, Entry>,
    owner: AccountId,
    other: AccountId,
    claim: Seq<u8>,
    now: BlockNumber,
    later: BlockNumber,
    after: Map<Seq<u8>, Entry>,
)
    requires
        create_step(max, reg, owner, claim, now) == Ok::<Map<Seq<u8>, Entry>, Error>(after),
    ensures
        revoke_step(max, after, owner, claim) == Ok::<Map<Seq<u8>, Entry>, Error>(reg),
        create_step(max, reg, other, claim, later) == Ok::<Map<Seq<u8>, Entry>, Error>(
            reg.insert(claim, (other, later)),
        ),
{
    assert(after.remove(claim) =~= reg);
}

/// After `owner` creates a claim and transfers it to `dest`, the transfer
/// records `dest` as owner, `dest` can revoke the claim, and `owner` (when
/// not `dest`) no longer can.
pub proof fn lemma_transfer_moves_ownership(
    max: nat,
    reg: Map<Seq<u8>, Entry>,
    owner: AccountId,
    dest: AccountId,
    claim: Seq<u8>,
    now: BlockNumber,
    later: BlockNumber,
    created: Map<Seq<u8>, Entry>,
)
    requires
        create_step(max, reg, owner, claim, now) == Ok::<Map<Seq<u8>, Entry>, Error>(created),
    ensures
        transfer_step(max, created, owner, dest, claim, later) == Ok::<Map<Seq<u8>, Entry>, Error>(
            created.insert(claim, (dest, later)),
        ),
        owner != dest ==> revoke_step(max, created.insert(claim, (dest, later)), owner, claim)
            == Err::<Map<Seq<u8>, Entry>, Error>(Error::NotClaimOwner),
        revoke_step(max, created.insert(claim, (dest, later)), dest, claim) == Ok::<
            Map<Seq<u8>, Entry>,
            Error,
        >(created.insert(claim, (dest, later)).remove(claim)),
{
}

} // verus!

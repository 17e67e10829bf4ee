//! The claim registry: its configuration, events, errors, and the three
//! operations that mutate it.

use vstd::prelude::*;
use crate::store::{AccountId, BlockNumber, Entry, Proofs};

verus! {

/// Fixed configuration of a registry.
#[derive(Clone, Copy, Debug)]
pub struct Config {
    /// Largest claim, in bytes, that the registry accepts.
    pub max_claim_length: u32,
}

/// Notification published after each successful operation.
#[derive(Debug, PartialEq, Eq)]
pub enum Event {
    /// `(owner, claim)`: the claim was registered.
    ClaimCreated(AccountId, Vec<u8>),
    /// `(owner, claim)`: the claim was removed by its owner.
    ClaimRevoked(AccountId, Vec<u8>),
    /// `(previous owner, new owner, claim)`: ownership moved.
    ClaimedTransfered(AccountId, AccountId, Vec<u8>),
}

/// An event as a mathematical value.
pub enum EventView {
    ClaimCreated(AccountId, Seq<u8>),
    ClaimRevoked(AccountId, Seq<u8>),
    ClaimedTransfered(AccountId, AccountId, Seq<u8>),
}

impl View for Event {
    type V = EventView;

    open spec fn view(&self) -> EventView {
        match self {
            Event::ClaimCreated(who, c) => EventView::ClaimCreated(*who, c@),
            Event::ClaimRevoked(who, c) => EventView::ClaimRevoked(*who, c@),
            Event::ClaimedTransfered(from, to, c) => EventView::ClaimedTransfered(*from, *to, c@),
        }
    }
}

/// Why an operation was rejected. A rejected operation changes nothing.
#[derive(Clone, Copy, Debug, PartialEq, Eq, Structural)]
pub enum Error {
    /// Create on a claim that already has an entry.
    ProofAlreadyExist,
    /// The claim is longer than the configured maximum.
    ClaimTooLong,
    /// Revoke or transfer on a claim without an entry.
    ClaimNotExist,
    /// Revoke or transfer by someone other than the claim's owner.
    NotClaimOwner,
    /// Kept for hosts that match on it; no operation returns it.
    NoSuchProof,
}

/// Every claim held in `reg` is at most `max` bytes long.
pub open spec fn bounded(max: nat, reg: Map<Seq<u8>, Entry>) -> bool {
    forall|k: Seq<u8>| #[trigger] reg.contains_key(k) ==> k.len() <= max
}

/// The registry that `create_claim` leaves, or the error it returns.
pub open spec fn create_step(
    max: nat,
    reg: Map<Seq<u8>, Entry>,
    who: AccountId,
    claim: Seq<u8>,
    now: BlockNumber,
) -> Result<Map<Seq<u8>, Entry>, Error> {
    if claim.len() > max {
        Err(Error::ClaimTooLong)
    } else if reg.contains_key(claim) {
        Err(Error::ProofAlreadyExist)
    } else {
        Ok(reg.insert(claim, (who, now)))
    }
}

/// The registry that `revoke_claim` leaves, or the error it returns.
pub open spec fn revoke_step(
    max: nat,
    reg: Map<Seq<u8>, Entry>,
    who: AccountId,
    claim: Seq<u8>,
) -> Result<Map<Seq<u8>, Entry>, Error> {
    if claim.len() > max {
        Err(Error::ClaimTooLong)
    } else if !reg.contains_key(claim) {
        Err(Error::ClaimNotExist)
    } else if reg[claim].0 != who {
        Err(Error::NotClaimOwner)
    } else {
        Ok(reg.remove(claim))
    }
}

/// The registry that `transfer_claim` leaves, or the error it returns.
pub open spec fn transfer_step(
    max: nat,
    reg: Map<Seq<u8>, Entry>,
    who: AccountId,
    dest: AccountId,
    claim: Seq<u8>,
    now: BlockNumber,
) -> Result<Map<Seq<u8>, Entry>, Error> {
    if claim.len() > max {
        Err(Error::ClaimTooLong)
    } else if !reg.contains_key(claim) {
        Err(Error::ClaimNotExist)
    } else if reg[claim].0 != who {
        Err(Error::NotClaimOwner)
    } else {
        Ok(reg.insert(claim, (dest, now)))
    }
}

/// The registry: the claim store, its bound, and the events it has published.
pub struct Pallet {
    max_claim_length: u32,
    proofs: Proofs,
    events: Vec<Event>,
}

impl View for Pallet {
    type V = Map<Seq<u8>, Entry>;

    closed spec fn view(&self) -> Map<Seq<u8>, Entry> {
        self.proofs@
    }
}

impl Pallet {
    /// The configured bound on claim length.
    pub closed spec fn max_len(&self) -> nat {
        self.max_claim_length as nat
    }

    /// The events published so far, oldest first.
    pub closed spec fn event_log(&self) -> Seq<EventView> {
        self.events@.map_values(|e: Event| e@)
    }

    /// The store is well formed and holds no claim over the bound.
    pub closed spec fn wf(&self) -> bool {
        &&& self.proofs.wf()
        &&& bounded(self.max_len(), self@)
    }

    /// An empty registry with the given configuration.
    pub fn new(config: Config) -> (r: Pallet)
        ensures
            r.wf(),
            r.max_len() == config.max_claim_length,
            r@ == Map::<Seq<u8>, Entry>::empty(),
            r.event_log() == Seq::<EventView>::empty(),
    {
        let r = Pallet { max_claim_length: config.max_claim_length, proofs: Proofs::new(), events: Vec::new() };
        assert(r.event_log() =~= Seq::<EventView>::empty());
        r
    }

    /// The configured bound on claim length.
    pub fn max_claim_length(&self) -> (r: u32)
        ensures
            r == self.max_len(),
    {
        self.max_claim_length
    }

    /// The claim store.
    pub fn proofs(&self) -> (r: &Proofs)
        requires
            self.wf(),
        ensures
            r.wf(),
            r@ == self@,
    {
        &self.proofs
    }

    /// The events published so far, oldest first.
    pub fn events(&self) -> (r: &Vec<Event>)
        ensures
            r@.map_values(|e: Event| e@) == self.event_log(),
    {
        &self.events
    }

    fn deposit_event(&mut self, event: Event)
        ensures
            final(self).max_claim_length == old(self).max_claim_length,
            final(self).proofs == old(self).proofs,
            final(self).event_log() == old(self).event_log().push(event@),
    {
        self.events.push(event);
        assert(self.event_log() =~= old(self).event_log().push(event@));
    }

    fn too_long(&self, claim: &Vec<u8>) -> (r: bool)
        ensures
            r == (claim@.len() > self.max_len()),
    {
        claim.len() > self.max_claim_length as usize
    }

    /// Registers `claim` as owned by `sender`, recorded at ledger position
    /// `now`, and publishes `ClaimCreated`.
    pub fn create_claim(&mut self, sender: AccountId, claim: Vec<u8>, now: BlockNumber) -> (r: Result<(), Error>)
        requires
            old(self).wf(),
        ensures
            final(self).wf(),
            final(self).max_len() == old(self).max_len(),
            match create_step(old(self).max_len(), old(self)@, sender, claim@, now) {
                Ok(next) => {
                    &&& r is Ok
                    &&& final(self)@ == next
                    &&& final(self).event_log() == old(self).event_log().push(
                        EventView::ClaimCreated(sender, claim@),
                    )
                },
                Err(e) => r == Err::<(), Error>(e) && *final(self) == *old(self),
            },
    {
        if self.too_long(&claim) {
            return Err(Error::ClaimTooLong);
        }
        if self.proofs.contains_key(&claim) {
            return Err(Error::ProofAlreadyExist);
        }
        self.proofs.insert(claim.clone(), (sender, now));
        self.deposit_event(Event::ClaimCreated(sender, claim));
        Ok(())
    }

    /// Removes `claim`, which `sender` must own, and publishes `ClaimRevoked`.
    pub fn revoke_claim(&mut self, sender: AccountId, claim: Vec<u8>) -> (r: Result<(), Error>)
        requires
            old(self).wf(),
        ensures
            final(self).wf(),
            final(self).max_len() == old(self).max_len(),
            match revoke_step(old(self).max_len(), old(self)@, sender, claim@) {
                Ok(next) => {
                    &&& r is Ok
                    &&& final(self)@ == next
                    &&& final(self).event_log() == old(self).event_log().push(
                        EventView::ClaimRevoked(sender, claim@),
                    )
                },
                Err(e) => r == Err::<(), Error>(e) && *final(self) == *old(self),
            },
    {
        if self.too_long(&claim) {
            return Err(Error::ClaimTooLong);
        }
        let owner = match self.proofs.get(&claim) {
            Some(entry) => entry.0,
            None => return Err(Error::ClaimNotExist),
        };
        if sender != owner {
            return Err(Error::NotClaimOwner);
        }
        self.proofs.remove(&claim);
        self.deposit_event(Event::ClaimRevoked(sender, claim));
        Ok(())
    }

    /// Hands `claim`, which `sender` must own, to `dest`, recorded at ledger
    /// position `now`, and publishes `ClaimedTransfered`. `dest` may be
    /// `sender`: the entry's position still moves to `now`.
    pub fn transfer_claim(
        &mut self,
        sender: AccountId,
        dest: AccountId,
        claim: Vec<u8>,
        now: BlockNumber,
    ) -> (r: Result<(), Error>)
        requires
            old(self).wf(),
        ensures
            final(self).wf(),
            final(self).max_len() == old(self).max_len(),
            match transfer_step(old(self).max_len(), old(self)@, sender, dest, claim@, now) {
                Ok(next) => {
                    &&& r is Ok
                    &&& final(self)@ == next
                    &&& final(self).event_log() == old(self).event_log().push(
                        EventView::ClaimedTransfered(sender, dest, claim@),
                    )
                },
                Err(e) => r == Err::<(), Error>(e) && *final(self) == *old(self),
            },
    {
        if self.too_long(&claim) {
            return Err(Error::ClaimTooLong);
        }
        let owner = match self.proofs.get(&claim) {
            Some(entry) => entry.0,
            None => return Err(Error::ClaimNotExist),
        };
        if sender != owner {
            return Err(Error::NotClaimOwner);
        }
        self.proofs.remove(&claim);
        self.proofs.insert(claim.clone(), (dest, now));
        self.deposit_event(Event::ClaimedTransfered(sender, dest, claim));
        Ok(())
    }
}

} // verus!

use crate::error::SubscribeError;
use crate::identity::Identity;
use vstd::prelude::*;

verus! {

/// Slots in one day, at about 400 ms per slot.
pub const SLOTS_PER_DAY: u64 = 216_000;

/// Slots in one subscription period of 365 days.
pub const PERIOD_SLOTS: u64 = 78_840_000;

/// The one record kept per subscriber.
#[derive(Clone, Copy, Debug, PartialEq, Eq)]
pub struct Subscription {
    /// The subscriber's identity.
    pub user: Identity,
    /// Slot at which the current period started.
    pub start_slot: u64,
    /// Slot at which the current period expires.
    pub expiry_slot: u64,
}

impl Subscription {
    /// Stored size of a record: the identity and the two slots.
    pub const LEN: usize = 48;

    /// A record spans exactly one period.
    pub open spec fn well_formed(&self) -> bool {
        self.expiry_slot == self.start_slot + PERIOD_SLOTS
    }

    /// The record of a period that `owner` starts at `now`.
    pub open spec fn starting(owner: Identity, now: u64) -> Subscription {
        Subscription { user: owner, start_slot: now, expiry_slot: (now + PERIOD_SLOTS) as u64 }
    }

    /// Whether a period that starts at `now` ends within the slot range.
    pub open spec fn period_fits(now: u64) -> bool {
        now + PERIOD_SLOTS <= u64::MAX
    }

    /// What [`Subscription::open`] returns.
    pub open spec fn opened(existing: Option<Subscription>, owner: Identity, now: u64) -> Result<
        Subscription,
        SubscribeError,
    > {
        match existing {
            Some(_) => Err(SubscribeError::Unauthorized),
            None => Ok(Self::starting(owner, now)),
        }
    }

    /// What [`Subscription::extend`] returns.
    pub open spec fn extended(&self, caller: Identity, now: u64) -> Result<
        Subscription,
        SubscribeError,
    > {
        if caller@ == self.user@ {
            Ok(Self::starting(self.user, now))
        } else {
            Err(SubscribeError::Unauthorized)
        }
    }

    /// Whether a period that starts at `now` ends within the slot range.
    pub fn fits_period(now: u64) -> (fits: bool)
        ensures
            fits == Self::period_fits(now),
    {
        now <= u64::MAX - PERIOD_SLOTS
    }

    /// Creates the record of `owner`, unless one exists already: a live
    /// record is never initialised a second time.
    pub fn open(existing: Option<Subscription>, owner: Identity, now: u64) -> (r: Result<
        Subscription,
        SubscribeError,
    >)
        requires
            Self::period_fits(now),
        ensures
            r == Self::opened(existing, owner, now),
            r is Ok <==> existing is None,
            r matches Ok(record) ==> record.well_formed(),
    {
        match existing {
            Some(_) => Err(SubscribeError::Unauthorized),
            None => Ok(
                Subscription { user: owner, start_slot: now, expiry_slot: now + PERIOD_SLOTS },
            ),
        }
    }

    /// Starts a new period of an existing record at `now`, for its owner
    /// only. The new period runs from `now`, whatever was left of the old.
    pub fn extend(&self, caller: &Identity, now: u64) -> (r: Result<Subscription, SubscribeError>)
        requires
            Self::period_fits(now),
        ensures
            r == self.extended(*caller, now),
            r is Ok <==> caller@ == self.user@,
            r matches Ok(record) ==> record.well_formed() && record.user == self.user,
    {
        if !caller.same(&self.user) {
            return Err(SubscribeError::Unauthorized);
        }
        Ok(Subscription { user: self.user, start_slot: now, expiry_slot: now + PERIOD_SLOTS })
    }
}

/// A period lasts 365 days of slots, whenever it starts.
pub proof fn lemma_period_is_constant(owner: Identity, now: u64)
    requires
        Subscription::period_fits(now),
    ensures
        Subscription::starting(owner, now).expiry_slot - Subscription::starting(
            owner,
            now,
        ).start_slot == 365 * SLOTS_PER_DAY,
        Subscription::starting(owner, now).expiry_slot > Subscription::starting(
            owner,
            now,
        ).start_slot,
{
}

/// Renewal by anyone but the owner is refused, and a refusal hands out no
/// new record.
pub proof fn lemma_renewal_needs_owner(record: Subscription, caller: Identity, now: u64)
    requires
        caller@ != record.user@,
    ensures
        record.extended(caller, now) == Err::<Subscription, SubscribeError>(
            SubscribeError::Unauthorized,
        ),
{
}

/// Of two openings for one owner, the second meets the record of the
/// first and is refused.
pub proof fn lemma_record_opened_once(owner: Identity, first: u64, second: u64)
    ensures
        Subscription::opened(None, owner, first) == Ok::<Subscription, SubscribeError>(
            Subscription::starting(owner, first),
        ),
        Subscription::opened(Some(Subscription::starting(owner, first)), owner, second) is Err,
{
}

} // verus!

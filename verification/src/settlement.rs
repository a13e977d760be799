use crate::allocation::{lemma_shares_sum_to_amount, AllocationRatio, Shares};
use crate::amount::{refund_due, validate};
use crate::authority::Authority;
use crate::error::SubscribeError;
use crate::identity::Identity;
use crate::issuer::{can_issue, issue};
use crate::ledger::{Subscription, PERIOD_SLOTS};
use vstd::prelude::*;

verus! {

/// The price of one period: 12 tokens of six decimals.
pub const SUB_AMOUNT: u64 = 12_000_000;

/// The flat fee kept from a refund: a tenth of a token.
pub const REFUND_FEE: u64 = 100_000;

/// The most credentials that may ever exist.
pub const MAX_SUPPLY: u64 = 1_000_000_000_000_000;

/// The figures a settlement is held to.
#[derive(Clone, Copy, Debug, PartialEq, Eq)]
pub struct Terms {
    pub required_amount: u64,
    pub refund_fee: u64,
    pub max_supply: u64,
    pub ratio: AllocationRatio,
}

impl Terms {
    pub open spec fn well_formed(&self) -> bool {
        self.ratio.well_formed()
    }

    /// The protocol's own figures.
    pub open spec fn protocol_terms() -> Terms {
        Terms {
            required_amount: SUB_AMOUNT,
            refund_fee: REFUND_FEE,
            max_supply: MAX_SUPPLY,
            ratio: AllocationRatio::reference_ratio(),
        }
    }

    /// The protocol's own figures.
    pub fn protocol() -> (terms: Terms)
        ensures
            terms == Self::protocol_terms(),
            terms.well_formed(),
    {
        Terms {
            required_amount: SUB_AMOUNT,
            refund_fee: REFUND_FEE,
            max_supply: MAX_SUPPLY,
            ratio: AllocationRatio::reference(),
        }
    }
}

/// What a first subscription reads from its accounts.
#[derive(Clone, Copy, Debug, PartialEq, Eq)]
pub struct Subscribe {
    /// Who pays and subscribes.
    pub payer: Identity,
    /// The balance of the payer's funding account.
    pub user_gc_amount: u64,
    /// The payer's record, where one exists already.
    pub subscription: Option<Subscription>,
    /// The credentials minted so far.
    pub sbt_supply: u64,
    /// The address presented as the program's authority.
    pub program_authority: Identity,
    /// The program on whose behalf the authority signs.
    pub program_id: Identity,
}

/// What a renewal reads from its accounts.
#[derive(Clone, Copy, Debug, PartialEq, Eq)]
pub struct Renew {
    /// Who pays and renews.
    pub payer: Identity,
    /// The balance of the payer's funding account.
    pub user_gc_amount: u64,
    /// The record to renew.
    pub subscription: Subscription,
    /// The credentials minted so far; a renewal leaves them as they are.
    pub sbt_supply: u64,
    /// The address presented as the program's authority.
    pub program_authority: Identity,
    /// The program on whose behalf the authority signs.
    pub program_id: Identity,
}

/// Published once a settlement is complete.
#[derive(Clone, Copy, Debug, PartialEq, Eq)]
pub struct Subscribed {
    pub user: Identity,
    pub expiry_slot: u64,
}

/// Which of the two operations a settlement carries out.
#[derive(Clone, Copy, Debug, PartialEq, Eq, Structural)]
pub enum Operation {
    Subscribe,
    Renew,
}

/// The destinations of the two converted shares.
#[derive(Clone, Copy, Debug, PartialEq, Eq, Structural)]
pub enum Leg {
    First,
    Second,
}

/// How the action that a settlement last asked for ended.
#[derive(Clone, Copy, Debug, PartialEq, Eq, Structural)]
pub enum Outcome {
    Done,
    Failed,
}

/// Where a settlement rests while its caller acts.
#[derive(Clone, Copy, Debug, PartialEq, Eq)]
pub enum Stage {
    /// Payment accepted; the refund is being paid out.
    Refunding,
    /// Payment accepted; the required amount is being moved to holding.
    Collecting,
    /// The first converted share is on its way.
    ConvertingFirst,
    /// The second converted share is on its way.
    ConvertingSecond,
    /// The record is made out; the credential is being minted.
    Minting { record: Subscription, supply: u64 },
    /// Complete: the record stands and the event is out.
    Emitted { record: Subscription, supply: u64 },
    /// Given up; nothing of it is to remain.
    Aborted { reason: SubscribeError },
}

/// The coarse progress of a settlement.
#[derive(Clone, Copy, Debug, PartialEq, Eq)]
pub enum Phase {
    Start,
    Validated,
    Allocated,
    Ledgered,
    Issued,
    Emitted,
    Aborted(SubscribeError),
}

/// What the caller is to do next.
#[derive(Clone, Copy, Debug, PartialEq, Eq)]
pub enum Action {
    /// Pay `amount` of the overpayment back to the payer.
    Refund { amount: u64 },
    /// Move `amount` from the payer to the holding account, where the
    /// retained share stays.
    Collect { amount: u64 },
    /// Convert `amount` out of holding for the destination `leg`, signed
    /// by the authority.
    Convert { leg: Leg, amount: u64 },
    /// Mint `amount` credentials to the payer, signed by the authority.
    Mint { amount: u64 },
    /// Store `record` and publish `event`; the settlement is complete.
    Commit { record: Subscription, event: Subscribed },
    /// Discard every effect and report `reason`.
    Abort { reason: SubscribeError },
    /// The settlement had ended before; there is nothing to do.
    Nothing,
}

/// What a settlement leaves behind for others to see.
#[derive(Clone, Copy, Debug, PartialEq, Eq)]
pub struct Effects {
    /// The payer's record.
    pub record: Option<Subscription>,
    /// The credentials in existence.
    pub total_supply: u64,
    /// What has left the payer's account for good.
    pub collected: u64,
}

/// One settlement in progress.
#[derive(Clone, Copy, Debug, PartialEq, Eq)]
pub struct Settlement {
    pub operation: Operation,
    pub stage: Stage,
    pub payer: Identity,
    pub now: u64,
    /// The payer's record as it was found.
    pub existing: Option<Subscription>,
    /// The credentials in existence as the settlement began.
    pub total_supply: u64,
    pub max_supply: u64,
    pub required_amount: u64,
    pub refund_amount: u64,
    pub shares: Shares,
    /// The authority that signs conversions and the mint.
    pub authority: Option<Authority>,
}

impl Settlement {
    /// What holds of every settlement that [`Settlement::begin`] and
    /// [`Settlement::advance`] hand out: the period fits the slot range, the
    /// shares cover the payment, a settlement under way has its authority,
    /// and a record made out belongs to the payer and runs one period from
    /// `now`.
    pub open spec fn well_formed(&self) -> bool {
        &&& Subscription::period_fits(self.now)
        &&& self.shares.sum() == self.required_amount
        &&& !self.is_terminal() ==> self.authority is Some
        &&& self.stage is Refunding ==> self.refund_amount > 0
        &&& match self.stage {
            Stage::Minting { record, supply } => {
                &&& self.operation is Subscribe
                &&& self.existing is None
                &&& record == Subscription::starting(self.payer, self.now)
                &&& supply == self.total_supply + 1
                &&& supply <= self.max_supply
            },
            Stage::Emitted { record, supply } => {
                &&& record.well_formed()
                &&& record.start_slot == self.now
                &&& record.user@ == self.payer@
                &&& match self.operation {
                    Operation::Subscribe => {
                        &&& self.existing is None
                        &&& supply == self.total_supply + 1
                        &&& supply <= self.max_supply
                    },
                    Operation::Renew => self.existing is Some && supply == self.total_supply,
                }
            },
            _ => true,
        }
    }

    /// The same settlement at another stage.
    pub open spec fn at(self, stage: Stage) -> Settlement {
        Settlement { stage, ..self }
    }

    /// The settlement given up for `reason`.
    pub open spec fn aborted(self, reason: SubscribeError) -> (Settlement, Action) {
        (self.at(Stage::Aborted { reason }), Action::Abort { reason })
    }

    /// Whether the settlement has ended.
    pub open spec fn is_terminal(self) -> bool {
        self.stage is Emitted || self.stage is Aborted
    }

    /// The event that announces `record`.
    pub open spec fn announcement(record: Subscription) -> Subscribed {
        Subscribed { user: record.user, expiry_slot: record.expiry_slot }
    }

    /// The settlement completed with `record` and `supply` credentials.
    pub open spec fn committed(self, record: Subscription, supply: u64) -> (Settlement, Action) {
        (
            self.at(Stage::Emitted { record, supply }),
            Action::Commit { record, event: Self::announcement(record) },
        )
    }

    /// The entry that the ledger makes for this settlement.
    pub open spec fn ledger_entry(self) -> Result<Subscription, SubscribeError> {
        match self.operation {
            Operation::Subscribe => Subscription::opened(self.existing, self.payer, self.now),
            Operation::Renew => match self.existing {
                Some(record) => record.extended(self.payer, self.now),
                None => Err(SubscribeError::Unauthorized),
            },
        }
    }

    /// What follows once both conversions are through: the ledger entry,
    /// and for a first subscription the mint.
    pub open spec fn after_allocation(self) -> (Settlement, Action) {
        match self.ledger_entry() {
            Err(reason) => self.aborted(reason),
            Ok(record) => match self.operation {
                Operation::Renew => self.committed(record, self.total_supply),
                Operation::Subscribe => if can_issue(
                    self.total_supply as int,
                    self.max_supply as int,
                ) {
                    (
                        self.at(
                            Stage::Minting { record, supply: (self.total_supply + 1) as u64 },
                        ),
                        Action::Mint { amount: 1 },
                    )
                } else {
                    self.aborted(SubscribeError::SupplyCapExceeded)
                },
            },
        }
    }

    /// The error that a failure at the present stage stands for.
    pub open spec fn failure_reason(self) -> SubscribeError {
        match self.stage {
            Stage::Refunding => SubscribeError::RefundFailed,
            Stage::Minting { .. } => SubscribeError::MintFailed,
            _ => SubscribeError::TokenTransferFailed,
        }
    }

    /// The transition relation: the state and action that follow when the
    /// pending action ended in `outcome`.
    pub open spec fn next(self, outcome: Outcome) -> (Settlement, Action) {
        if self.is_terminal() {
            (self, Action::Nothing)
        } else if outcome is Failed {
            self.aborted(self.failure_reason())
        } else {
            match self.stage {
                Stage::Refunding => (
                    self.at(Stage::Collecting),
                    Action::Collect { amount: self.required_amount },
                ),
                Stage::Collecting => (
                    self.at(Stage::ConvertingFirst),
                    Action::Convert { leg: Leg::First, amount: self.shares.first },
                ),
                Stage::ConvertingFirst => (
                    self.at(Stage::ConvertingSecond),
                    Action::Convert { leg: Leg::Second, amount: self.shares.second },
                ),
                Stage::ConvertingSecond => self.after_allocation(),
                Stage::Minting { record, supply } => self.committed(record, supply),
                _ => (self, Action::Nothing),
            }
        }
    }

    /// The state and first action of a settlement under `terms`.
    pub open spec fn begun(
        operation: Operation,
        terms: Terms,
        payer: Identity,
        available_balance: u64,
        existing: Option<Subscription>,
        total_supply: u64,
        authority: Result<Authority, SubscribeError>,
        now: u64,
    ) -> (Settlement, Action) {
        let refund = refund_due(
            available_balance as int,
            terms.required_amount as int,
            terms.refund_fee as int,
        );
        let fresh = Settlement {
            operation,
            stage: Stage::Collecting,
            payer,
            now,
            existing,
            total_supply,
            max_supply: terms.max_supply,
            required_amount: terms.required_amount,
            refund_amount: 0,
            shares: terms.ratio.shares_of(terms.required_amount as int),
            authority: None,
        };
        if available_balance < terms.required_amount {
            fresh.aborted(SubscribeError::InsufficientAmount)
        } else {
            let validated = Settlement { refund_amount: refund as u64, ..fresh };
            match authority {
                Err(reason) => validated.aborted(reason),
                Ok(signer) => {
                    let ready = Settlement { authority: Some(signer), ..validated };
                    if refund > 0 {
                        (ready.at(Stage::Refunding), Action::Refund { amount: refund as u64 })
                    } else {
                        (ready, Action::Collect { amount: terms.required_amount })
                    }
                },
            }
        }
    }

    /// What the settlement, as it stands, leaves behind: the new record,
    /// supply and payment once it is complete, and before that nothing.
    pub open spec fn spec_effects(&self) -> Effects {
        match self.stage {
            Stage::Emitted { record, supply } => Effects {
                record: Some(record),
                total_supply: supply,
                collected: self.required_amount,
            },
            _ => Effects { record: self.existing, total_supply: self.total_supply, collected: 0 },
        }
    }

    /// The coarse phase that a stage belongs to.
    pub open spec fn spec_phase(&self) -> Phase {
        match self.stage {
            Stage::Refunding => Phase::Validated,
            Stage::Collecting => Phase::Validated,
            Stage::ConvertingFirst => Phase::Validated,
            Stage::ConvertingSecond => Phase::Validated,
            Stage::Minting { .. } => Phase::Ledgered,
            Stage::Emitted { .. } => Phase::Emitted,
            Stage::Aborted { reason } => Phase::Aborted(reason),
        }
    }

    /// The settlement once every pending action has succeeded.
    pub open spec fn settled(self) -> Settlement {
        self.next(Outcome::Done).0.next(Outcome::Done).0.next(Outcome::Done).0.next(
            Outcome::Done,
        ).0.next(Outcome::Done).0
    }

    /// Validates the payment, takes the authority's verdict and returns the
    /// settlement with the first thing to do.
    ///
    /// A balance below the required amount aborts with
    /// `InsufficientAmount`, before anything else is looked at; a refused
    /// authority aborts with the refusal. Otherwise the refund comes first
    /// where one is due, then the collection of the required amount.
    pub fn begin(
        operation: Operation,
        terms: &Terms,
        payer: Identity,
        available_balance: u64,
        existing: Option<Subscription>,
        total_supply: u64,
        authority: Result<Authority, SubscribeError>,
        now: u64,
    ) -> (r: (Settlement, Action))
        requires
            terms.well_formed(),
            Subscription::period_fits(now),
        ensures
            r == Self::begun(
                operation,
                *terms,
                payer,
                available_balance,
                existing,
                total_supply,
                authority,
                now,
            ),
            r.0.well_formed(),
    {
        let shares = terms.ratio.allocate(terms.required_amount);
        let fresh = Settlement {
            operation,
            stage: Stage::Collecting,
            payer,
            now,
            existing,
            total_supply,
            max_supply: terms.max_supply,
            required_amount: terms.required_amount,
            refund_amount: 0,
            shares,
            authority: None,
        };
        let refund = match validate(available_balance, terms.required_amount, terms.refund_fee) {
            Ok(refund) => refund,
            Err(reason) => {
                return fresh.abort(reason);
            },
        };
        let validated = Settlement { refund_amount: refund, ..fresh };
        let signer = match authority {
            Ok(signer) => signer,
            Err(reason) => {
                return validated.abort(reason);
            },
        };
        let ready = Settlement { authority: Some(signer), ..validated };
        if refund > 0 {
            (Settlement { stage: Stage::Refunding, ..ready }, Action::Refund { amount: refund })
        } else {
            (ready, Action::Collect { amount: terms.required_amount })
        }
    }

    fn abort(self, reason: SubscribeError) -> (r: (Settlement, Action))
        ensures
            r == self.aborted(reason),
    {
        (Settlement { stage: Stage::Aborted { reason }, ..self }, Action::Abort { reason })
    }

    fn commit(self, record: Subscription, supply: u64) -> (r: (Settlement, Action))
        ensures
            r == self.committed(record, supply),
    {
        (
            Settlement { stage: Stage::Emitted { record, supply }, ..self },
            Action::Commit {
                record,
                event: Subscribed { user: record.user, expiry_slot: record.expiry_slot },
            },
        )
    }

    /// Makes the ledger entry and, for a first subscription, asks for the
    /// mint if the supply cap allows one.
    fn enter_ledger(self) -> (r: (Settlement, Action))
        requires
            Subscription::period_fits(self.now),
        ensures
            r == self.after_allocation(),
    {
        let entry = match self.operation {
            Operation::Subscribe => Subscription::open(self.existing, self.payer, self.now),
            Operation::Renew => match self.existing {
                Some(record) => record.extend(&self.payer, self.now),
                None => Err(SubscribeError::Unauthorized),
            },
        };
        let record = match entry {
            Ok(record) => record,
            Err(reason) => {
                return self.abort(reason);
            },
        };
        match self.operation {
            Operation::Renew => self.commit(record, self.total_supply),
            Operation::Subscribe => match issue(self.total_supply, self.max_supply) {
                Ok(supply) => (
                    Settlement { stage: Stage::Minting { record, supply }, ..self },
                    Action::Mint { amount: 1 },
                ),
                Err(reason) => self.abort(reason),
            },
        }
    }

    /// Takes the outcome of the pending action and returns the settlement
    /// with the next thing to do.
    ///
    /// A failure aborts with the error of the stage it happened at. A
    /// settlement that has ended stays as it is.
    pub fn advance(self, outcome: Outcome) -> (r: (Settlement, Action))
        requires
            self.well_formed(),
        ensures
            r == self.next(outcome),
            r.0.well_formed(),
    {
        match self.stage {
            Stage::Emitted { .. } => {
                return (self, Action::Nothing);
            },
            Stage::Aborted { .. } => {
                return (self, Action::Nothing);
            },
            _ => {},
        }
        match outcome {
            Outcome::Failed => {
                let reason = match self.stage {
                    Stage::Refunding => SubscribeError::RefundFailed,
                    Stage::Minting { .. } => SubscribeError::MintFailed,
                    _ => SubscribeError::TokenTransferFailed,
                };
                return self.abort(reason);
            },
            Outcome::Done => {},
        }
        match self.stage {
            Stage::Refunding => (
                Settlement { stage: Stage::Collecting, ..self },
                Action::Collect { amount: self.required_amount },
            ),
            Stage::Collecting => (
                Settlement { stage: Stage::ConvertingFirst, ..self },
                Action::Convert { leg: Leg::First, amount: self.shares.first },
            ),
            Stage::ConvertingFirst => (
                Settlement { stage: Stage::ConvertingSecond, ..self },
                Action::Convert { leg: Leg::Second, amount: self.shares.second },
            ),
            Stage::ConvertingSecond => self.enter_ledger(),
            Stage::Minting { record, supply } => self.commit(record, supply),
            _ => (self, Action::Nothing),
        }
    }

    /// What the settlement, as it stands, leaves behind.
    #[verifier::when_used_as_spec(spec_effects)]
    pub fn effects(&self) -> (e: Effects)
        ensures
            e == self.spec_effects(),
    {
        match self.stage {
            Stage::Emitted { record, supply } => Effects {
                record: Some(record),
                total_supply: supply,
                collected: self.required_amount,
            },
            _ => Effects { record: self.existing, total_supply: self.total_supply, collected: 0 },
        }
    }

    /// The coarse phase of the settlement. `Start`, `Allocated` and
    /// `Issued` are passed within a step and are never rested at.
    #[verifier::when_used_as_spec(spec_phase)]
    pub fn phase(&self) -> (p: Phase)
        ensures
            p == self.spec_phase(),
    {
        match self.stage {
            Stage::Refunding => Phase::Validated,
            Stage::Collecting => Phase::Validated,
            Stage::ConvertingFirst => Phase::Validated,
            Stage::ConvertingSecond => Phase::Validated,
            Stage::Minting { .. } => Phase::Ledgered,
            Stage::Emitted { .. } => Phase::Emitted,
            Stage::Aborted { reason } => Phase::Aborted(reason),
        }
    }
}

/// Begins a first subscription under the protocol's terms.
///
/// The authority presented in `accounts` is checked against the address
/// derived for the program; the settlement begins with the verdict.
pub fn subscribe(accounts: &Subscribe, now: u64) -> (r: (Settlement, Action))
    requires
        Subscription::period_fits(now),
    ensures
        r.0.well_formed(),
        r == Settlement::begun(
            Operation::Subscribe,
            Terms::protocol_terms(),
            accounts.payer,
            accounts.user_gc_amount,
            accounts.subscription,
            accounts.sbt_supply,
            Authority::authorized(accounts.program_authority, accounts.program_id),
            now,
        ),
{
    let authority = Authority::authorize(&accounts.program_authority, &accounts.program_id);
    let terms = Terms::protocol();
    Settlement::begin(
        Operation::Subscribe,
        &terms,
        accounts.payer,
        accounts.user_gc_amount,
        accounts.subscription,
        accounts.sbt_supply,
        authority,
        now,
    )
}

/// Begins a renewal under the protocol's terms: the same payment and
/// allocation as a first subscription, then a new period for the record,
/// and no mint.
pub fn renew(accounts: &Renew, now: u64) -> (r: (Settlement, Action))
    requires
        Subscription::period_fits(now),
    ensures
        r.0.well_formed(),
        r == Settlement::begun(
            Operation::Renew,
            Terms::protocol_terms(),
            accounts.payer,
            accounts.user_gc_amount,
            Some(accounts.subscription),
            accounts.sbt_supply,
            Authority::authorized(accounts.program_authority, accounts.program_id),
            now,
        ),
{
    let authority = Authority::authorize(&accounts.program_authority, &accounts.program_id);
    let terms = Terms::protocol();
    Settlement::begin(
        Operation::Renew,
        &terms,
        accounts.payer,
        accounts.user_gc_amount,
        Some(accounts.subscription),
        accounts.sbt_supply,
        authority,
        now,
    )
}

/// A failure of any pending action aborts the settlement with the error
/// of its stage, and the aborted settlement leaves the record, the supply
/// and the payer's funds as they were found.
pub proof fn lemma_failure_aborts(settlement: Settlement)
    requires
        !settlement.is_terminal(),
    ensures
        settlement.next(Outcome::Failed) == settlement.aborted(settlement.failure_reason()),
        settlement.next(Outcome::Failed).1 == (Action::Abort {
            reason: settlement.failure_reason(),
        }),
        settlement.next(Outcome::Failed).0.effects() == (Effects {
            record: settlement.existing,
            total_supply: settlement.total_supply,
            collected: 0,
        }),
        settlement.next(Outcome::Failed).0.is_terminal(),
{
}

/// Whatever happens before a settlement ends, the record, the supply and
/// the payer's funds stay as they were found.
pub proof fn lemma_nothing_changes_before_the_end(settlement: Settlement, outcome: Outcome)
    requires
        !settlement.is_terminal(),
        !(settlement.next(outcome).0.stage is Emitted),
    ensures
        settlement.next(outcome).0.effects() == settlement.effects(),
        settlement.effects() == (Effects {
            record: settlement.existing,
            total_supply: settlement.total_supply,
            collected: 0,
        }),
{
}

/// Every action but the refund is asked for on the success of the one
/// before it: the collection comes before the conversions, the first
/// conversion before the second, and the mint and the commit after both.
/// The amounts asked for are the required amount and its shares.
pub proof fn lemma_actions_come_in_order(settlement: Settlement, outcome: Outcome)
    ensures
        match settlement.next(outcome).1 {
            Action::Refund { .. } => false,
            Action::Collect { amount } => {
                &&& outcome is Done
                &&& settlement.stage is Refunding
                &&& amount == settlement.required_amount
            },
            Action::Convert { leg: Leg::First, amount } => {
                &&& outcome is Done
                &&& settlement.stage is Collecting
                &&& amount == settlement.shares.first
            },
            Action::Convert { leg: Leg::Second, amount } => {
                &&& outcome is Done
                &&& settlement.stage is ConvertingFirst
                &&& amount == settlement.shares.second
            },
            Action::Mint { amount } => {
                &&& outcome is Done
                &&& settlement.stage is ConvertingSecond
                &&& settlement.operation is Subscribe
                &&& amount == 1
            },
            Action::Commit { .. } => {
                &&& outcome is Done
                &&& (settlement.stage is Minting || (settlement.stage is ConvertingSecond
                    && settlement.operation is Renew))
            },
            Action::Abort { .. } => !settlement.is_terminal(),
            Action::Nothing => settlement.is_terminal(),
        },
{
}

/// The commit comes last and only on success: it ends the settlement, and
/// the record that it stores belongs to the payer, runs exactly one period
/// from `now`, and is the one that the event announces.
pub proof fn lemma_commit_comes_last(settlement: Settlement, outcome: Outcome)
    requires
        settlement.well_formed(),
        settlement.next(outcome).1 is Commit,
    ensures
        outcome is Done,
        !settlement.is_terminal(),
        ({
            let (end, action) = settlement.next(outcome);
            &&& action matches Action::Commit { record, event }
            &&& end.stage matches Stage::Emitted { record: stored, .. }
            &&& stored == record
            &&& end.effects().record == Some(record)
            &&& record.user@ == settlement.payer@
            &&& record.start_slot == settlement.now
            &&& record.expiry_slot - record.start_slot == PERIOD_SLOTS
            &&& event == Settlement::announcement(record)
        }),
{
}

/// A settlement that has ended stays as it is and asks for nothing more.
pub proof fn lemma_end_is_final(settlement: Settlement, outcome: Outcome)
    requires
        settlement.is_terminal(),
    ensures
        settlement.next(outcome) == (settlement, Action::Nothing),
{
}

/// A balance below the required amount aborts the settlement at once with
/// `InsufficientAmount`, whatever else holds, and nothing is changed.
pub proof fn lemma_insufficient_balance_aborts(
    operation: Operation,
    terms: Terms,
    payer: Identity,
    available_balance: u64,
    existing: Option<Subscription>,
    total_supply: u64,
    authority: Result<Authority, SubscribeError>,
    now: u64,
)
    requires
        available_balance < terms.required_amount,
    ensures
        ({
            let (settlement, action) = Settlement::begun(
                operation,
                terms,
                payer,
                available_balance,
                existing,
                total_supply,
                authority,
                now,
            );
            &&& settlement.stage == (Stage::Aborted { reason: SubscribeError::InsufficientAmount })
            &&& action == (Action::Abort { reason: SubscribeError::InsufficientAmount })
            &&& settlement.effects() == (Effects { record: existing, total_supply, collected: 0 })
        }),
{
}

/// A payment of exactly the required amount is accepted without a refund:
/// the settlement goes straight to collecting the payment.
pub proof fn lemma_exact_payment_is_accepted(
    operation: Operation,
    terms: Terms,
    payer: Identity,
    existing: Option<Subscription>,
    total_supply: u64,
    authority: Authority,
    now: u64,
)
    ensures
        ({
            let (settlement, action) = Settlement::begun(
                operation,
                terms,
                payer,
                terms.required_amount,
                existing,
                total_supply,
                Ok(authority),
                now,
            );
            &&& settlement.stage == Stage::Collecting
            &&& settlement.refund_amount == 0
            &&& action == (Action::Collect { amount: terms.required_amount })
        }),
{
}

/// An overpayment is accepted, and its refund, where one is due, is the
/// first thing asked for.
pub proof fn lemma_overpayment_is_refunded_first(
    operation: Operation,
    terms: Terms,
    payer: Identity,
    available_balance: u64,
    existing: Option<Subscription>,
    total_supply: u64,
    authority: Authority,
    now: u64,
)
    requires
        available_balance > terms.required_amount,
    ensures
        ({
            let (settlement, action) = Settlement::begun(
                operation,
                terms,
                payer,
                available_balance,
                existing,
                total_supply,
                Ok(authority),
                now,
            );
            let overpay = available_balance - terms.required_amount;
            &&& overpay > terms.refund_fee ==> settlement.stage == Stage::Refunding && action == (
            Action::Refund { amount: (overpay - terms.refund_fee) as u64 })
            &&& overpay <= terms.refund_fee ==> settlement.stage == Stage::Collecting
                && settlement.refund_amount == 0
        }),
{
}

/// The shares that a settlement routes add up to the required amount.
pub proof fn lemma_settlement_routes_the_whole_payment(
    operation: Operation,
    terms: Terms,
    payer: Identity,
    available_balance: u64,
    existing: Option<Subscription>,
    total_supply: u64,
    authority: Result<Authority, SubscribeError>,
    now: u64,
)
    requires
        terms.well_formed(),
    ensures
        Settlement::begun(
            operation,
            terms,
            payer,
            available_balance,
            existing,
            total_supply,
            authority,
            now,
        ).0.shares.sum() == terms.required_amount,
{
    lemma_shares_sum_to_amount(terms.ratio, terms.required_amount);
}

/// A first subscription whose every action succeeds ends complete: the
/// record runs one period from `now` and one credential more exists.
pub proof fn lemma_subscription_completes(
    terms: Terms,
    payer: Identity,
    available_balance: u64,
    total_supply: u64,
    authority: Authority,
    now: u64,
)
    requires
        available_balance >= terms.required_amount,
        total_supply < terms.max_supply,
    ensures
        Settlement::begun(
            Operation::Subscribe,
            terms,
            payer,
            available_balance,
            None,
            total_supply,
            Ok(authority),
            now,
        ).0.settled().effects() == (Effects {
            record: Some(Subscription::starting(payer, now)),
            total_supply: (total_supply + 1) as u64,
            collected: terms.required_amount,
        }),
{
}

/// A renewal by the record's owner whose every action succeeds ends
/// complete: the record runs one period from `now`, and nothing is minted.
pub proof fn lemma_renewal_completes(
    terms: Terms,
    record: Subscription,
    available_balance: u64,
    total_supply: u64,
    authority: Authority,
    now: u64,
)
    requires
        available_balance >= terms.required_amount,
    ensures
        Settlement::begun(
            Operation::Renew,
            terms,
            record.user,
            available_balance,
            Some(record),
            total_supply,
            Ok(authority),
            now,
        ).0.settled().effects() == (Effects {
            record: Some(Subscription::starting(record.user, now)),
            total_supply,
            collected: terms.required_amount,
        }),
{
}

/// A renewal by anyone but the record's owner is refused as
/// `Unauthorized` when it reaches the ledger, and the record stays as it
/// was.
pub proof fn lemma_renewal_by_a_stranger_aborts(
    terms: Terms,
    record: Subscription,
    caller: Identity,
    available_balance: u64,
    total_supply: u64,
    authority: Authority,
    now: u64,
)
    requires
        available_balance >= terms.required_amount,
        caller@ != record.user@,
    ensures
        ({
            let end = Settlement::begun(
                Operation::Renew,
                terms,
                caller,
                available_balance,
                Some(record),
                total_supply,
                Ok(authority),
                now,
            ).0.settled();
            &&& end.stage == (Stage::Aborted { reason: SubscribeError::Unauthorized })
            &&& end.effects() == (Effects { record: Some(record), total_supply, collected: 0 })
        }),
{
}

/// With the supply at its cap a first subscription is refused as
/// `SupplyCapExceeded` in place of the mint, and the supply stays as it
/// was.
pub proof fn lemma_full_supply_aborts(settlement: Settlement)
    requires
        settlement.operation is Subscribe,
        settlement.stage is ConvertingSecond,
        settlement.existing is None,
        settlement.total_supply == settlement.max_supply,
    ensures
        settlement.next(Outcome::Done) == settlement.aborted(SubscribeError::SupplyCapExceeded),
        settlement.next(Outcome::Done).0.effects().total_supply == settlement.total_supply,
{
}

/// Of two first subscriptions for one payer that run one after the other,
/// the first creates the record and mints one credential; the second finds
/// that record, is refused, and leaves record and supply as the first
/// left them.
pub proof fn lemma_serialized_subscriptions_succeed_once(
    terms: Terms,
    payer: Identity,
    first_balance: u64,
    second_balance: u64,
    total_supply: u64,
    authority: Authority,
    first_now: u64,
    second_now: u64,
)
    requires
        first_balance >= terms.required_amount,
        second_balance >= terms.required_amount,
        total_supply < terms.max_supply,
    ensures
        ({
            let first = Settlement::begun(
                Operation::Subscribe,
                terms,
                payer,
                first_balance,
                None,
                total_supply,
                Ok(authority),
                first_now,
            ).0.settled();
            let second = Settlement::begun(
                Operation::Subscribe,
                terms,
                payer,
                second_balance,
                first.effects().record,
                first.effects().total_supply,
                Ok(authority),
                second_now,
            ).0.settled();
            &&& first.stage is Emitted
            &&& first.effects().record == Some(Subscription::starting(payer, first_now))
            &&& first.effects().total_supply == total_supply + 1
            &&& second.stage == (Stage::Aborted { reason: SubscribeError::Unauthorized })
            &&& second.effects().record == first.effects().record
            &&& second.effects().total_supply == first.effects().total_supply
            &&& second.effects().collected == 0
        }),
{
}

} // verus!

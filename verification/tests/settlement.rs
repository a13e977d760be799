use subscribe::allocation::{AllocationRatio, Shares};
use subscribe::authority::Authority;
use subscribe::error::SubscribeError;
use subscribe::identity::Identity;
use subscribe::ledger::Subscription;
use subscribe::settlement::{
    renew, subscribe, Action, Effects, Leg, Operation, Outcome, Phase, Renew, Settlement, Stage,
    Subscribe, Subscribed, Terms, MAX_SUPPLY, REFUND_FEE, SUB_AMOUNT,
};

const PROGRAM: [u8; 32] = [1; 32];

const AUTHORITY: [u8; 32] = [
    127, 120, 38, 174, 154, 186, 244, 18, 121, 157, 18, 204, 107, 150, 143, 177, 105, 239, 234,
    237, 40, 137, 220, 159, 34, 86, 123, 46, 239, 159, 217, 150,
];

fn payer() -> Identity {
    Identity::new([9; 32])
}

fn stranger() -> Identity {
    Identity::new([8; 32])
}

fn accounts(balance: u64) -> Subscribe {
    Subscribe {
        payer: payer(),
        user_gc_amount: balance,
        subscription: None,
        sbt_supply: 41,
        program_authority: Identity::new(AUTHORITY),
        program_id: Identity::new(PROGRAM),
    }
}

fn renewal(caller: Identity, balance: u64) -> Renew {
    Renew {
        payer: caller,
        user_gc_amount: balance,
        subscription: Subscription { user: payer(), start_slot: 1000, expiry_slot: 78_841_000 },
        sbt_supply: 41,
        program_authority: Identity::new(AUTHORITY),
        program_id: Identity::new(PROGRAM),
    }
}

fn run(mut settlement: Settlement, mut action: Action, fail_at: Option<usize>) -> (Settlement, Vec<Action>) {
    let mut actions = vec![action];
    let mut step = 0;
    while !matches!(action, Action::Commit { .. } | Action::Abort { .. } | Action::Nothing) {
        let outcome = if fail_at == Some(step) { Outcome::Failed } else { Outcome::Done };
        (settlement, action) = settlement.advance(outcome);
        actions.push(action);
        step += 1;
    }
    (settlement, actions)
}

#[test]
fn protocol_terms() {
    assert_eq!(SUB_AMOUNT, 12 * 10u64.pow(6));
    assert_eq!(REFUND_FEE, 10u64.pow(5));
    assert_eq!(MAX_SUPPLY, 1_000_000_000 * 10u64.pow(6));
    assert_eq!(
        Terms::protocol(),
        Terms {
            required_amount: 12_000_000,
            refund_fee: 100_000,
            max_supply: 1_000_000_000_000_000,
            ratio: AllocationRatio { retained: 6, first: 4, second: 2, whole: 12 },
        }
    );
}

#[test]
fn exact_subscription_runs_to_the_end() {
    let (settlement, action) = subscribe(&accounts(12_000_000), 1000);
    assert_eq!(settlement.phase(), Phase::Validated);
    assert_eq!(settlement.refund_amount, 0);
    assert_eq!(settlement.shares, Shares { retained: 6_000_000, first: 4_000_000, second: 2_000_000 });
    let (end, actions) = run(settlement, action, None);
    let record = Subscription { user: payer(), start_slot: 1000, expiry_slot: 78_841_000 };
    assert_eq!(
        actions,
        vec![
            Action::Collect { amount: 12_000_000 },
            Action::Convert { leg: Leg::First, amount: 4_000_000 },
            Action::Convert { leg: Leg::Second, amount: 2_000_000 },
            Action::Mint { amount: 1 },
            Action::Commit { record, event: Subscribed { user: payer(), expiry_slot: 78_841_000 } },
        ]
    );
    assert_eq!(end.stage, Stage::Emitted { record, supply: 42 });
    assert_eq!(end.phase(), Phase::Emitted);
    assert_eq!(
        end.effects(),
        Effects { record: Some(record), total_supply: 42, collected: 12_000_000 }
    );
    assert_eq!(end.authority.unwrap().bump(), 254);
}

#[test]
fn overpaid_subscription_refunds_first() {
    let (settlement, action) = subscribe(&accounts(13_000_000), 1000);
    assert_eq!(settlement.stage, Stage::Refunding);
    assert_eq!(settlement.refund_amount, 900_000);
    assert_eq!(action, Action::Refund { amount: 900_000 });
    let (end, actions) = run(settlement, action, None);
    assert_eq!(actions.len(), 6);
    assert_eq!(actions[1], Action::Collect { amount: 12_000_000 });
    assert_eq!(end.phase(), Phase::Emitted);
}

#[test]
fn overpayment_within_the_fee_skips_the_refund() {
    let (settlement, action) = subscribe(&accounts(12_100_000), 1000);
    assert_eq!(settlement.stage, Stage::Collecting);
    assert_eq!(settlement.refund_amount, 0);
    assert_eq!(action, Action::Collect { amount: 12_000_000 });
}

#[test]
fn short_balance_aborts_at_once() {
    let (settlement, action) = subscribe(&accounts(11_999_999), 1000);
    assert_eq!(action, Action::Abort { reason: SubscribeError::InsufficientAmount });
    assert_eq!(settlement.phase(), Phase::Aborted(SubscribeError::InsufficientAmount));
    assert_eq!(settlement.effects(), Effects { record: None, total_supply: 41, collected: 0 });
    assert_eq!(settlement.advance(Outcome::Done), (settlement, Action::Nothing));
}

#[test]
fn short_balance_comes_before_a_bad_authority() {
    let mut accounts = accounts(1);
    accounts.program_authority = stranger();
    let (_, action) = subscribe(&accounts, 1000);
    assert_eq!(action, Action::Abort { reason: SubscribeError::InsufficientAmount });
}

#[test]
fn bad_authority_aborts() {
    let mut accounts = accounts(12_000_000);
    accounts.program_authority = stranger();
    let (settlement, action) = subscribe(&accounts, 1000);
    assert_eq!(action, Action::Abort { reason: SubscribeError::Unauthorized });
    assert_eq!(settlement.authority, None);
    assert_eq!(settlement.effects(), Effects { record: None, total_supply: 41, collected: 0 });
}

#[test]
fn each_failure_aborts_with_the_error_of_its_stage() {
    let expected = [
        SubscribeError::RefundFailed,
        SubscribeError::TokenTransferFailed,
        SubscribeError::TokenTransferFailed,
        SubscribeError::TokenTransferFailed,
        SubscribeError::MintFailed,
    ];
    for (step, reason) in expected.iter().enumerate() {
        let (settlement, action) = subscribe(&accounts(13_000_000), 1000);
        let (end, actions) = run(settlement, action, Some(step));
        assert_eq!(actions.len(), step + 2);
        assert_eq!(actions[step + 1], Action::Abort { reason: *reason });
        assert_eq!(end.stage, Stage::Aborted { reason: *reason });
        assert_eq!(end.effects(), Effects { record: None, total_supply: 41, collected: 0 });
    }
}

#[test]
fn second_subscription_is_refused() {
    let (settlement, action) = subscribe(&accounts(12_000_000), 1000);
    let (first, _) = run(settlement, action, None);
    let mut again = accounts(12_000_000);
    again.subscription = first.effects().record;
    again.sbt_supply = first.effects().total_supply;
    let (settlement, action) = subscribe(&again, 2000);
    let (second, actions) = run(settlement, action, None);
    assert_eq!(actions.last(), Some(&Action::Abort { reason: SubscribeError::Unauthorized }));
    assert!(!actions.contains(&Action::Mint { amount: 1 }));
    assert_eq!(second.effects().record, first.effects().record);
    assert_eq!(second.effects().total_supply, 42);
    assert_eq!(second.effects().collected, 0);
}

#[test]
fn full_supply_refuses_the_mint() {
    let mut full = accounts(12_000_000);
    full.sbt_supply = MAX_SUPPLY;
    let (settlement, action) = subscribe(&full, 1000);
    let (end, actions) = run(settlement, action, None);
    assert_eq!(actions.last(), Some(&Action::Abort { reason: SubscribeError::SupplyCapExceeded }));
    assert!(!actions.contains(&Action::Mint { amount: 1 }));
    assert_eq!(end.effects(), Effects { record: None, total_supply: MAX_SUPPLY, collected: 0 });

    full.sbt_supply = MAX_SUPPLY - 1;
    let (settlement, action) = subscribe(&full, 1000);
    let (end, _) = run(settlement, action, None);
    assert_eq!(end.effects().total_supply, MAX_SUPPLY);
}

#[test]
fn renewal_restarts_the_period_without_a_mint() {
    let (settlement, action) = renew(&renewal(payer(), 12_000_000), 50_000);
    assert_eq!(settlement.operation, Operation::Renew);
    let (end, actions) = run(settlement, action, None);
    let record = Subscription { user: payer(), start_slot: 50_000, expiry_slot: 78_890_000 };
    assert_eq!(
        actions,
        vec![
            Action::Collect { amount: 12_000_000 },
            Action::Convert { leg: Leg::First, amount: 4_000_000 },
            Action::Convert { leg: Leg::Second, amount: 2_000_000 },
            Action::Commit { record, event: Subscribed { user: payer(), expiry_slot: 78_890_000 } },
        ]
    );
    assert_eq!(
        end.effects(),
        Effects { record: Some(record), total_supply: 41, collected: 12_000_000 }
    );
}

#[test]
fn renewal_by_a_stranger_is_unauthorized() {
    let accounts = renewal(stranger(), 12_000_000);
    let (settlement, action) = renew(&accounts, 50_000);
    let (end, actions) = run(settlement, action, None);
    assert_eq!(actions.last(), Some(&Action::Abort { reason: SubscribeError::Unauthorized }));
    assert_eq!(
        end.effects(),
        Effects { record: Some(accounts.subscription), total_supply: 41, collected: 0 }
    );
}

#[test]
fn renewal_with_a_short_balance_is_rejected() {
    let (_, action) = renew(&renewal(stranger(), 5), 50_000);
    assert_eq!(action, Action::Abort { reason: SubscribeError::InsufficientAmount });
}

#[test]
fn renewal_without_a_record_is_unauthorized() {
    let authority =
        Authority::authorize(&Identity::new(AUTHORITY), &Identity::new(PROGRAM));
    let (settlement, action) = Settlement::begin(
        Operation::Renew,
        &Terms::protocol(),
        payer(),
        12_000_000,
        None,
        0,
        authority,
        7,
    );
    let (end, _) = run(settlement, action, None);
    assert_eq!(end.stage, Stage::Aborted { reason: SubscribeError::Unauthorized });
}

#[test]
fn other_terms_are_followed() {
    let terms = Terms {
        required_amount: 100,
        refund_fee: 3,
        max_supply: 1,
        ratio: AllocationRatio::new(1, 1, 1, 3).unwrap(),
    };
    let authority =
        Authority::authorize(&Identity::new(AUTHORITY), &Identity::new(PROGRAM));
    let (settlement, action) =
        Settlement::begin(Operation::Subscribe, &terms, payer(), 110, None, 0, authority, 7);
    let (end, actions) = run(settlement, action, None);
    assert_eq!(actions[0], Action::Refund { amount: 7 });
    assert_eq!(actions[1], Action::Collect { amount: 100 });
    assert_eq!(actions[2], Action::Convert { leg: Leg::First, amount: 33 });
    assert_eq!(actions[3], Action::Convert { leg: Leg::Second, amount: 33 });
    assert_eq!(end.shares, Shares { retained: 34, first: 33, second: 33 });
    assert_eq!(end.effects().total_supply, 1);
}

#[test]
fn phases_follow_the_stages() {
    let (settlement, _) = subscribe(&accounts(13_000_000), 1000);
    assert_eq!(settlement.phase(), Phase::Validated);
    let (settlement, _) = settlement.advance(Outcome::Done);
    assert_eq!(settlement.stage, Stage::Collecting);
    let (settlement, _) = settlement.advance(Outcome::Done);
    assert_eq!(settlement.stage, Stage::ConvertingFirst);
    let (settlement, _) = settlement.advance(Outcome::Done);
    assert_eq!(settlement.stage, Stage::ConvertingSecond);
    assert_eq!(settlement.phase(), Phase::Validated);
    let (settlement, _) = settlement.advance(Outcome::Done);
    let record = Subscription { user: payer(), start_slot: 1000, expiry_slot: 78_841_000 };
    assert_eq!(settlement.stage, Stage::Minting { record, supply: 42 });
    assert_eq!(settlement.phase(), Phase::Ledgered);
    assert_eq!(settlement.effects(), Effects { record: None, total_supply: 41, collected: 0 });
    let (settlement, _) = settlement.advance(Outcome::Done);
    assert_eq!(settlement.phase(), Phase::Emitted);
    assert_eq!(settlement.advance(Outcome::Failed), (settlement, Action::Nothing));
}

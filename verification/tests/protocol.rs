use simple_swap::{
    reported, reserve_covers, settled, Action, DataKey, Direction, Event, Reply, Stage, Swap,
    SwapError,
};

/// A ledger made of plain numbers: what the contract and the caller hold of
/// each asset, with every request that reaches it written down.
struct FakeLedger {
    asset_a_set: bool,
    asset_b_set: bool,
    authorized: bool,
    contract: [i128; 2],
    caller: [i128; 2],
    asked: Vec<Action>,
}

fn index(asset: DataKey) -> usize {
    match asset {
        DataKey::AssetA => 0,
        DataKey::AssetB => 1,
    }
}

impl FakeLedger {
    /// A constructed contract that holds `reserve_b` of asset B, and an
    /// authorized caller who holds `purse` of each asset.
    fn new(reserve_a: i128, reserve_b: i128, purse: i128) -> FakeLedger {
        FakeLedger {
            asset_a_set: true,
            asset_b_set: true,
            authorized: true,
            contract: [reserve_a, reserve_b],
            caller: [purse, purse],
            asked: Vec::new(),
        }
    }

    fn is_set(&self, asset: DataKey) -> bool {
        match asset {
            DataKey::AssetA => self.asset_a_set,
            DataKey::AssetB => self.asset_b_set,
        }
    }

    /// Moves `amount` between the two holdings, or refuses and moves nothing.
    fn transfer(from: &mut i128, to: &mut i128, amount: i128) -> bool {
        if amount < 0 || *from < amount {
            return false;
        }
        *from -= amount;
        *to += amount;
        true
    }

    /// Does what the run asks for until the run ends. As the host does, it
    /// undoes every transfer of a run that fails.
    fn swap(&mut self, is_sell_asset_a: bool, amount: i128) -> Result<(), SwapError> {
        let before = (self.contract, self.caller);
        let mut run = Swap::new(is_sell_asset_a, amount);
        loop {
            let action = run.action();
            self.asked.push(action);
            let event = match action {
                Action::Finish(result) => {
                    if result.is_err() {
                        self.contract = before.0;
                        self.caller = before.1;
                    }
                    return result;
                }
                Action::ResolveLegs { asset_in, asset_out } => Event::Legs {
                    asset_in: self.is_set(asset_in),
                    asset_out: self.is_set(asset_out),
                },
                Action::Authenticate => Event::Authorization(self.authorized),
                Action::Delegate { .. } => Event::Delegated,
                Action::ReadReserve { asset } => Event::Reserve(self.contract[index(asset)]),
                Action::PullIn { asset, amount } => Event::Transfer(FakeLedger::transfer(
                    &mut self.caller[index(asset)],
                    &mut self.contract[index(asset)],
                    amount,
                )),
                Action::PushOut { asset, amount } => Event::Transfer(FakeLedger::transfer(
                    &mut self.contract[index(asset)],
                    &mut self.caller[index(asset)],
                    amount,
                )),
            };
            run = run.advance(event);
        }
    }

    fn moved_funds(&self) -> bool {
        self.asked
            .iter()
            .any(|action| matches!(action, Action::PullIn { .. } | Action::PushOut { .. }))
    }
}

fn feed(mut run: Swap, events: &[Event]) -> Swap {
    for event in events {
        run = run.advance(*event);
    }
    run
}

const LEGS: Event = Event::Legs { asset_in: true, asset_out: true };

#[test]
fn scenario_sell_a_within_the_reserve() {
    let mut ledger = FakeLedger::new(0, 1000, 700);
    assert_eq!(ledger.swap(true, 500), Ok(()));
    assert_eq!(ledger.contract, [500, 500]);
    assert_eq!(ledger.caller, [200, 1200]);
    assert_eq!(
        ledger.asked,
        vec![
            Action::ResolveLegs { asset_in: DataKey::AssetA, asset_out: DataKey::AssetB },
            Action::Authenticate,
            Action::Delegate { asset: DataKey::AssetA, amount: 500 },
            Action::ReadReserve { asset: DataKey::AssetB },
            Action::PullIn { asset: DataKey::AssetA, amount: 500 },
            Action::PushOut { asset: DataKey::AssetB, amount: 500 },
            Action::Finish(Ok(())),
        ]
    );
}

#[test]
fn scenario_amount_above_the_reserve() {
    let mut ledger = FakeLedger::new(0, 1000, 5000);
    assert_eq!(ledger.swap(true, 1500), Err(SwapError::InsufficientReserve));
    assert_eq!(ledger.contract, [0, 1000]);
    assert_eq!(ledger.caller, [5000, 5000]);
    assert!(!ledger.moved_funds());
    assert_eq!(ledger.asked.len(), 5);
    assert_eq!(ledger.asked[3], Action::ReadReserve { asset: DataKey::AssetB });
    assert_eq!(ledger.asked[4], Action::Finish(Err(SwapError::InsufficientReserve)));
}

#[test]
fn scenario_authorization_fails() {
    let mut ledger = FakeLedger::new(0, 1000, 700);
    ledger.authorized = false;
    assert_eq!(ledger.swap(true, 500), Err(SwapError::AuthorizationDenied));
    assert_eq!(ledger.contract, [0, 1000]);
    assert_eq!(ledger.caller, [700, 700]);
    assert!(!ledger.moved_funds());
    assert_eq!(
        ledger.asked,
        vec![
            Action::ResolveLegs { asset_in: DataKey::AssetA, asset_out: DataKey::AssetB },
            Action::Authenticate,
            Action::Finish(Err(SwapError::AuthorizationDenied)),
        ]
    );
}

#[test]
fn scenario_authorization_fails_whatever_the_reserve() {
    let mut ledger = FakeLedger::new(0, 1000, 5000);
    ledger.authorized = false;
    assert_eq!(ledger.swap(true, 1500), Err(SwapError::AuthorizationDenied));
    assert!(!ledger.moved_funds());
}

#[test]
fn scenario_pull_in_aborts() {
    let mut ledger = FakeLedger::new(0, 1000, 100);
    assert_eq!(ledger.swap(true, 500), Err(SwapError::LedgerTransferFailed));
    assert_eq!(ledger.contract, [0, 1000]);
    assert_eq!(ledger.caller, [100, 100]);
    assert_eq!(ledger.asked[4], Action::PullIn { asset: DataKey::AssetA, amount: 500 });
    assert_eq!(ledger.asked[5], Action::Finish(Err(SwapError::LedgerTransferFailed)));
    assert!(!ledger.asked.iter().any(|action| matches!(action, Action::PushOut { .. })));
}

#[test]
fn scenario_sell_b_within_the_reserve() {
    let mut ledger = FakeLedger::new(1000, 0, 700);
    assert_eq!(ledger.swap(false, 500), Ok(()));
    assert_eq!(ledger.contract, [500, 500]);
    assert_eq!(ledger.caller, [1200, 200]);
    assert_eq!(
        ledger.asked,
        vec![
            Action::ResolveLegs { asset_in: DataKey::AssetB, asset_out: DataKey::AssetA },
            Action::Authenticate,
            Action::Delegate { asset: DataKey::AssetB, amount: 500 },
            Action::ReadReserve { asset: DataKey::AssetA },
            Action::PullIn { asset: DataKey::AssetB, amount: 500 },
            Action::PushOut { asset: DataKey::AssetA, amount: 500 },
            Action::Finish(Ok(())),
        ]
    );
}

#[test]
fn scenario_missing_configuration() {
    let mut ledger = FakeLedger::new(0, 1000, 700);
    ledger.asset_b_set = false;
    assert_eq!(ledger.swap(true, 500), Err(SwapError::ConfigurationMissing(DataKey::AssetB)));
    assert_eq!(ledger.swap(false, 500), Err(SwapError::ConfigurationMissing(DataKey::AssetB)));
    ledger.asset_a_set = false;
    assert_eq!(ledger.swap(true, 500), Err(SwapError::ConfigurationMissing(DataKey::AssetA)));
    assert_eq!(ledger.swap(false, 500), Err(SwapError::ConfigurationMissing(DataKey::AssetB)));
    assert!(!ledger.moved_funds());
}

#[test]
fn reserve_equal_to_the_amount_is_enough() {
    let mut ledger = FakeLedger::new(0, 500, 500);
    assert_eq!(ledger.swap(true, 500), Ok(()));
    assert_eq!(ledger.contract, [500, 0]);
    let mut ledger = FakeLedger::new(0, 499, 500);
    assert_eq!(ledger.swap(true, 500), Err(SwapError::InsufficientReserve));
}

#[test]
fn new_run_starts_by_resolving_the_legs() {
    let run = Swap::new(true, 42);
    assert_eq!(run.direction, Direction::SellA);
    assert_eq!(run.amount, 42);
    assert_eq!(run.stage, Stage::ResolveLegs);
    assert_eq!(run.result(), None);
    let run = Swap::new(false, -1);
    assert_eq!(run.direction, Direction::SellB);
    assert_eq!(run.amount, -1);
    assert_eq!(
        run.action(),
        Action::ResolveLegs { asset_in: DataKey::AssetB, asset_out: DataKey::AssetA }
    );
}

#[test]
fn direction_names_the_two_legs() {
    assert_eq!(Direction::from_flag(true), Direction::SellA);
    assert_eq!(Direction::from_flag(false), Direction::SellB);
    assert_eq!(Direction::SellA.asset_in(), DataKey::AssetA);
    assert_eq!(Direction::SellA.asset_out(), DataKey::AssetB);
    assert_eq!(Direction::SellB.asset_in(), DataKey::AssetB);
    assert_eq!(Direction::SellB.asset_out(), DataKey::AssetA);
}

#[test]
fn stages_follow_one_another() {
    let run = Swap::new(true, 10);
    let run = run.advance(LEGS);
    assert_eq!(run.stage, Stage::Authenticate);
    assert_eq!(run.action(), Action::Authenticate);
    let run = run.advance(Event::Authorization(true));
    assert_eq!(run.stage, Stage::Delegate);
    assert_eq!(run.action(), Action::Delegate { asset: DataKey::AssetA, amount: 10 });
    let run = run.advance(Event::Delegated);
    assert_eq!(run.stage, Stage::VerifyReserve);
    assert_eq!(run.action(), Action::ReadReserve { asset: DataKey::AssetB });
    let run = run.advance(Event::Reserve(10));
    assert_eq!(run.stage, Stage::PullIn);
    assert_eq!(run.action(), Action::PullIn { asset: DataKey::AssetA, amount: 10 });
    let run = run.advance(Event::Transfer(true));
    assert_eq!(run.stage, Stage::PushOut);
    assert_eq!(run.action(), Action::PushOut { asset: DataKey::AssetB, amount: 10 });
    assert_eq!(run.result(), None);
    let run = run.advance(Event::Transfer(true));
    assert_eq!(run.stage, Stage::Completed);
    assert_eq!(run.action(), Action::Finish(Ok(())));
    assert_eq!(run.result(), Some(Ok(())));
}

#[test]
fn each_gate_gives_its_own_error() {
    let start = Swap::new(false, 10);
    let missing_in = feed(start, &[Event::Legs { asset_in: false, asset_out: true }]);
    assert_eq!(missing_in.result(), Some(Err(SwapError::ConfigurationMissing(DataKey::AssetB))));
    let missing_out = feed(start, &[Event::Legs { asset_in: true, asset_out: false }]);
    assert_eq!(missing_out.result(), Some(Err(SwapError::ConfigurationMissing(DataKey::AssetA))));
    let missing_both = feed(start, &[Event::Legs { asset_in: false, asset_out: false }]);
    assert_eq!(missing_both.result(), Some(Err(SwapError::ConfigurationMissing(DataKey::AssetB))));
    let denied = feed(start, &[LEGS, Event::Authorization(false)]);
    assert_eq!(denied.result(), Some(Err(SwapError::AuthorizationDenied)));
    let short = feed(start, &[LEGS, Event::Authorization(true), Event::Delegated, Event::Reserve(9)]);
    assert_eq!(short.result(), Some(Err(SwapError::InsufficientReserve)));
    let covered = [LEGS, Event::Authorization(true), Event::Delegated, Event::Reserve(10)];
    let no_pull = feed(feed(start, &covered), &[Event::Transfer(false)]);
    assert_eq!(no_pull.result(), Some(Err(SwapError::LedgerTransferFailed)));
    let no_push = feed(feed(start, &covered), &[Event::Transfer(true), Event::Transfer(false)]);
    assert_eq!(no_push.result(), Some(Err(SwapError::LedgerTransferFailed)));
    assert_eq!(no_push.action(), Action::Finish(Err(SwapError::LedgerTransferFailed)));
}

#[test]
fn events_that_answer_nothing_are_ignored() {
    let start = Swap::new(true, 10);
    let strays = [
        Event::Authorization(true),
        Event::Delegated,
        Event::Reserve(1000),
        Event::Transfer(true),
    ];
    assert_eq!(feed(start, &strays), start);
    let waiting = feed(start, &[LEGS]);
    assert_eq!(feed(waiting, &[LEGS, Event::Reserve(1000), Event::Transfer(true)]), waiting);
    let reserve = feed(start, &[LEGS, Event::Authorization(true), Event::Delegated]);
    assert_eq!(feed(reserve, &[Event::Transfer(true), Event::Authorization(false)]), reserve);
}

#[test]
fn ended_runs_stay_as_they_are() {
    let all = [
        LEGS,
        Event::Authorization(true),
        Event::Delegated,
        Event::Reserve(1000),
        Event::Transfer(true),
        Event::Transfer(true),
    ];
    let done = feed(Swap::new(true, 10), &all);
    assert_eq!(done.stage, Stage::Completed);
    assert_eq!(feed(done, &all), done);
    let denied = feed(Swap::new(true, 10), &[LEGS, Event::Authorization(false)]);
    assert_eq!(feed(denied, &all), denied);
    assert_eq!(feed(denied, &all).result(), Some(Err(SwapError::AuthorizationDenied)));
}

#[test]
fn no_transfer_without_authorization() {
    let events = [
        LEGS,
        Event::Delegated,
        Event::Reserve(1000),
        Event::Authorization(false),
        Event::Transfer(true),
        Event::Transfer(true),
    ];
    let mut run = Swap::new(true, 10);
    for event in events {
        assert!(!matches!(run.action(), Action::PullIn { .. } | Action::PushOut { .. }));
        run = run.advance(event);
    }
    assert_eq!(run.result(), Some(Err(SwapError::AuthorizationDenied)));
}

#[test]
fn no_transfer_without_a_covering_reserve() {
    let events = [
        LEGS,
        Event::Authorization(true),
        Event::Delegated,
        Event::Transfer(true),
        Event::Reserve(9),
        Event::Reserve(1000),
        Event::Transfer(true),
    ];
    let mut run = Swap::new(true, 10);
    for event in events {
        assert!(!matches!(run.action(), Action::PullIn { .. } | Action::PushOut { .. }));
        run = run.advance(event);
    }
    assert_eq!(run.result(), Some(Err(SwapError::InsufficientReserve)));
}

#[test]
fn no_push_out_without_a_pull_in() {
    let events = [
        LEGS,
        Event::Authorization(true),
        Event::Delegated,
        Event::Reserve(10),
        Event::Transfer(false),
        Event::Transfer(false),
    ];
    let mut run = Swap::new(true, 10);
    for event in events {
        assert!(!matches!(run.action(), Action::PushOut { .. }));
        run = run.advance(event);
    }
    assert_eq!(run.result(), Some(Err(SwapError::LedgerTransferFailed)));
}

#[test]
fn a_run_keeps_its_direction_and_amount() {
    let events = [
        LEGS,
        Event::Authorization(true),
        Event::Delegated,
        Event::Reserve(77),
        Event::Transfer(true),
        Event::Transfer(true),
    ];
    let mut run = Swap::new(false, 77);
    for event in events {
        run = run.advance(event);
        assert_eq!(run.direction, Direction::SellB);
        assert_eq!(run.amount, 77);
    }
}

#[test]
fn reserve_covers_is_a_plain_comparison() {
    assert!(reserve_covers(1000, 500));
    assert!(reserve_covers(500, 500));
    assert!(!reserve_covers(499, 500));
    assert!(reserve_covers(0, 0));
    assert!(reserve_covers(0, -1));
    assert!(!reserve_covers(-2, -1));
    assert!(reserve_covers(i128::MAX, i128::MAX));
    assert!(!reserve_covers(i128::MIN, i128::MAX));
    assert!(reserve_covers(i128::MIN, i128::MIN));
}

#[test]
fn settled_maps_a_refusal_to_the_ledger_s_error() {
    assert_eq!(settled(Reply::Answer(())), Ok(()));
    assert_eq!(settled(Reply::Unreadable), Err(SwapError::LedgerTransferFailed));
    assert_eq!(settled(Reply::Failed), Err(SwapError::LedgerTransferFailed));
}

#[test]
fn reported_maps_a_missing_balance_to_the_query_s_error() {
    assert_eq!(reported(Reply::Answer(12)), Ok(12));
    assert_eq!(reported(Reply::Answer(-1)), Ok(-1));
    assert_eq!(reported(Reply::Unreadable), Err(SwapError::LedgerQueryFailed));
    assert_eq!(reported(Reply::Failed), Err(SwapError::LedgerQueryFailed));
}

#[test]
fn an_unknown_reserve_ends_the_run_before_any_transfer() {
    let waiting = feed(
        Swap::new(true, 10),
        &[LEGS, Event::Authorization(true), Event::Delegated],
    );
    let ended = waiting.advance(Event::ReserveUnknown);
    assert_eq!(ended.result(), Some(Err(SwapError::LedgerQueryFailed)));
    assert_eq!(ended.action(), Action::Finish(Err(SwapError::LedgerQueryFailed)));
    assert_eq!(feed(Swap::new(true, 10), &[Event::ReserveUnknown]), Swap::new(true, 10));
}

#[test]
fn slots_have_their_names() {
    assert_eq!(DataKey::AssetA.name(), "AssetA");
    assert_eq!(DataKey::AssetB.name(), "AssetB");
}

#[test]
fn errors_have_their_messages() {
    assert_eq!(SwapError::ConfigurationMissing(DataKey::AssetA).message(), "Asset A not set");
    assert_eq!(SwapError::ConfigurationMissing(DataKey::AssetB).message(), "Asset B not set");
    assert_eq!(SwapError::AlreadyConstructed.message(), "Assets already set");
    assert_eq!(SwapError::AuthorizationDenied.message(), "Authorization denied");
    assert_eq!(SwapError::InsufficientReserve.message(), "Not enough balance to swap");
    assert_eq!(SwapError::LedgerQueryFailed.message(), "Ledger balance query failed");
    assert_eq!(SwapError::LedgerTransferFailed.message(), "Ledger transfer failed");
}

//! What holds of every run of the swap protocol, whatever comes back from
//! outside and in whatever order.

use crate::error::SwapError;
use crate::protocol::{covers, verdict, Action, Direction, Event, Observed, Stage, Swap};
use crate::storage::DataKey;
use vstd::prelude::*;

verus! {

/// A run after one more event is the run so far, moved on by that event.
pub proof fn lemma_after_push(run: Swap, events: Seq<Event>, event: Event)
    ensures
        run.after(events.push(event)) == run.after(events).next(event),
{
    assert(events.push(event).drop_last() =~= events);
}

/// A run never changes what was asked of it: the direction and the amount stay
/// those it began with.
pub proof fn law_request_is_kept(run: Swap, events: Seq<Event>)
    ensures
        run.after(events).direction == run.direction,
        run.after(events).amount == run.amount,
    decreases events.len(),
{
    if events.len() > 0 {
        law_request_is_kept(run, events.drop_last());
    }
}

/// Directionality: selling asset A takes asset A in and pays asset B out,
/// selling asset B the reverse; and at every point of every run, whatever is
/// asked of the ledger names the asset and the amount that the direction and
/// the request give.
pub proof fn law_directionality(is_sell_asset_a: bool, amount: i128, events: Seq<Event>)
    ensures
        Direction::of(is_sell_asset_a).input() == (if is_sell_asset_a {
            DataKey::AssetA
        } else {
            DataKey::AssetB
        }),
        Direction::of(is_sell_asset_a).output() == (if is_sell_asset_a {
            DataKey::AssetB
        } else {
            DataKey::AssetA
        }),
        ({
            let direction = Direction::of(is_sell_asset_a);
            let action = Swap::start(direction, amount).after(events).pending();
            &&& action is Delegate ==> action == (Action::Delegate {
                asset: direction.input(),
                amount,
            })
            &&& action is ReadReserve ==> action == (Action::ReadReserve {
                asset: direction.output(),
            })
            &&& action is PullIn ==> action == (Action::PullIn { asset: direction.input(), amount })
            &&& action is PushOut ==> action == (Action::PushOut {
                asset: direction.output(),
                amount,
            })
        }),
{
    law_request_is_kept(Swap::start(Direction::of(is_sell_asset_a), amount), events);
}

/// A run that has ended stays as it is, whatever comes after.
pub proof fn law_ended_runs_stay(run: Swap, events: Seq<Event>)
    requires
        run.outcome() is Some,
    ensures
        run.after(events) == run,
    decreases events.len(),
{
    if events.len() > 0 {
        law_ended_runs_stay(run, events.drop_last());
    }
}

/// A run after the first `n + 1` of some events is the run after the first
/// `n`, moved on by the next one.
pub proof fn lemma_after_step(run: Swap, events: Seq<Event>, n: int)
    requires
        0 <= n < events.len(),
    ensures
        run.after(events.take(n + 1)) == run.after(events.take(n)).next(events[n]),
{
    assert(events.take(n + 1) =~= events.take(n).push(events[n]));
    lemma_after_push(run, events.take(n), events[n]);
}

/// A faithful run, answer by answer: it begins at the start, and each of its
/// six answers moves it on from where the answers before had brought it.
pub proof fn lemma_faithful_prefixes(direction: Direction, amount: i128, seen: Observed)
    ensures
        ({
            let run = Swap::start(direction, amount);
            let events = seen.events();
            &&& events.len() == 6
            &&& events.take(6) == events
            &&& run.after(events.take(0)) == run
            &&& run.after(events.take(1)) == run.after(events.take(0)).next(events[0])
            &&& run.after(events.take(2)) == run.after(events.take(1)).next(events[1])
            &&& run.after(events.take(3)) == run.after(events.take(2)).next(events[2])
            &&& run.after(events.take(4)) == run.after(events.take(3)).next(events[3])
            &&& run.after(events.take(5)) == run.after(events.take(4)).next(events[4])
            &&& run.after(events.take(6)) == run.after(events.take(5)).next(events[5])
        }),
{
    let run = Swap::start(direction, amount);
    let events = seen.events();
    assert(events.take(6) =~= events);
    assert(events.take(0) =~= Seq::<Event>::empty());
    lemma_after_step(run, events, 0);
    lemma_after_step(run, events, 1);
    lemma_after_step(run, events, 2);
    lemma_after_step(run, events, 3);
    lemma_after_step(run, events, 4);
    lemma_after_step(run, events, 5);
}

/// The result of a faithful run is the verdict on what it observed: success
/// if every gate opened, and otherwise the error of the first that did not.
pub proof fn law_verdict(direction: Direction, amount: i128, seen: Observed)
    ensures
        Swap::start(direction, amount).after(seen.events()).outcome() == Some(
            verdict(direction, amount, seen),
        ),
{
    lemma_faithful_prefixes(direction, amount, seen);
}

impl Event {
    /// Whether the event reports a reserve that covers `amount`.
    pub open spec fn reports_cover(self, amount: i128) -> bool {
        self matches Event::Reserve(balance) && covers(balance, amount)
    }
}

/// Whether the run `run`, fed `events`, at no point asks the ledger to move
/// funds.
pub open spec fn never_moves_funds(run: Swap, events: Seq<Event>) -> bool {
    forall|n: int|
        0 <= n <= events.len() ==> !(#[trigger] run.after(events.take(n))).pending().moves_funds()
}

/// Without an authorization, a run stays before the delegation or is given up
/// for a missing asset or for the denial.
proof fn lemma_unauthorized(direction: Direction, amount: i128, events: Seq<Event>)
    requires
        forall|i: int| 0 <= i < events.len() ==> events[i] != Event::Authorization(true),
    ensures
        ({
            let stage = Swap::start(direction, amount).after(events).stage;
            ||| stage is ResolveLegs
            ||| stage is Authenticate
            ||| stage matches Stage::Aborted(SwapError::ConfigurationMissing(_))
            ||| stage == Stage::Aborted(SwapError::AuthorizationDenied)
        }),
    decreases events.len(),
{
    if events.len() > 0 {
        lemma_unauthorized(direction, amount, events.drop_last());
    }
}

/// Authorization gate: in a run that never hears that the caller has
/// authorized the invocation, no transfer is ever asked for, and the run
/// does not complete.
pub proof fn law_authorization_gate(direction: Direction, amount: i128, events: Seq<Event>)
    requires
        forall|i: int| 0 <= i < events.len() ==> events[i] != Event::Authorization(true),
    ensures
        never_moves_funds(Swap::start(direction, amount), events),
        Swap::start(direction, amount).after(events).outcome() != Some(Ok::<(), SwapError>(())),
{
    let run = Swap::start(direction, amount);
    assert forall|n: int| 0 <= n <= events.len() implies !(#[trigger] run.after(
        events.take(n),
    )).pending().moves_funds() by {
        lemma_unauthorized(direction, amount, events.take(n));
    }
    lemma_unauthorized(direction, amount, events);
}

/// Without a reserve that covers the amount, a run stays before the pull-in
/// or is given up for a reason that comes before any transfer.
proof fn lemma_uncovered(direction: Direction, amount: i128, events: Seq<Event>)
    requires
        forall|i: int| 0 <= i < events.len() ==> !(#[trigger] events[i]).reports_cover(amount),
    ensures
        ({
            let stage = Swap::start(direction, amount).after(events).stage;
            ||| stage is ResolveLegs
            ||| stage is Authenticate
            ||| stage is Delegate
            ||| stage is VerifyReserve
            ||| stage matches Stage::Aborted(SwapError::ConfigurationMissing(_))
            ||| stage == Stage::Aborted(SwapError::AuthorizationDenied)
            ||| stage == Stage::Aborted(SwapError::LedgerQueryFailed)
            ||| stage == Stage::Aborted(SwapError::InsufficientReserve)
        }),
    decreases events.len(),
{
    if events.len() > 0 {
        lemma_uncovered(direction, amount, events.drop_last());
        law_request_is_kept(Swap::start(direction, amount), events.drop_last());
    }
}

/// Reserve gate: in a run that never hears of a reserve that covers the
/// amount, no transfer is ever asked for, and the run does not complete.
pub proof fn law_reserve_gate(direction: Direction, amount: i128, events: Seq<Event>)
    requires
        forall|i: int| 0 <= i < events.len() ==> !(#[trigger] events[i]).reports_cover(amount),
    ensures
        never_moves_funds(Swap::start(direction, amount), events),
        Swap::start(direction, amount).after(events).outcome() != Some(Ok::<(), SwapError>(())),
{
    let run = Swap::start(direction, amount);
    assert forall|n: int| 0 <= n <= events.len() implies !(#[trigger] run.after(
        events.take(n),
    )).pending().moves_funds() by {
        lemma_uncovered(direction, amount, events.take(n));
    }
    lemma_uncovered(direction, amount, events);
}

/// Without a transfer that went through, a run has neither reached the
/// push-out nor completed.
proof fn lemma_nothing_pulled(direction: Direction, amount: i128, events: Seq<Event>)
    requires
        forall|i: int| 0 <= i < events.len() ==> events[i] != Event::Transfer(true),
    ensures
        !(Swap::start(direction, amount).after(events).stage is PushOut),
        !(Swap::start(direction, amount).after(events).stage is Completed),
    decreases events.len(),
{
    if events.len() > 0 {
        lemma_nothing_pulled(direction, amount, events.drop_last());
    }
}

/// Pull before push: in a run that never hears of a transfer that went
/// through, the push-out is never asked for, and the run does not complete.
pub proof fn law_pull_in_comes_first(direction: Direction, amount: i128, events: Seq<Event>)
    requires
        forall|i: int| 0 <= i < events.len() ==> events[i] != Event::Transfer(true),
    ensures
        forall|n: int|
            0 <= n <= events.len() ==> !((#[trigger] Swap::start(direction, amount).after(
                events.take(n),
            )).pending() is PushOut),
        Swap::start(direction, amount).after(events).outcome() != Some(Ok::<(), SwapError>(())),
{
    let run = Swap::start(direction, amount);
    assert forall|n: int| 0 <= n <= events.len() implies !((#[trigger] run.after(
        events.take(n),
    )).pending() is PushOut) by {
        lemma_nothing_pulled(direction, amount, events.take(n));
    }
    lemma_nothing_pulled(direction, amount, events);
}

impl Observed {
    /// Whether the first `n` answers all opened their gates. The answers, in
    /// order: the legs, the authorization, the delegation (which always opens),
    /// the reserve, the pull-in, the push-out.
    pub open spec fn open_through(self, amount: i128, n: int) -> bool {
        &&& n >= 1 ==> self.asset_in && self.asset_out
        &&& n >= 2 ==> self.authorized
        &&& n >= 4 ==> self.reserve is Some && covers(self.reserve->Some_0, amount)
        &&& n >= 5 ==> self.pulled
        &&& n >= 6 ==> self.pushed
    }
}

/// What a swap asks for, step by step, as long as every gate opens.
pub open spec fn script(direction: Direction, amount: i128) -> Seq<Action> {
    seq![
        Action::ResolveLegs { asset_in: direction.input(), asset_out: direction.output() },
        Action::Authenticate,
        Action::Delegate { asset: direction.input(), amount },
        Action::ReadReserve { asset: direction.output() },
        Action::PullIn { asset: direction.input(), amount },
        Action::PushOut { asset: direction.output(), amount },
    ]
}

/// The order of a swap: after `n` answers that all opened their gates, a
/// faithful run asks for step `n` of the script, or has completed if there
/// is none left; after an answer that did not, it has ended with the verdict
/// and asks for nothing more.
pub proof fn law_script(direction: Direction, amount: i128, seen: Observed, n: int)
    requires
        0 <= n <= 6,
    ensures
        Swap::start(direction, amount).after(seen.events().take(n)).pending() == (if !seen.open_through(
            amount,
            n,
        ) {
            Action::Finish(verdict(direction, amount, seen))
        } else if n == 6 {
            Action::Finish(Ok(()))
        } else {
            script(direction, amount)[n]
        }),
{
    lemma_faithful_prefixes(direction, amount, seen);
}

/// Authorization decides: where both assets are set and the caller has not
/// authorized the invocation, the swap fails with `AuthorizationDenied`,
/// whatever the reserve is, and no transfer is asked for.
pub proof fn law_denial_decides(direction: Direction, amount: i128, seen: Observed)
    requires
        seen.asset_in,
        seen.asset_out,
        !seen.authorized,
    ensures
        Swap::start(direction, amount).after(seen.events()).outcome() == Some(
            Err::<(), SwapError>(SwapError::AuthorizationDenied),
        ),
        never_moves_funds(Swap::start(direction, amount), seen.events()),
{
    law_verdict(direction, amount, seen);
    assert forall|n: int| 0 <= n <= seen.events().len() implies !(#[trigger] Swap::start(
        direction,
        amount,
    ).after(seen.events().take(n))).pending().moves_funds() by {
        law_script(direction, amount, seen, n);
    }
}

/// The reserve decides: where the swap gets as far as the reserve check, a
/// reserve below the amount fails it with `InsufficientReserve` and a ledger
/// that gives no balance with `LedgerQueryFailed`, both before any transfer
/// is asked for; any other reserve lets it go on to the pull-in.
pub proof fn law_reserve_decides(direction: Direction, amount: i128, seen: Observed)
    requires
        seen.asset_in,
        seen.asset_out,
        seen.authorized,
    ensures
        seen.reserve matches Some(balance) && balance < amount ==> Swap::start(
            direction,
            amount,
        ).after(seen.events()).outcome() == Some(
            Err::<(), SwapError>(SwapError::InsufficientReserve),
        ),
        seen.reserve is None ==> Swap::start(direction, amount).after(seen.events()).outcome()
            == Some(Err::<(), SwapError>(SwapError::LedgerQueryFailed)),
        !(seen.reserve matches Some(balance) && balance >= amount) ==> never_moves_funds(
            Swap::start(direction, amount),
            seen.events(),
        ),
        seen.reserve matches Some(balance) && balance >= amount ==> Swap::start(
            direction,
            amount,
        ).after(seen.events().take(4)).pending() == (Action::PullIn {
            asset: direction.input(),
            amount,
        }),
{
    law_verdict(direction, amount, seen);
    law_script(direction, amount, seen, 4);
    if !(seen.reserve matches Some(balance) && balance >= amount) {
        assert forall|n: int| 0 <= n <= seen.events().len() implies !(#[trigger] Swap::start(
            direction,
            amount,
        ).after(seen.events().take(n))).pending().moves_funds() by {
            law_script(direction, amount, seen, n);
        }
    }
}

impl Swap {
    /// What the contract gains of the asset in `slot` when `event` comes back
    /// in the present stage: the amount on a pull-in that went through, minus
    /// the amount on a push-out that went through, and nothing otherwise.
    pub open spec fn gain(self, event: Event, slot: DataKey) -> int {
        if self.stage is PullIn && event == Event::Transfer(true) && slot == self.direction.input() {
            self.amount as int
        } else if self.stage is PushOut && event == Event::Transfer(true) && slot
            == self.direction.output() {
            -(self.amount as int)
        } else {
            0
        }
    }

    /// What the contract has gained of the asset in `slot` over the events
    /// `events`, by the transfers that went through.
    pub open spec fn gained(self, events: Seq<Event>, slot: DataKey) -> int
        decreases events.len(),
    {
        if events.len() == 0 {
            0
        } else {
            self.gained(events.drop_last(), slot) + self.after(events.drop_last()).gain(
                events.last(),
                slot,
            )
        }
    }
}

/// What a run has gained after one more event.
pub proof fn lemma_gained_push(run: Swap, events: Seq<Event>, event: Event, slot: DataKey)
    ensures
        run.gained(events.push(event), slot) == run.gained(events, slot) + run.after(events).gain(
            event,
            slot,
        ),
{
    assert(events.push(event).drop_last() =~= events);
}

/// What a run has gained after the first `n + 1` of some events: what it had
/// gained after the first `n`, and what the next one brought.
pub proof fn lemma_gained_step(run: Swap, events: Seq<Event>, n: int, slot: DataKey)
    requires
        0 <= n < events.len(),
    ensures
        run.gained(events.take(n + 1), slot) == run.gained(events.take(n), slot) + run.after(
            events.take(n),
        ).gain(events[n], slot),
{
    assert(events.take(n + 1) =~= events.take(n).push(events[n]));
    lemma_gained_push(run, events.take(n), events[n], slot);
}

/// What a faithful run has gained of the asset in `slot`: the amount of the
/// input asset once the pull-in went through, minus the amount of the output
/// asset once the push-out went through too.
proof fn lemma_gained_faithfully(direction: Direction, amount: i128, seen: Observed, slot: DataKey)
    ensures
        Swap::start(direction, amount).gained(seen.events(), slot) == (if seen.open_through(
            amount,
            5,
        ) && slot == direction.input() {
            amount as int
        } else {
            0
        }) + (if seen.open_through(amount, 6) && slot == direction.output() {
            -(amount as int)
        } else {
            0
        }),
{
    let run = Swap::start(direction, amount);
    let events = seen.events();
    lemma_faithful_prefixes(direction, amount, seen);
    assert(run.gained(events.take(0), slot) == 0);
    lemma_gained_step(run, events, 0, slot);
    lemma_gained_step(run, events, 1, slot);
    lemma_gained_step(run, events, 2, slot);
    lemma_gained_step(run, events, 3, slot);
    lemma_gained_step(run, events, 4, slot);
    lemma_gained_step(run, events, 5, slot);
}

/// A completed swap: the contract has gained the amount of the input asset
/// and lost the amount of the output asset, and the reserve that it paid from
/// has not gone below zero.
pub proof fn law_completed_swap(direction: Direction, amount: i128, seen: Observed)
    requires
        verdict(direction, amount, seen) is Ok,
    ensures
        Swap::start(direction, amount).gained(seen.events(), direction.input()) == amount,
        Swap::start(direction, amount).gained(seen.events(), direction.output()) == -amount,
        seen.reserve is Some,
        seen.reserve->Some_0 - amount >= 0,
{
    lemma_gained_faithfully(direction, amount, seen, direction.input());
    lemma_gained_faithfully(direction, amount, seen, direction.output());
}

/// Atomicity, as far as the protocol itself can give it: a swap that fails
/// before the push-out (for a missing asset, a denied authorization, a
/// reserve that does not cover the amount, or a pull-in that the ledger
/// refused) has moved nothing.
///
/// A swap that fails at the push-out has the pull-in behind it. The protocol
/// does not undo it: it ends with `LedgerTransferFailed`, and whoever runs it
/// must give the whole invocation up, as the host does.
pub proof fn law_failed_swap_moves_nothing(
    direction: Direction,
    amount: i128,
    seen: Observed,
    slot: DataKey,
)
    requires
        verdict(direction, amount, seen) is Err,
        !seen.open_through(amount, 5),
    ensures
        Swap::start(direction, amount).gained(seen.events(), slot) == 0,
{
    lemma_gained_faithfully(direction, amount, seen, slot);
}

/// The one failure that leaves something behind: when the push-out is
/// refused, the swap fails with `LedgerTransferFailed` and the contract still
/// holds what it pulled in.
pub proof fn law_failed_push_out(direction: Direction, amount: i128, seen: Observed)
    requires
        seen.open_through(amount, 5),
        !seen.pushed,
    ensures
        Swap::start(direction, amount).after(seen.events()).outcome() == Some(
            Err::<(), SwapError>(SwapError::LedgerTransferFailed),
        ),
        Swap::start(direction, amount).gained(seen.events(), direction.input()) == amount,
        Swap::start(direction, amount).gained(seen.events(), direction.output()) == 0,
{
    law_verdict(direction, amount, seen);
    lemma_gained_faithfully(direction, amount, seen, direction.input());
    lemma_gained_faithfully(direction, amount, seen, direction.output());
}

} // verus!

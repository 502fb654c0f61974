//! The swap protocol as a sequence of decisions.
//!
//! A swap is a short, strictly ordered run: resolve the two legs, authenticate
//! the caller, delegate the one transfer that pulls funds in, verify the
//! reserve, pull in, push out. Each stage asks for one thing to be done
//! outside (an [`Action`]) and decides, from what came back (an [`Event`]),
//! where the run goes next. Nothing here touches a ledger: the run only says
//! what is to be asked of it, and in what order.

use crate::error::SwapError;
use crate::storage::DataKey;
use vstd::prelude::*;

verus! {

/// Which asset the caller sells.
#[derive(Clone, Copy, PartialEq, Eq, Structural, Debug)]
pub enum Direction {
    /// The caller sells asset A and is paid in asset B.
    SellA,
    /// The caller sells asset B and is paid in asset A.
    SellB,
}

impl Direction {
    /// The direction that the entry point's flag stands for.
    pub open spec fn of(is_sell_asset_a: bool) -> Direction {
        if is_sell_asset_a {
            Direction::SellA
        } else {
            Direction::SellB
        }
    }

    /// The slot of the asset that the contract takes in.
    pub open spec fn input(self) -> DataKey {
        match self {
            Direction::SellA => DataKey::AssetA,
            Direction::SellB => DataKey::AssetB,
        }
    }

    /// The slot of the asset that the contract pays out.
    pub open spec fn output(self) -> DataKey {
        self.input().other()
    }

    /// The direction that the entry point's flag stands for.
    pub fn from_flag(is_sell_asset_a: bool) -> (direction: Direction)
        ensures
            direction == Direction::of(is_sell_asset_a),
    {
        if is_sell_asset_a {
            Direction::SellA
        } else {
            Direction::SellB
        }
    }

    /// The slot of the asset that the contract takes in.
    pub fn asset_in(self) -> (key: DataKey)
        ensures
            key == self.input(),
    {
        match self {
            Direction::SellA => DataKey::AssetA,
            Direction::SellB => DataKey::AssetB,
        }
    }

    /// The slot of the asset that the contract pays out.
    pub fn asset_out(self) -> (key: DataKey)
        ensures
            key == self.output(),
    {
        match self {
            Direction::SellA => DataKey::AssetB,
            Direction::SellB => DataKey::AssetA,
        }
    }
}

/// Whether a reserve of `balance` covers a payout of `amount`: a plain
/// comparison, with no special case for an amount of zero or below.
pub open spec fn covers(balance: i128, amount: i128) -> bool {
    balance >= amount
}

/// Whether a reserve of `balance` covers a payout of `amount`.
pub fn reserve_covers(balance: i128, amount: i128) -> (enough: bool)
    ensures
        enough == covers(balance, amount),
{
    balance >= amount
}

/// Where a run stands.
#[derive(Clone, Copy, PartialEq, Eq, Structural, Debug)]
pub enum Stage {
    /// The two assets are being looked up in the registry.
    ResolveLegs,
    /// The caller's authorization is being checked.
    Authenticate,
    /// The pull-in transfer is being authorized on the contract's behalf.
    Delegate,
    /// The contract's reserve of the output asset is being read.
    VerifyReserve,
    /// The caller's funds are being pulled in.
    PullIn,
    /// The contract's funds are being pushed out.
    PushOut,
    /// Both transfers went through.
    Completed,
    /// The run was given up.
    Aborted(SwapError),
}

/// What a run asks to be done next.
#[derive(Clone, Copy, PartialEq, Eq, Debug)]
pub enum Action {
    /// Look both slots up, the input asset's first.
    ResolveLegs { asset_in: DataKey, asset_out: DataKey },
    /// Require that the caller has authorized this invocation.
    Authenticate,
    /// Allow the ledger, for this invocation only, the one transfer of
    /// `amount` of `asset` from the caller to the contract.
    Delegate { asset: DataKey, amount: i128 },
    /// Read what the contract itself holds of `asset`.
    ReadReserve { asset: DataKey },
    /// Transfer `amount` of `asset` from the caller to the contract.
    PullIn { asset: DataKey, amount: i128 },
    /// Transfer `amount` of `asset` from the contract to the caller.
    PushOut { asset: DataKey, amount: i128 },
    /// Nothing more: the run has ended with this result.
    Finish(Result<(), SwapError>),
}

/// What came back from outside.
#[derive(Clone, Copy, PartialEq, Eq, Structural, Debug)]
pub enum Event {
    /// Whether the input asset's slot and the output asset's slot were set.
    Legs { asset_in: bool, asset_out: bool },
    /// Whether the caller has authorized the invocation.
    Authorization(bool),
    /// The pull-in transfer has been authorized on the contract's behalf.
    Delegated,
    /// What the contract holds of the output asset.
    Reserve(i128),
    /// The ledger did not say what the contract holds of the output asset.
    ReserveUnknown,
    /// Whether the ledger carried the transfer out.
    Transfer(bool),
}

/// One run of the swap protocol.
#[derive(Clone, Copy, PartialEq, Eq, Structural, Debug)]
pub struct Swap {
    pub direction: Direction,
    pub amount: i128,
    pub stage: Stage,
}

impl Swap {
    /// The run at its beginning.
    pub open spec fn start(direction: Direction, amount: i128) -> Swap {
        Swap { direction, amount, stage: Stage::ResolveLegs }
    }

    /// The run once its legs are resolved, given whether the input asset's
    /// slot and the output asset's slot were set.
    pub open spec fn resolved(
        direction: Direction,
        amount: i128,
        asset_in: bool,
        asset_out: bool,
    ) -> Swap {
        Swap::start(direction, amount).next(Event::Legs { asset_in, asset_out })
    }

    /// What the run asks for in its present stage.
    pub open spec fn pending(self) -> Action {
        match self.stage {
            Stage::ResolveLegs => Action::ResolveLegs {
                asset_in: self.direction.input(),
                asset_out: self.direction.output(),
            },
            Stage::Authenticate => Action::Authenticate,
            Stage::Delegate => Action::Delegate {
                asset: self.direction.input(),
                amount: self.amount,
            },
            Stage::VerifyReserve => Action::ReadReserve { asset: self.direction.output() },
            Stage::PullIn => Action::PullIn { asset: self.direction.input(), amount: self.amount },
            Stage::PushOut => Action::PushOut {
                asset: self.direction.output(),
                amount: self.amount,
            },
            Stage::Completed => Action::Finish(Ok(())),
            Stage::Aborted(error) => Action::Finish(Err(error)),
        }
    }

    /// The stage that follows when `event` comes back in the present stage.
    /// An event that does not answer what the stage asked for changes nothing,
    /// and nothing changes a run that has ended.
    pub open spec fn next_stage(self, event: Event) -> Stage {
        match (self.stage, event) {
            (Stage::ResolveLegs, Event::Legs { asset_in, asset_out }) => {
                if !asset_in {
                    Stage::Aborted(SwapError::ConfigurationMissing(self.direction.input()))
                } else if !asset_out {
                    Stage::Aborted(SwapError::ConfigurationMissing(self.direction.output()))
                } else {
                    Stage::Authenticate
                }
            },
            (Stage::Authenticate, Event::Authorization(granted)) => {
                if granted {
                    Stage::Delegate
                } else {
                    Stage::Aborted(SwapError::AuthorizationDenied)
                }
            },
            (Stage::Delegate, Event::Delegated) => Stage::VerifyReserve,
            (Stage::VerifyReserve, Event::Reserve(balance)) => {
                if covers(balance, self.amount) {
                    Stage::PullIn
                } else {
                    Stage::Aborted(SwapError::InsufficientReserve)
                }
            },
            (Stage::VerifyReserve, Event::ReserveUnknown) => Stage::Aborted(
                SwapError::LedgerQueryFailed,
            ),
            (Stage::PullIn, Event::Transfer(moved)) => {
                if moved {
                    Stage::PushOut
                } else {
                    Stage::Aborted(SwapError::LedgerTransferFailed)
                }
            },
            (Stage::PushOut, Event::Transfer(moved)) => {
                if moved {
                    Stage::Completed
                } else {
                    Stage::Aborted(SwapError::LedgerTransferFailed)
                }
            },
            (stage, _) => stage,
        }
    }

    /// The run after `event`.
    pub open spec fn next(self, event: Event) -> Swap {
        Swap { stage: self.next_stage(event), ..self }
    }

    /// How the run has ended, if it has.
    pub open spec fn outcome(self) -> Option<Result<(), SwapError>> {
        match self.stage {
            Stage::Completed => Some(Ok(())),
            Stage::Aborted(error) => Some(Err(error)),
            _ => None,
        }
    }

    /// The run after the events `events`, in order.
    pub open spec fn after(self, events: Seq<Event>) -> Swap
        decreases events.len(),
    {
        if events.len() == 0 {
            self
        } else {
            self.after(events.drop_last()).next(events.last())
        }
    }

    /// How many events the run can still take before it has ended.
    pub open spec fn remaining(self) -> nat {
        match self.stage {
            Stage::ResolveLegs => 6,
            Stage::Authenticate => 5,
            Stage::Delegate => 4,
            Stage::VerifyReserve => 3,
            Stage::PullIn => 2,
            Stage::PushOut => 1,
            Stage::Completed => 0,
            Stage::Aborted(_) => 0,
        }
    }

    /// Whether `event` is an answer to what the run asks for.
    pub open spec fn answers(self, event: Event) -> bool {
        match (self.stage, event) {
            (Stage::ResolveLegs, Event::Legs { .. }) => true,
            (Stage::Authenticate, Event::Authorization(_)) => true,
            (Stage::Delegate, Event::Delegated) => true,
            (Stage::VerifyReserve, Event::Reserve(_)) => true,
            (Stage::VerifyReserve, Event::ReserveUnknown) => true,
            (Stage::PullIn, Event::Transfer(_)) => true,
            (Stage::PushOut, Event::Transfer(_)) => true,
            _ => false,
        }
    }

    /// A new run for the entry point's arguments.
    pub fn new(is_sell_asset_a: bool, amount: i128) -> (run: Swap)
        ensures
            run == Swap::start(Direction::of(is_sell_asset_a), amount),
    {
        Swap { direction: Direction::from_flag(is_sell_asset_a), amount, stage: Stage::ResolveLegs }
    }

    /// What is to be done next.
    pub fn action(&self) -> (action: Action)
        ensures
            action == self.pending(),
    {
        match self.stage {
            Stage::ResolveLegs => Action::ResolveLegs {
                asset_in: self.direction.asset_in(),
                asset_out: self.direction.asset_out(),
            },
            Stage::Authenticate => Action::Authenticate,
            Stage::Delegate => Action::Delegate {
                asset: self.direction.asset_in(),
                amount: self.amount,
            },
            Stage::VerifyReserve => Action::ReadReserve { asset: self.direction.asset_out() },
            Stage::PullIn => Action::PullIn {
                asset: self.direction.asset_in(),
                amount: self.amount,
            },
            Stage::PushOut => Action::PushOut {
                asset: self.direction.asset_out(),
                amount: self.amount,
            },
            Stage::Completed => Action::Finish(Ok(())),
            Stage::Aborted(error) => Action::Finish(Err(error)),
        }
    }

    /// Takes what came back from outside and moves the run on.
    pub fn advance(self, event: Event) -> (run: Swap)
        ensures
            run == self.next(event),
            self.answers(event) ==> run.remaining() < self.remaining(),
    {
        let stage = match (self.stage, event) {
            (Stage::ResolveLegs, Event::Legs { asset_in, asset_out }) => {
                if !asset_in {
                    Stage::Aborted(SwapError::ConfigurationMissing(self.direction.asset_in()))
                } else if !asset_out {
                    Stage::Aborted(SwapError::ConfigurationMissing(self.direction.asset_out()))
                } else {
                    Stage::Authenticate
                }
            },
            (Stage::Authenticate, Event::Authorization(true)) => Stage::Delegate,
            (Stage::Authenticate, Event::Authorization(false)) => Stage::Aborted(
                SwapError::AuthorizationDenied,
            ),
            (Stage::Delegate, Event::Delegated) => Stage::VerifyReserve,
            (Stage::VerifyReserve, Event::Reserve(balance)) => {
                if reserve_covers(balance, self.amount) {
                    Stage::PullIn
                } else {
                    Stage::Aborted(SwapError::InsufficientReserve)
                }
            },
            (Stage::VerifyReserve, Event::ReserveUnknown) => Stage::Aborted(
                SwapError::LedgerQueryFailed,
            ),
            (Stage::PullIn, Event::Transfer(true)) => Stage::PushOut,
            (Stage::PushOut, Event::Transfer(true)) => Stage::Completed,
            (Stage::PullIn, Event::Transfer(false)) | (Stage::PushOut, Event::Transfer(false)) => {
                Stage::Aborted(SwapError::LedgerTransferFailed)
            },
            (stage, _) => stage,
        };
        Swap { direction: self.direction, amount: self.amount, stage }
    }

    /// How the run has ended; `None` while it is under way.
    pub fn result(&self) -> (outcome: Option<Result<(), SwapError>>)
        ensures
            outcome == self.outcome(),
    {
        match self.stage {
            Stage::Completed => Some(Ok(())),
            Stage::Aborted(error) => Some(Err(error)),
            _ => None,
        }
    }
}

impl Action {
    /// Whether the action asks the ledger to move funds.
    pub open spec fn moves_funds(self) -> bool {
        self is PullIn || self is PushOut
    }
}

/// What one faithful run observes: one answer to each of the six things that
/// a swap asks for, in the order in which it asks.
pub struct Observed {
    /// Whether the input asset's slot was set.
    pub asset_in: bool,
    /// Whether the output asset's slot was set.
    pub asset_out: bool,
    /// Whether the caller had authorized the invocation.
    pub authorized: bool,
    /// What the contract held of the output asset, if the ledger said.
    pub reserve: Option<i128>,
    /// Whether the ledger carried the pull-in out.
    pub pulled: bool,
    /// Whether the ledger carried the push-out out.
    pub pushed: bool,
}

impl Observed {
    /// The observations as the events of a run.
    pub open spec fn events(self) -> Seq<Event> {
        seq![
            Event::Legs { asset_in: self.asset_in, asset_out: self.asset_out },
            Event::Authorization(self.authorized),
            Event::Delegated,
            match self.reserve {
                Some(balance) => Event::Reserve(balance),
                None => Event::ReserveUnknown,
            },
            Event::Transfer(self.pulled),
            Event::Transfer(self.pushed),
        ]
    }
}

/// The result of a swap, read off what it observes: the first gate that does
/// not open decides, and what lies behind it plays no part.
pub open spec fn verdict(direction: Direction, amount: i128, seen: Observed) -> Result<
    (),
    SwapError,
> {
    if !seen.asset_in {
        Err(SwapError::ConfigurationMissing(direction.input()))
    } else if !seen.asset_out {
        Err(SwapError::ConfigurationMissing(direction.output()))
    } else if !seen.authorized {
        Err(SwapError::AuthorizationDenied)
    } else if seen.reserve is None {
        Err(SwapError::LedgerQueryFailed)
    } else if !covers(seen.reserve->Some_0, amount) {
        Err(SwapError::InsufficientReserve)
    } else if !seen.pulled || !seen.pushed {
        Err(SwapError::LedgerTransferFailed)
    } else {
        Ok(())
    }
}

} // verus!

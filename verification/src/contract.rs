//! The contract's entry points, run against the Soroban host.
//!
//! A swap needs one thing that only the host's caller can ask for: whether
//! the account has authorized the invocation. The swap therefore comes in two
//! halves, [`SimpleSwap::begin`] up to that question and
//! [`SimpleSwap::finish`] from its answer on.

use crate::error::SwapError;
use crate::laws::{law_script, lemma_faithful_prefixes};
use crate::ledger::{perform, request};
use crate::protocol::{verdict, Action, Direction, Event, Observed, Stage, Swap};
use crate::storage::{DataKey, Registry};
use soroban_sdk::{Address, Env};
use vstd::pervasive::unreached;
use vstd::prelude::*;

verus! {

/// The contract's interface.
pub trait SimpleSwapTrait {
    /// Binds the contract to its two assets. It does so once: it reads the
    /// registry from the host's storage, constructs it, and writes it back;
    /// a registry that holds an asset in either slot is left as it is, and
    /// the call fails with `AlreadyConstructed`, its only failure.
    fn __constructor(env: Env, asset_a: Address, asset_b: Address) -> (done: Result<(), SwapError>)
        ensures
            done is Err ==> done == Err::<(), SwapError>(SwapError::AlreadyConstructed),
    ;

    /// Swaps `amount` of the asset that `account` sells for the same amount
    /// of the other, given whether the account has authorized the
    /// invocation. That answer is the caller's to get from the host; where
    /// it can only be had at the moment the swap asks for it, the two halves
    /// [`SimpleSwap::begin`] and [`SimpleSwap::finish`] are called instead.
    /// The result is the verdict on that answer and on what the host
    /// answered, step by step.
    ///
    /// Nothing is undone here. When the push-out is refused, the result is
    /// `LedgerTransferFailed` and the pull-in is still in place: on any
    /// error the caller must end the invocation, so that the host undoes
    /// what the invocation did.
    fn swap(
        env: Env,
        is_sell_asset_a: bool,
        account: Address,
        amount: i128,
        authorized: bool,
    ) -> (done: Result<(), SwapError>)
        ensures
            exists|seen: Observed|
                seen.authorized == authorized && done == #[trigger] verdict(
                    Direction::of(is_sell_asset_a),
                    amount,
                    seen,
                ),
    ;
}

/// The swap contract.
pub struct SimpleSwap;

/// A swap between its two halves: the legs are resolved, and the run either
/// waits for the answer on the account's authorization or has been given up
/// for a missing asset.
pub struct Session {
    run: Swap,
    registry: Registry,
}

impl Session {
    #[verifier::type_invariant]
    spec fn well_formed(self) -> bool {
        &&& self.run.stage is Authenticate || self.run.outcome() is Some
        &&& self.run.stage is Authenticate ==> self.registry.slot(DataKey::AssetA) is Some
            && self.registry.slot(DataKey::AssetB) is Some
    }

    /// The run as it stands.
    pub closed spec fn state(self) -> Swap {
        self.run
    }

    /// The registry as it was read when the legs were resolved: the assets
    /// that the second half trades on.
    pub closed spec fn registry(self) -> Registry {
        self.registry
    }

    /// What the run asks for: the authorization, or nothing more.
    pub fn action(&self) -> (action: Action)
        ensures
            action == self.state().pending(),
    {
        self.run.action()
    }
}

impl SimpleSwap {
    /// The first half of a swap: reads the registry from the host's storage
    /// and resolves the two legs on it.
    pub fn begin(env: &Env, is_sell_asset_a: bool, amount: i128) -> (session: Session)
        ensures
            session.state() == Swap::resolved(
                Direction::of(is_sell_asset_a),
                amount,
                session.registry().slot(Direction::of(is_sell_asset_a).input()) is Some,
                session.registry().slot(Direction::of(is_sell_asset_a).output()) is Some,
            ),
    {
        let run = Swap::new(is_sell_asset_a, amount);
        let registry = Registry::load(env);
        let (found_in, found_out) = match run.action() {
            Action::ResolveLegs { asset_in, asset_out } => (
                registry.has(asset_in),
                registry.has(asset_out),
            ),
            _ => unreached(),
        };
        let run = run.advance(Event::Legs { asset_in: found_in, asset_out: found_out });
        assert(run == Swap::resolved(Direction::of(is_sell_asset_a), amount, found_in, found_out));
        Session { run, registry }
    }

    /// The second half of a swap: takes the answer on the account's
    /// authorization and runs the swap to its end. A session that was given
    /// up for a missing asset ends with that error, whatever the answer.
    ///
    /// Nothing is undone here. When the push-out is refused, the result is
    /// `LedgerTransferFailed` and the pull-in is still in place: on any
    /// error the caller must end the invocation, so that the host undoes
    /// what the invocation did.
    pub fn finish(env: &Env, session: Session, account: Address, authorized: bool) -> (done: Result<
        (),
        SwapError,
    >)
        ensures
            session.state().outcome() matches Some(ended) ==> done == ended,
            session.state().outcome() is None ==> exists|seen: Observed|
                seen.asset_in && seen.asset_out && seen.authorized == authorized && done
                    == #[trigger] verdict(session.state().direction, session.state().amount, seen),
    {
        proof {
            use_type_invariant(&session);
        }
        let Session { run: first, registry } = session;
        let mut run = first;
        let contract = env.current_contract_address();
        let ghost direction = first.direction;
        let ghost amount = first.amount;
        let ghost mut seen = Observed {
            asset_in: true,
            asset_out: true,
            authorized,
            reserve: None,
            pulled: false,
            pushed: false,
        };
        let ghost mut answered: int = 1;
        if run.result().is_none() {
            proof {
                lemma_faithful_prefixes(direction, amount, seen);
            }
        }
        loop
            invariant
                1 <= answered <= 6,
                first == session.state(),
                direction == first.direction,
                amount == first.amount,
                seen.asset_in,
                seen.asset_out,
                seen.authorized == authorized,
                first.outcome() is Some ==> run == first,
                first.outcome() is None ==> run == Swap::start(direction, amount).after(
                    seen.events().take(answered),
                ),
                first.outcome() is None && run.outcome() is None ==> answered + run.remaining()
                    == 6,
                registry.slot(DataKey::AssetA) is Some || first.outcome() is Some,
                registry.slot(DataKey::AssetB) is Some || first.outcome() is Some,
            decreases run.remaining(),
        {
            proof {
                if first.outcome() is None {
                    law_script(direction, amount, seen, answered);
                }
            }
            let action = run.action();
            let event = match action {
                Action::Finish(result) => {
                    return result;
                },
                Action::Authenticate => Event::Authorization(authorized),
                _ => match request(action, &registry, &account, &contract) {
                    Some(call) => perform(env, &call),
                    None => unreached(),
                },
            };
            proof {
                let before = seen;
                seen =
                match event {
                    Event::Reserve(held) => Observed { reserve: Some(held), ..seen },
                    Event::ReserveUnknown => Observed { reserve: None, ..seen },
                    Event::Transfer(moved) => if answered == 4 {
                        Observed { pulled: moved, ..seen }
                    } else {
                        Observed { pushed: moved, ..seen }
                    },
                    _ => seen,
                };
                lemma_faithful_prefixes(direction, amount, before);
                lemma_faithful_prefixes(direction, amount, seen);
                assert(seen.events().take(answered) =~= before.events().take(answered));
                assert(seen.events()[answered] == event);
                answered = answered + 1;
            }
            run = run.advance(event);
        }
    }
}

impl SimpleSwapTrait for SimpleSwap {
    fn __constructor(env: Env, asset_a: Address, asset_b: Address) -> (done: Result<(), SwapError>) {
        let found = Registry::load(&env);
        match found.construct(asset_a, asset_b) {
            Ok(bound) => {
                bound.store(&env);
                Ok(())
            },
            Err(error) => Err(error),
        }
    }

    fn swap(
        env: Env,
        is_sell_asset_a: bool,
        account: Address,
        amount: i128,
        authorized: bool,
    ) -> (done: Result<(), SwapError>) {
        let session = SimpleSwap::begin(&env, is_sell_asset_a, amount);
        let ghost begun = session.state();
        let ghost found = session.registry();
        let done = SimpleSwap::finish(&env, session, account, authorized);
        proof {
            let direction = Direction::of(is_sell_asset_a);
            if begun.outcome() is Some {
                let seen = Observed {
                    asset_in: found.slot(direction.input()) is Some,
                    asset_out: found.slot(direction.output()) is Some,
                    authorized,
                    reserve: None,
                    pulled: false,
                    pushed: false,
                };
                assert(done == verdict(direction, amount, seen));
            }
        }
        done
    }
}

} // verus!

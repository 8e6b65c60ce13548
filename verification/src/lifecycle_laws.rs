//! What holds of the vault lifecycle over whole histories of signals.

use crate::app_state::{LifecycleState, Operation, OperationToken, Phase, Signal};
use vstd::prelude::*;

verus! {

/// Every signal keeps the bond between phase, generation and active operation.
pub proof fn law_every_signal_keeps_the_state_well_formed(state: LifecycleState, signal: Signal)
    requires
        state.wf(),
    ensures
        state.next(signal).wf(),
{
}

/// Every history of signals, from a well-formed state, ends in one.
pub proof fn law_every_history_keeps_the_state_well_formed(
    state: LifecycleState,
    signals: Seq<Signal>,
)
    requires
        state.wf(),
    ensures
        state.run(signals).wf(),
    decreases signals.len(),
{
    if signals.len() > 0 {
        law_every_history_keeps_the_state_well_formed(state, signals.drop_last());
    }
}

/// A rejected signal changes nothing and hands out nothing.
pub proof fn law_rejected_signals_change_nothing(state: LifecycleState, signal: Signal)
    requires
        !state.accepts(signal),
    ensures
        state.next(signal) == state,
        state.issues(signal) is None,
{
}

/// The generation never goes back, whatever happens.
pub proof fn law_generation_never_decreases(state: LifecycleState, signals: Seq<Signal>)
    ensures
        state.generation <= state.run(signals).generation,
    decreases signals.len(),
{
    if signals.len() > 0 {
        law_generation_never_decreases(state, signals.drop_last());
    }
}

/// With the counter exhausted no operation starts any more.
pub proof fn law_exhausted_generation_issues_nothing(state: LifecycleState, signal: Signal)
    requires
        state.generation == u64::MAX,
    ensures
        state.issues(signal) is None,
        !state.accepts(Signal::BeginCreate),
        !state.accepts(Signal::BeginUnlock),
{
}

/// The state after the first `n` signals of a history.
pub open spec fn after(state: LifecycleState, signals: Seq<Signal>, n: int) -> LifecycleState {
    state.run(signals.take(n))
}

proof fn lemma_after_step(state: LifecycleState, signals: Seq<Signal>, n: int)
    requires
        0 <= n < signals.len(),
    ensures
        after(state, signals, n + 1) == after(state, signals, n).next(signals[n]),
{
    assert(signals.take(n + 1).drop_last() =~= signals.take(n));
    assert(signals.take(n + 1).last() == signals[n]);
}

proof fn lemma_generation_grows_along(
    state: LifecycleState,
    signals: Seq<Signal>,
    from: int,
    to: int,
)
    requires
        0 <= from <= to <= signals.len(),
    ensures
        after(state, signals, from).generation <= after(state, signals, to).generation,
    decreases to - from,
{
    if from < to {
        lemma_generation_grows_along(state, signals, from, to - 1);
        lemma_after_step(state, signals, to - 1);
    }
}

/// Tokens are unique: of two operations started in one history, the later one
/// has the token of the larger generation.
pub proof fn law_tokens_are_never_reused(
    state: LifecycleState,
    signals: Seq<Signal>,
    earlier: int,
    later: int,
)
    requires
        0 <= earlier < later < signals.len(),
        after(state, signals, earlier).issues(signals[earlier]) is Some,
        after(state, signals, later).issues(signals[later]) is Some,
    ensures
        after(state, signals, earlier).issues(signals[earlier])->0.generation < after(
            state,
            signals,
            later,
        ).issues(signals[later])->0.generation,
{
    lemma_after_step(state, signals, earlier);
    lemma_generation_grows_along(state, signals, earlier + 1, later);
}

/// A token whose operation is over, or was overtaken, is stale for good: no
/// later history makes it the active one again, and every completion that
/// presents it is rejected.
pub proof fn law_a_stale_token_stays_stale(
    state: LifecycleState,
    token: OperationToken,
    signals: Seq<Signal>,
)
    requires
        state.active != Some(token),
        token.generation <= state.generation,
    ensures
        state.run(signals).active != Some(token),
        !state.run(signals).accepts(Signal::OperationSucceeded(token)),
        !state.run(signals).accepts(Signal::OperationFailed(token)),
    decreases signals.len(),
{
    if signals.len() > 0 {
        law_a_stale_token_stays_stale(state, token, signals.drop_last());
        law_generation_never_decreases(state, signals.drop_last());
    }
}

/// Locking invalidates every outstanding operation: whatever happens afterwards,
/// the completion of any token handed out before is rejected.
pub proof fn law_lock_invalidates_every_outstanding_operation(
    state: LifecycleState,
    token: OperationToken,
    signals: Seq<Signal>,
)
    requires
        state.wf(),
        token.generation <= state.generation,
    ensures
        !state.next(Signal::Lock).run(signals).accepts(Signal::OperationSucceeded(token)),
        !state.next(Signal::Lock).run(signals).accepts(Signal::OperationFailed(token)),
{
    law_a_stale_token_stays_stale(state.next(Signal::Lock), token, signals);
}

/// Disposing invalidates every outstanding operation as locking does.
pub proof fn law_dispose_invalidates_every_outstanding_operation(
    state: LifecycleState,
    token: OperationToken,
    signals: Seq<Signal>,
)
    requires
        state.wf(),
        token.generation <= state.generation,
    ensures
        !state.next(Signal::Dispose).run(signals).accepts(Signal::OperationSucceeded(token)),
        !state.next(Signal::Dispose).run(signals).accepts(Signal::OperationFailed(token)),
{
    law_a_stale_token_stays_stale(state.next(Signal::Dispose), token, signals);
}

/// Along any history: a token handed out before a lock or a disposal cannot
/// complete after it, and so cannot open the vault.
pub proof fn law_no_completion_crosses_a_lock(
    state: LifecycleState,
    signals: Seq<Signal>,
    begun: int,
    locked: int,
    completed: int,
)
    requires
        state.wf(),
        0 <= begun < locked < completed <= signals.len(),
        after(state, signals, begun).issues(signals[begun]) is Some,
        signals[locked] == Signal::Lock || signals[locked] == Signal::Dispose,
    ensures
        ({
            let token = after(state, signals, begun).issues(signals[begun])->0;
            &&& !after(state, signals, completed).accepts(Signal::OperationSucceeded(token))
            &&& !after(state, signals, completed).accepts(Signal::OperationFailed(token))
        }),
    decreases completed - locked,
{
    let token = after(state, signals, begun).issues(signals[begun])->0;
    lemma_after_step(state, signals, begun);
    lemma_generation_grows_along(state, signals, begun + 1, completed - 1);
    lemma_after_step(state, signals, completed - 1);
    if completed == locked + 1 {
        law_every_history_keeps_the_state_well_formed(state, signals.take(locked));
    } else {
        law_no_completion_crosses_a_lock(state, signals, begun, locked, completed - 1);
        law_every_history_keeps_the_state_well_formed(state, signals.take(completed - 1));
    }
}

/// A completion is accepted at most once.
pub proof fn law_a_completion_is_accepted_once(
    state: LifecycleState,
    token: OperationToken,
    succeeded: bool,
    signals: Seq<Signal>,
)
    requires
        state.wf(),
        state.active == Some(token),
    ensures
        ({
            let completed = state.next(
                if succeeded {
                    Signal::OperationSucceeded(token)
                } else {
                    Signal::OperationFailed(token)
                },
            ).run(signals);
            &&& !completed.accepts(Signal::OperationSucceeded(token))
            &&& !completed.accepts(Signal::OperationFailed(token))
        }),
{
    let signal = if succeeded {
        Signal::OperationSucceeded(token)
    } else {
        Signal::OperationFailed(token)
    };
    law_a_stale_token_stays_stale(state.next(signal), token, signals);
}

/// The only way into `Unlocked` is the successful completion of the operation in
/// flight: no stale completion, and no other signal, opens the vault.
pub proof fn law_only_the_active_operation_opens_the_vault(state: LifecycleState, signal: Signal)
    requires
        state.phase != Phase::Unlocked,
        state.next(signal).phase == Phase::Unlocked,
    ensures
        state.active is Some,
        signal == Signal::OperationSucceeded(state.active->0),
{
}

/// Dispose is absorbing: after it every signal of every history is rejected and
/// the state stands still.
pub proof fn law_dispose_is_absorbing(
    state: LifecycleState,
    signals: Seq<Signal>,
    signal: Signal,
)
    requires
        state.wf(),
    ensures
        state.next(Signal::Dispose).phase == Phase::Disposed,
        state.next(Signal::Dispose).run(signals) == state.next(Signal::Dispose),
        !state.next(Signal::Dispose).run(signals).accepts(signal),
    decreases signals.len(),
{
    if signals.len() > 0 {
        law_dispose_is_absorbing(state, signals.drop_last(), signals.last());
    }
}

/// A vault that was locked is never again open under the generation that it was
/// open in, not even once the counter is exhausted.
pub proof fn law_a_locked_generation_is_never_owned_again(
    state: LifecycleState,
    signals: Seq<Signal>,
)
    requires
        state.wf(),
        state.phase == Phase::Unlocked,
    ensures
        !state.next(Signal::Lock).run(signals).owns(state.generation),
{
    lemma_generation_left_behind(state.next(Signal::Lock), state.generation, signals);
}

spec fn left_behind(state: LifecycleState, generation: nat) -> bool {
    ||| state.generation > generation
    ||| {
        &&& state.generation == u64::MAX
        &&& state.active is None
        &&& state.phase != Phase::Unlocked
    }
}

proof fn lemma_generation_left_behind(
    state: LifecycleState,
    generation: nat,
    signals: Seq<Signal>,
)
    requires
        left_behind(state, generation),
    ensures
        left_behind(state.run(signals), generation),
    decreases signals.len(),
{
    if signals.len() > 0 {
        lemma_generation_left_behind(state, generation, signals.drop_last());
    }
}

/// What was found on disk decides the first phase, once: without a vault it is
/// setup, with one it is locked, and in any other phase there is nothing to decide.
pub proof fn law_initializing_decides_the_first_phase(state: LifecycleState)
    ensures
        ({
            let empty = state.next(Signal::InitializedEmpty);
            let vault = state.next(Signal::InitializedVault);
            &&& state.accepts(Signal::InitializedEmpty) <==> state.phase == Phase::Loading
            &&& state.accepts(Signal::InitializedVault) <==> state.phase == Phase::Loading
            &&& state.phase == Phase::Loading ==> empty.phase == Phase::Setup && vault.phase
                == Phase::Locked
            &&& state.phase != Phase::Loading ==> empty == state && vault == state
            &&& empty.generation == state.generation && empty.active == state.active
            &&& vault.generation == state.generation && vault.active == state.active
            &&& state.issues(Signal::InitializedEmpty) is None
            &&& state.issues(Signal::InitializedVault) is None
        }),
{
}

/// A vault is created from setup and unlocked while locked: as long as the counter
/// has a value left the operation starts, under a token of the next generation that
/// names it; from anywhere else, and with the counter exhausted, nothing happens.
pub proof fn law_an_operation_starts_where_it_may(state: LifecycleState)
    ensures
        ({
            let creating = state.next(Signal::BeginCreate);
            let may = state.phase == Phase::Setup && state.generation < u64::MAX;
            &&& state.accepts(Signal::BeginCreate) <==> may
            &&& state.issues(Signal::BeginCreate) is Some <==> may
            &&& may ==> {
                &&& state.issues(Signal::BeginCreate)->0.generation == state.generation + 1
                &&& state.issues(Signal::BeginCreate)->0.operation == Operation::Create
                &&& creating.phase == Phase::Creating
                &&& creating.generation == state.generation + 1
                &&& creating.active == state.issues(Signal::BeginCreate)
            }
            &&& !may ==> creating == state
        }),
        ({
            let unlocking = state.next(Signal::BeginUnlock);
            let may = state.phase == Phase::Locked && state.generation < u64::MAX;
            &&& state.accepts(Signal::BeginUnlock) <==> may
            &&& state.issues(Signal::BeginUnlock) is Some <==> may
            &&& may ==> {
                &&& state.issues(Signal::BeginUnlock)->0.generation == state.generation + 1
                &&& state.issues(Signal::BeginUnlock)->0.operation == Operation::Unlock
                &&& unlocking.phase == Phase::Unlocking
                &&& unlocking.generation == state.generation + 1
                &&& unlocking.active == state.issues(Signal::BeginUnlock)
            }
            &&& !may ==> unlocking == state
        }),
{
}

/// The operation in flight completes, once its token comes back: success opens the
/// vault, failure leads back to where the operation started, and either way nothing
/// is in flight any more. A token of anything else changes nothing.
pub proof fn law_the_operation_in_flight_completes(state: LifecycleState, token: OperationToken)
    requires
        state.wf(),
    ensures
        ({
            let done = state.next(Signal::OperationSucceeded(token));
            let failed = state.next(Signal::OperationFailed(token));
            &&& state.accepts(Signal::OperationSucceeded(token)) <==> state.active == Some(token)
            &&& state.accepts(Signal::OperationFailed(token)) <==> state.active == Some(token)
            &&& state.active == Some(token) ==> {
                &&& done.phase == Phase::Unlocked
                &&& failed.phase == if token.operation == Operation::Create {
                    Phase::Setup
                } else {
                    Phase::Locked
                }
                &&& done.active is None && failed.active is None
            }
            &&& state.active != Some(token) ==> done == state && failed == state
            &&& done.generation == state.generation && failed.generation == state.generation
            &&& state.issues(Signal::OperationSucceeded(token)) is None
            &&& state.issues(Signal::OperationFailed(token)) is None
        }),
{
}

/// Locking always locks a vault that exists, whatever it is doing, and leaves one
/// that does not exist yet where it is; disposing always disposes. Both leave
/// nothing in flight and move the generation on, as far as the counter goes, and
/// only a disposed vault refuses them.
pub proof fn law_locking_and_disposing_always_work(state: LifecycleState)
    requires
        state.wf(),
    ensures
        ({
            let locked = state.next(Signal::Lock);
            let disposed = state.next(Signal::Dispose);
            &&& state.accepts(Signal::Lock) <==> state.phase != Phase::Disposed
            &&& state.accepts(Signal::Dispose) <==> state.phase != Phase::Disposed
            &&& locked.phase == if state.phase == Phase::Loading || state.phase == Phase::Setup
                || state.phase == Phase::Disposed {
                state.phase
            } else {
                Phase::Locked
            }
            &&& disposed.phase == Phase::Disposed
            &&& locked.active is None && disposed.active is None
            &&& state.phase != Phase::Disposed && state.generation < u64::MAX ==> {
                &&& locked.generation == state.generation + 1
                &&& disposed.generation == state.generation + 1
            }
            &&& state.phase == Phase::Disposed || state.generation == u64::MAX ==> {
                &&& locked.generation == state.generation
                &&& disposed.generation == state.generation
            }
            &&& state.issues(Signal::Lock) is None
            &&& state.issues(Signal::Dispose) is None
        }),
{
}

/// A lifecycle begins before anything is known, at the first generation and with
/// nothing in flight.
pub proof fn law_a_lifecycle_begins_with_nothing()
    ensures
        LifecycleState::initial().phase == Phase::Loading,
        LifecycleState::initial().generation == 0,
        LifecycleState::initial().active is None,
        LifecycleState::initial().wf(),
{
}

/// A well-formed lifecycle has an operation in flight exactly while it is creating
/// or unlocking, and then the operation of that phase, of this generation.
pub proof fn law_the_phase_names_the_operation(state: LifecycleState)
    requires
        state.wf(),
    ensures
        state.active is Some <==> state.phase == Phase::Creating || state.phase
            == Phase::Unlocking,
        state.phase == Phase::Creating ==> state.active->0.operation == Operation::Create,
        state.phase == Phase::Unlocking ==> state.active->0.operation == Operation::Unlock,
        state.active is Some ==> state.active->0.generation == state.generation,
{
}

} // verus!

//! Total vault lifecycle state machine.
//!
//! Illegal events are rejected without mutating state. Create and unlock issue
//! generation-stamped tokens; lock and dispose advance the generation, so a
//! completion from an invalidated operation can never reopen the vault.

use vstd::prelude::*;

verus! {

/// Where the vault stands between program start and program end.
#[derive(Clone, Copy, Debug, PartialEq, Eq, Hash, Structural)]
pub enum Phase {
    Loading,
    Setup,
    Creating,
    Locked,
    Unlocking,
    Unlocked,
    Disposed,
}

/// A long-running operation that ends in a completion signal.
#[derive(Clone, Copy, Debug, PartialEq, Eq, Hash, Structural)]
pub enum Operation {
    Create,
    Unlock,
}

/// Proof of having started an operation: its kind and the generation that it
/// was started in.
#[derive(Clone, Copy, Debug, PartialEq, Eq, Hash, Structural)]
pub struct OperationToken {
    pub generation: u64,
    pub operation: Operation,
}

/// Everything that can happen to a vault.
#[derive(Clone, Copy, Debug, PartialEq, Eq, Structural)]
pub enum Signal {
    InitializedEmpty,
    InitializedVault,
    BeginCreate,
    BeginUnlock,
    OperationSucceeded(OperationToken),
    OperationFailed(OperationToken),
    Lock,
    Dispose,
}

/// What a signal led to: whether it was legal, and the token of the operation
/// that it started.
#[derive(Clone, Copy, Debug, PartialEq, Eq)]
pub struct TransitionResult {
    pub accepted: bool,
    pub token: Option<OperationToken>,
}

/// The lifecycle of one vault.
#[derive(Clone, Debug, PartialEq, Eq)]
pub struct VaultLifecycle {
    phase: Phase,
    generation: u64,
    active: Option<OperationToken>,
}

/// Mathematical state of a lifecycle.
pub struct LifecycleState {
    pub phase: Phase,
    pub generation: nat,
    pub active: Option<OperationToken>,
}

impl Operation {
    /// The phase during which this operation is in flight.
    pub open spec fn in_flight(self) -> Phase {
        match self {
            Operation::Create => Phase::Creating,
            Operation::Unlock => Phase::Unlocking,
        }
    }

    /// The phase that this operation starts from, and falls back to on failure.
    pub open spec fn origin(self) -> Phase {
        match self {
            Operation::Create => Phase::Setup,
            Operation::Unlock => Phase::Locked,
        }
    }
}

impl LifecycleState {
    /// The state before anything is known about the vault.
    pub open spec fn initial() -> LifecycleState {
        LifecycleState { phase: Phase::Loading, generation: 0, active: None }
    }

    /// An operation is active exactly in the two in-flight phases, and then it
    /// is the one that the phase names, stamped with the current generation.
    pub open spec fn wf(self) -> bool {
        &&& self.generation <= u64::MAX
        &&& match self.active {
            Some(token) => {
                &&& token.generation == self.generation
                &&& self.phase == token.operation.in_flight()
            },
            None => self.phase != Phase::Creating && self.phase != Phase::Unlocking,
        }
    }

    /// Whether `operation` may start: its origin phase, and a generation left.
    pub open spec fn can_begin(self, operation: Operation) -> bool {
        self.phase == operation.origin() && self.generation < u64::MAX
    }

    /// Whether `token` stands for the operation that is in flight.
    pub open spec fn can_complete(self, token: OperationToken) -> bool {
        self.active == Some(token) && self.phase == token.operation.in_flight()
    }

    /// Whether `signal` is legal here.
    pub open spec fn accepts(self, signal: Signal) -> bool {
        match signal {
            Signal::InitializedEmpty | Signal::InitializedVault => self.phase == Phase::Loading,
            Signal::BeginCreate => self.can_begin(Operation::Create),
            Signal::BeginUnlock => self.can_begin(Operation::Unlock),
            Signal::OperationSucceeded(token) | Signal::OperationFailed(token) => self.can_complete(
                token,
            ),
            Signal::Lock | Signal::Dispose => self.phase != Phase::Disposed,
        }
    }

    /// The token that starting `operation` here hands out.
    pub open spec fn fresh_token(self, operation: Operation) -> OperationToken {
        OperationToken { generation: (self.generation + 1) as u64, operation }
    }

    /// The token that `signal` hands out here, if it starts an operation.
    pub open spec fn issues(self, signal: Signal) -> Option<OperationToken> {
        match signal {
            Signal::BeginCreate if self.can_begin(Operation::Create) => Some(
                self.fresh_token(Operation::Create),
            ),
            Signal::BeginUnlock if self.can_begin(Operation::Unlock) => Some(
                self.fresh_token(Operation::Unlock),
            ),
            _ => None,
        }
    }

    /// The state with `operation` in flight under a fresh token.
    pub open spec fn begun(self, operation: Operation) -> LifecycleState {
        LifecycleState {
            phase: operation.in_flight(),
            generation: self.generation + 1,
            active: Some(self.fresh_token(operation)),
        }
    }

    /// The state with no operation in flight and the generation moved on, which
    /// sticks at the largest value that the counter holds.
    pub open spec fn invalidated(self, phase: Phase) -> LifecycleState {
        LifecycleState {
            phase,
            generation: if self.generation < u64::MAX {
                self.generation + 1
            } else {
                self.generation
            },
            active: None,
        }
    }

    /// The phase that locking leads to: a vault that does not exist yet stays
    /// where it is, any other is locked.
    pub open spec fn locked_phase(self) -> Phase {
        match self.phase {
            Phase::Loading | Phase::Setup | Phase::Disposed => self.phase,
            _ => Phase::Locked,
        }
    }

    /// The state after `signal`; an illegal signal changes nothing.
    pub open spec fn next(self, signal: Signal) -> LifecycleState {
        if !self.accepts(signal) {
            self
        } else {
            match signal {
                Signal::InitializedEmpty => LifecycleState { phase: Phase::Setup, ..self },
                Signal::InitializedVault => LifecycleState { phase: Phase::Locked, ..self },
                Signal::BeginCreate => self.begun(Operation::Create),
                Signal::BeginUnlock => self.begun(Operation::Unlock),
                Signal::OperationSucceeded(_) => LifecycleState {
                    phase: Phase::Unlocked,
                    active: None,
                    ..self
                },
                Signal::OperationFailed(token) => LifecycleState {
                    phase: token.operation.origin(),
                    active: None,
                    ..self
                },
                Signal::Lock => self.invalidated(self.locked_phase()),
                Signal::Dispose => self.invalidated(Phase::Disposed),
            }
        }
    }

    /// The state after a whole history of signals.
    pub open spec fn run(self, signals: Seq<Signal>) -> LifecycleState
        decreases signals.len(),
    {
        if signals.len() == 0 {
            self
        } else {
            self.run(signals.drop_last()).next(signals.last())
        }
    }

    /// Whether the vault is open under `generation`.
    pub open spec fn owns(self, generation: nat) -> bool {
        self.phase == Phase::Unlocked && self.generation == generation
    }
}

impl OperationToken {
    pub fn generation(self) -> (generation: u64)
        ensures
            generation == self.generation,
    {
        self.generation
    }

    pub fn operation(self) -> (operation: Operation)
        ensures
            operation == self.operation,
    {
        self.operation
    }
}

impl View for VaultLifecycle {
    type V = LifecycleState;

    closed spec fn view(&self) -> LifecycleState {
        LifecycleState {
            phase: self.phase,
            generation: self.generation as nat,
            active: self.active,
        }
    }
}

impl Default for VaultLifecycle {
    fn default() -> (lifecycle: Self)
        ensures
            lifecycle@ == LifecycleState::initial(),
    {
        Self::new()
    }
}

impl VaultLifecycle {
    /// A lifecycle that knows nothing of its vault yet.
    pub fn new() -> (lifecycle: Self)
        ensures
            lifecycle@ == LifecycleState::initial(),
            lifecycle@.wf(),
    {
        Self { phase: Phase::Loading, generation: 0, active: None }
    }

    /// A lifecycle that resumes in `phase` with `generation` already used up and
    /// nothing in flight.
    pub fn resume(phase: Phase, generation: u64) -> (lifecycle: Self)
        requires
            phase != Phase::Creating,
            phase != Phase::Unlocking,
        ensures
            lifecycle@ == (LifecycleState { phase, generation: generation as nat, active: None }),
            lifecycle@.wf(),
    {
        Self { phase, generation, active: None }
    }

    pub fn phase(&self) -> (phase: Phase)
        ensures
            phase == self@.phase,
    {
        self.phase
    }

    pub fn generation(&self) -> (generation: u64)
        ensures
            generation == self@.generation,
    {
        self.generation
    }

    pub fn active_operation(&self) -> (active: Option<OperationToken>)
        ensures
            active == self@.active,
    {
        self.active
    }

    /// Record whether a vault was found; legal once.
    pub fn initialize(&mut self, vault_exists: bool) -> (accepted: bool)
        ensures
            accepted == (old(self)@.phase == Phase::Loading),
            final(self)@ == old(self)@.next(
                if vault_exists {
                    Signal::InitializedVault
                } else {
                    Signal::InitializedEmpty
                },
            ),
    {
        self.apply(
            if vault_exists {
                Signal::InitializedVault
            } else {
                Signal::InitializedEmpty
            },
        ).accepted
    }

    /// Start creating a vault, where that is legal.
    pub fn begin_create(&mut self) -> (token: Option<OperationToken>)
        ensures
            token == old(self)@.issues(Signal::BeginCreate),
            final(self)@ == old(self)@.next(Signal::BeginCreate),
    {
        self.apply(Signal::BeginCreate).token
    }

    /// Start unlocking the vault, where that is legal.
    pub fn begin_unlock(&mut self) -> (token: Option<OperationToken>)
        ensures
            token == old(self)@.issues(Signal::BeginUnlock),
            final(self)@ == old(self)@.next(Signal::BeginUnlock),
    {
        self.apply(Signal::BeginUnlock).token
    }

    /// End the operation that `token` stands for. A token that is no longer the
    /// active one is rejected.
    pub fn complete(&mut self, token: OperationToken, succeeded: bool) -> (accepted: bool)
        ensures
            accepted == old(self)@.can_complete(token),
            final(self)@ == old(self)@.next(
                if succeeded {
                    Signal::OperationSucceeded(token)
                } else {
                    Signal::OperationFailed(token)
                },
            ),
    {
        self.apply(
            if succeeded {
                Signal::OperationSucceeded(token)
            } else {
                Signal::OperationFailed(token)
            },
        ).accepted
    }

    /// Lock the vault and invalidate whatever is in flight.
    pub fn lock(&mut self) -> (accepted: bool)
        ensures
            accepted == (old(self)@.phase != Phase::Disposed),
            final(self)@ == old(self)@.next(Signal::Lock),
    {
        self.apply(Signal::Lock).accepted
    }

    /// End the lifecycle for good.
    pub fn dispose(&mut self) -> (accepted: bool)
        ensures
            accepted == (old(self)@.phase != Phase::Disposed),
            final(self)@ == old(self)@.next(Signal::Dispose),
    {
        self.apply(Signal::Dispose).accepted
    }

    /// Whether the vault is open under `generation`.
    pub fn owns_generation(&self, generation: u64) -> (owns: bool)
        ensures
            owns == self@.owns(generation as nat),
            owns <==> self@.phase == Phase::Unlocked && self@.generation == generation,
    {
        self.phase == Phase::Unlocked && self.generation == generation
    }

    /// The total transition function. Every signal is defined in every phase.
    pub fn apply(&mut self, signal: Signal) -> (result: TransitionResult)
        ensures
            result.accepted == old(self)@.accepts(signal),
            result.token == old(self)@.issues(signal),
            final(self)@ == old(self)@.next(signal),
    {
        let rejected = TransitionResult { accepted: false, token: None };
        let accepted = TransitionResult { accepted: true, token: None };
        match signal {
            Signal::InitializedEmpty => {
                if self.phase != Phase::Loading {
                    return rejected;
                }
                self.phase = Phase::Setup;
                accepted
            },
            Signal::InitializedVault => {
                if self.phase != Phase::Loading {
                    return rejected;
                }
                self.phase = Phase::Locked;
                accepted
            },
            Signal::BeginCreate => {
                if self.phase != Phase::Setup {
                    return rejected;
                }
                self.begin(Operation::Create)
            },
            Signal::BeginUnlock => {
                if self.phase != Phase::Locked {
                    return rejected;
                }
                self.begin(Operation::Unlock)
            },
            Signal::OperationSucceeded(token) => {
                if !self.is_in_flight(token) {
                    return rejected;
                }
                self.active = None;
                self.phase = Phase::Unlocked;
                accepted
            },
            Signal::OperationFailed(token) => {
                if !self.is_in_flight(token) {
                    return rejected;
                }
                self.active = None;
                self.phase = match token.operation {
                    Operation::Create => Phase::Setup,
                    Operation::Unlock => Phase::Locked,
                };
                accepted
            },
            Signal::Lock => {
                if self.phase == Phase::Disposed {
                    return rejected;
                }
                self.generation = self.generation.saturating_add(1);
                self.active = None;
                self.phase = match self.phase {
                    Phase::Loading => Phase::Loading,
                    Phase::Setup => Phase::Setup,
                    Phase::Creating | Phase::Locked | Phase::Unlocking | Phase::Unlocked => {
                        Phase::Locked
                    },
                    Phase::Disposed => Phase::Disposed,
                };
                accepted
            },
            Signal::Dispose => {
                if self.phase == Phase::Disposed {
                    return rejected;
                }
                self.generation = self.generation.saturating_add(1);
                self.active = None;
                self.phase = Phase::Disposed;
                accepted
            },
        }
    }

    /// Put `operation` in flight under the next generation. With the counter
    /// exhausted this fails closed, so that no token is ever handed out twice.
    fn begin(&mut self, operation: Operation) -> (result: TransitionResult)
        requires
            old(self)@.phase == operation.origin(),
        ensures
            result.accepted == old(self)@.can_begin(operation),
            result.token == (if old(self)@.can_begin(operation) {
                Some(old(self)@.fresh_token(operation))
            } else {
                None
            }),
            final(self)@ == (if old(self)@.can_begin(operation) {
                old(self)@.begun(operation)
            } else {
                old(self)@
            }),
    {
        match self.generation.checked_add(1) {
            None => TransitionResult { accepted: false, token: None },
            Some(next_generation) => {
                self.generation = next_generation;
                let token = OperationToken { generation: next_generation, operation };
                self.active = Some(token);
                self.phase = match operation {
                    Operation::Create => Phase::Creating,
                    Operation::Unlock => Phase::Unlocking,
                };
                TransitionResult { accepted: true, token: Some(token) }
            },
        }
    }

    /// Whether `token` stands for the operation that is in flight.
    fn is_in_flight(&self, token: OperationToken) -> (in_flight: bool)
        ensures
            in_flight == self@.can_complete(token),
    {
        match self.active {
            None => false,
            Some(active) => {
                let expected = match token.operation {
                    Operation::Create => Phase::Creating,
                    Operation::Unlock => Phase::Unlocking,
                };
                active == token && self.phase == expected
            },
        }
    }
}

} // verus!

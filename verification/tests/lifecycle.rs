use threefa_core::app_state::{Operation, OperationToken, Phase, Signal, VaultLifecycle};

#[test]
fn create_and_unlock_have_explicit_legal_paths() {
    let mut create = VaultLifecycle::new();
    assert!(create.initialize(false));
    let token = create.begin_create().unwrap();
    assert_eq!(create.phase(), Phase::Creating);
    assert!(create.complete(token, true));
    assert_eq!(create.phase(), Phase::Unlocked);

    let mut unlock = VaultLifecycle::new();
    assert!(unlock.initialize(true));
    let token = unlock.begin_unlock().unwrap();
    assert!(unlock.complete(token, true));
    assert_eq!(unlock.phase(), Phase::Unlocked);
}

#[test]
fn lock_invalidates_in_flight_operations() {
    let mut state = VaultLifecycle::new();
    state.initialize(true);
    let token = state.begin_unlock().unwrap();
    assert!(state.lock());
    assert!(!state.complete(token, true));
    assert_eq!(state.phase(), Phase::Locked);
    assert!(!state.owns_generation(token.generation()));
}

#[test]
fn dispose_is_absorbing_for_every_signal() {
    let mut state = VaultLifecycle::new();
    assert!(state.dispose());
    let stale = OperationToken {
        generation: 0,
        operation: Operation::Unlock,
    };
    for signal in [
        Signal::InitializedEmpty,
        Signal::InitializedVault,
        Signal::BeginCreate,
        Signal::BeginUnlock,
        Signal::OperationSucceeded(stale),
        Signal::OperationFailed(stale),
        Signal::Lock,
        Signal::Dispose,
    ] {
        assert!(!state.apply(signal).accepted);
        assert_eq!(state.phase(), Phase::Disposed);
    }
}

#[test]
fn illegal_inputs_are_rejected_without_mutation() {
    let mut state = VaultLifecycle::new();
    let initial = state.clone();
    assert!(!state.apply(Signal::BeginCreate).accepted);
    assert!(!state.apply(Signal::BeginUnlock).accepted);
    assert_eq!(state, initial);
    assert_eq!(state.active_operation(), None);
}

#[test]
fn exhausted_generation_never_reuses_an_operation_token() {
    let mut state = VaultLifecycle::resume(Phase::Locked, u64::MAX - 1);
    let final_token = state.begin_unlock().unwrap();
    assert_eq!(final_token.generation(), u64::MAX);

    assert!(state.lock());
    assert_eq!(state.generation(), u64::MAX);
    assert_eq!(state.begin_unlock(), None);
    assert!(!state.complete(final_token, true));
    assert_eq!(state.phase(), Phase::Locked);
}

#[test]
fn a_default_lifecycle_is_a_new_one() {
    assert_eq!(VaultLifecycle::default(), VaultLifecycle::new());
    assert_eq!(VaultLifecycle::new().phase(), Phase::Loading);
    assert_eq!(VaultLifecycle::new().generation(), 0);
}

#[test]
fn a_failed_operation_returns_to_its_origin() {
    let mut state = VaultLifecycle::new();
    assert!(state.initialize(false));
    assert!(!state.initialize(true));
    let token = state.begin_create().unwrap();
    assert_eq!(token.operation(), Operation::Create);
    assert_eq!(token.generation(), 1);
    assert_eq!(state.active_operation(), Some(token));
    assert!(state.complete(token, false));
    assert_eq!(state.phase(), Phase::Setup);
    assert_eq!(state.active_operation(), None);
    assert!(!state.complete(token, true));
    assert_eq!(state.phase(), Phase::Setup);
}

#[test]
fn tokens_of_one_history_differ() {
    let mut state = VaultLifecycle::new();
    state.initialize(true);
    let first = state.begin_unlock().unwrap();
    assert!(state.complete(first, false));
    let second = state.begin_unlock().unwrap();
    assert!(first.generation() < second.generation());
    assert!(!state.complete(first, true));
    assert!(state.complete(second, true));
    assert!(state.owns_generation(second.generation()));
    assert!(!state.owns_generation(first.generation()));
}

#[test]
fn a_locked_generation_is_not_owned_again() {
    let mut state = VaultLifecycle::resume(Phase::Unlocked, u64::MAX);
    assert!(state.owns_generation(u64::MAX));
    assert!(state.lock());
    assert!(!state.owns_generation(u64::MAX));
    assert_eq!(state.begin_unlock(), None);
    assert!(!state.owns_generation(u64::MAX));
}

#[test]
fn locking_before_the_vault_exists_keeps_the_phase() {
    let mut loading = VaultLifecycle::new();
    assert!(loading.lock());
    assert_eq!(loading.phase(), Phase::Loading);
    assert_eq!(loading.generation(), 1);
    assert!(loading.initialize(false));
    assert!(loading.lock());
    assert_eq!(loading.phase(), Phase::Setup);
    let token = loading.begin_create().unwrap();
    assert!(loading.lock());
    assert_eq!(loading.phase(), Phase::Locked);
    assert!(!loading.complete(token, true));
    assert_eq!(loading.apply(Signal::Lock).token, None);
}

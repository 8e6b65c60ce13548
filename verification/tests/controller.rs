use threefa_core::accounts::{account_row, Account, VaultData};
use threefa_core::app_state::{Operation, OperationToken, Phase};
use threefa_core::controller::{
    decoded, AppState, DecodedUri, KeyPress, SessionPoll, SpendStep, SpentCode, Submission,
    SubmitOutcome, SubmitStep, TickStep,
};
use threefa_core::notice::{Notice, Screen};
use threefa_core::saving::{CreateReply, CreateStep, EnrolStep, SaveStep};

type State = AppState<&'static str, &'static str, u8, u64>;

fn account(id: &str, counter_based: bool, counter: u64) -> Account<&'static str> {
    Account {
        id: id.to_string(),
        issuer: "Example".to_string(),
        label: "me@example.org".to_string(),
        period: 30,
        counter_based,
        counter,
        secret: "seed",
    }
}

fn vault(accounts: Vec<Account<&'static str>>) -> VaultData<&'static str, u8> {
    VaultData { accounts, rest: 7 }
}

fn begin_unlock(state: &mut State) -> (OperationToken, Submission) {
    let submission = state.begin_submit();
    match submission.step.clone() {
        SubmitStep::Unlock(token) => (token, submission),
        other => panic!("{:?}", other),
    }
}

fn begin_create(state: &mut State) -> (OperationToken, Submission) {
    let submission = state.begin_submit();
    match submission.step.clone() {
        SubmitStep::Create(token) => (token, submission),
        other => panic!("{:?}", other),
    }
}

fn type_passcode(state: &mut State) {
    for digit in ["1", "3", "5", "7", "9", "0"] {
        state.key_pressed(digit);
    }
}

fn open_with(accounts: Vec<Account<&'static str>>) -> State {
    let mut state: State = AppState::new(Some("file"));
    let (token, mut submission) = begin_unlock(&mut state);
    assert_eq!(
        state.finish_unlock(token, &mut submission, Some((vault(accounts), 99))),
        SubmitOutcome::Opened(Notice::Nothing)
    );
    state
}

fn holds_material(state: &State) -> bool {
    state.data().is_some() && state.dek().is_some()
}

#[test]
fn the_program_starts_in_setup_or_locked() {
    let fresh: State = AppState::new(None);
    assert_eq!(fresh.phase(), Phase::Setup);
    assert_eq!(fresh.start_screen(), Screen::Setup);
    let known: State = AppState::new(Some("file"));
    assert_eq!(known.phase(), Phase::Locked);
    assert_eq!(known.start_screen(), Screen::Lock);
    assert_eq!(known.file(), Some(&"file"));
    assert!(!holds_material(&fresh) && !holds_material(&known));
}

#[test]
fn the_sixth_digit_submits() {
    let mut state: State = AppState::new(Some("file"));
    for n in 1..6usize {
        let press = state.key_pressed("4");
        assert_eq!(press, KeyPress { entered: n, submit: false });
    }
    assert_eq!(state.key_pressed("2"), KeyPress { entered: 6, submit: true });
    assert_eq!(state.key_pressed("9"), KeyPress { entered: 6, submit: true });
    assert_eq!(state.begin_submit().passcode, "444442");
    assert_eq!(state.key_backspace(), 0);
}

#[test]
fn backspace_takes_a_digit_back() {
    let mut state: State = AppState::new(Some("file"));
    state.key_pressed("1");
    state.key_pressed("2");
    state.key_pressed("3");
    assert_eq!(state.key_backspace(), 2);
    assert_eq!(state.begin_submit().passcode, "12");
}

#[test]
fn lengths_are_counted_in_bytes() {
    let mut state: State = AppState::new(None);
    assert_eq!(state.key_pressed("é").entered, 2);
    assert_eq!(state.key_pressed("12345").entered, 7);
    assert!(!state.key_pressed("6").submit);
    assert_eq!(state.key_backspace(), 6);
}

#[test]
fn locking_wipes_the_passcode_buffer() {
    let mut state: State = AppState::new(Some("file"));
    state.key_pressed("1");
    state.key_pressed("2");
    state.lock();
    assert_eq!(state.key_backspace(), 0);
    assert_eq!(state.begin_submit().passcode, "");
}

#[test]
fn a_passcode_creates_a_vault() {
    let mut state: State = AppState::new(None);
    let (token, mut submission) = begin_create(&mut state);
    assert_eq!(state.phase(), Phase::Creating);
    assert!(!holds_material(&state));
    let outcome = state.finish_create(token, &mut submission, Ok(("new", vault(vec![]), 5)));
    assert_eq!(outcome, SubmitOutcome::Opened(Notice::VaultCreated));
    assert_eq!(state.phase(), Phase::Unlocked);
    assert_eq!(state.file(), Some(&"new"));
    assert_eq!(state.dek(), Some(&5));
    assert_eq!(state.data().unwrap().rest, 7);
}

#[test]
fn a_failed_creation_returns_to_setup() {
    let mut state: State = AppState::new(None);
    let (token, mut submission) = begin_create(&mut state);
    let outcome = state.finish_create(token, &mut submission, Err("disk full".to_string()));
    assert_eq!(
        outcome,
        SubmitOutcome::Closed(Notice::CreateFailed("disk full".to_string()))
    );
    assert_eq!(state.phase(), Phase::Setup);
    assert!(!holds_material(&state));
}

#[test]
fn a_lock_cancels_a_creation_and_its_material() {
    let mut state: State = AppState::new(None);
    let (token, mut submission) = begin_create(&mut state);
    state.lock();
    assert_eq!(
        state.finish_create(token, &mut submission, Ok(("new", vault(vec![]), 5))),
        SubmitOutcome::Closed(Notice::CreateCancelled)
    );
    assert_eq!(state.phase(), Phase::Locked);
    assert_eq!(state.file(), None);
    assert!(!holds_material(&state));
    assert_eq!(state.begin_submit().step, SubmitStep::Refused(Notice::NoVault));
    assert_eq!(state.phase(), Phase::Locked);
}

#[test]
fn a_wrong_passcode_stays_locked() {
    let mut state: State = AppState::new(Some("file"));
    let (token, mut submission) = begin_unlock(&mut state);
    assert_eq!(token.operation(), Operation::Unlock);
    assert_eq!(
        state.finish_unlock(token, &mut submission, None),
        SubmitOutcome::Closed(Notice::WrongPasscode)
    );
    assert_eq!(state.phase(), Phase::Locked);
    assert!(!holds_material(&state));
}

#[test]
fn a_lock_cancels_an_unlock_and_its_material() {
    let mut state: State = AppState::new(Some("file"));
    let (token, mut submission) = begin_unlock(&mut state);
    state.lock();
    assert_eq!(
        state.finish_unlock(token, &mut submission, Some((vault(vec![]), 5))),
        SubmitOutcome::Closed(Notice::UnlockCancelled)
    );
    assert_eq!(state.phase(), Phase::Locked);
    assert!(!holds_material(&state));
}

#[test]
fn an_open_vault_refuses_a_second_unlock() {
    let mut state = open_with(vec![]);
    assert_eq!(
        state.begin_submit().step,
        SubmitStep::Refused(Notice::UnlockUnavailable)
    );
    assert!(holds_material(&state));
}

#[test]
fn lock_and_dispose_drop_the_material() {
    let mut state = open_with(vec![account("a", false, 0)]);
    assert!(holds_material(&state));
    assert_eq!(state.screen_behind_settings(), Screen::Vault);
    state.lock();
    assert!(state.data().is_none() && state.dek().is_none());
    assert_eq!(state.screen_behind_settings(), Screen::Lock);
    let mut state = open_with(vec![]);
    state.dispose();
    assert!(state.data().is_none() && state.dek().is_none());
    assert_eq!(state.phase(), Phase::Disposed);
    assert_eq!(
        state.begin_submit().step,
        SubmitStep::Refused(Notice::UnlockUnavailable)
    );
}

#[test]
fn accounts_are_enrolled_in_an_open_vault_only() {
    let mut locked: State = AppState::new(Some("file"));
    assert!(!locked.add_account(account("a", false, 0)));
    assert_eq!(
        locked.enrol(DecodedUri::Account(account("a", false, 0))),
        EnrolStep::Stop(Notice::UnlockToAdd)
    );
    assert!(locked.seal_parts().is_none());
    assert!(locked.data().is_none());
    let mut state = open_with(vec![account("a", false, 0)]);
    assert_eq!(
        state.enrol(DecodedUri::Account(account("b", true, 3))),
        EnrolStep::Seal
    );
    assert_eq!(state.seal_parts(), Some((&"file", &99)));
    assert_eq!(EnrolStep::Seal.next(), EnrolStep::Write);
    assert_eq!(EnrolStep::Write.next(), EnrolStep::Stop(Notice::AccountAdded));
    assert_eq!(state.data().unwrap().accounts.len(), 2);
    assert_eq!(state.data().unwrap().accounts[1].counter, 3);
    assert_eq!(
        state.enrol(DecodedUri::Invalid("no secret".to_string())),
        EnrolStep::Stop(Notice::BadUri("no secret".to_string()))
    );
    assert_eq!(
        state.enrol(DecodedUri::BulkExport("bulk".to_string())),
        EnrolStep::Stop(Notice::Verbatim("bulk".to_string()))
    );
    assert_eq!(state.data().unwrap().accounts.len(), 2);
}

#[test]
fn a_spent_code_moves_one_counter() {
    let mut state = open_with(vec![account("a", true, 1), account("b", true, 4), account("b", true, 9)]);
    let step = state.spend_code("b", Some(5));
    let spent = SpentCode { previous: 4, counter: 5 };
    assert_eq!(step, SpendStep::Save(spent));
    let counters: Vec<u64> = state.data().unwrap().accounts.iter().map(|a| a.counter).collect();
    assert_eq!(counters, vec![1, 5, 9]);
    assert_eq!(SaveStep::start().next(Ok(())), SaveStep::Write);
    assert_eq!(SaveStep::Write.next(Ok(())), SaveStep::Settle(Ok(())));
    assert_eq!(
        state.settle_code("b", spent, Ok(())),
        SaveStep::Stop(Notice::CodeSpent(5))
    );
    assert_eq!(state.data().unwrap().accounts[1].counter, 5);
}

#[test]
fn a_failed_write_rolls_the_counter_back() {
    let mut state = open_with(vec![account("a", true, 1), account("b", true, 4)]);
    let spent = match state.spend_code("b", Some(5)) {
        SpendStep::Save(spent) => spent,
        other => panic!("{:?}", other),
    };
    let full = || "disk full".to_string();
    assert_eq!(SaveStep::Seal.next(Err(full())), SaveStep::Settle(Err(full())));
    assert_eq!(SaveStep::Write.next(Err(full())), SaveStep::Settle(Err(full())));
    let again = state.settle_code("b", spent, Err(full()));
    assert_eq!(again, SaveStep::SealAgain(Notice::CounterNotSaved(full())));
    assert_eq!(
        again.next(Err("again".to_string())),
        SaveStep::Stop(Notice::CounterNotSaved(full()))
    );
    let counters: Vec<u64> = state.data().unwrap().accounts.iter().map(|a| a.counter).collect();
    assert_eq!(counters, vec![1, 4]);
}

#[test]
fn a_next_code_is_refused_where_there_is_none() {
    let mut locked: State = AppState::new(Some("file"));
    assert_eq!(
        locked.spend_code("a", Some(1)),
        SpendStep::Refused(Notice::UnlockToAdvance)
    );
    let mut state = open_with(vec![account("h", true, u64::MAX), account("t", false, 0)]);
    assert_eq!(
        state.spend_code("h", None),
        SpendStep::Refused(Notice::CounterExhausted)
    );
    assert_eq!(
        state.spend_code("t", None),
        SpendStep::Refused(Notice::NotCounterBased)
    );
    assert_eq!(state.spend_code("x", Some(1)), SpendStep::Ignored);
    assert_eq!(state.data().unwrap().accounts[0].counter, u64::MAX);
}

#[test]
fn a_merge_is_taken_over_while_open_and_dropped_while_locked() {
    let mut state = open_with(vec![]);
    assert_eq!(
        state.store_merged(vault(vec![account("a", false, 0), account("b", false, 0)])),
        Some(2)
    );
    assert_eq!(state.data().unwrap().accounts.len(), 2);
    state.store_file("resealed");
    assert_eq!(state.file(), Some(&"resealed"));
    state.lock();
    assert_eq!(state.store_merged(vault(vec![account("a", false, 0)])), None);
    assert!(state.data().is_none());
}

#[test]
fn the_tick_locks_refreshes_or_rests() {
    let mut state = open_with(vec![account("a", true, 2)]);
    assert_eq!(state.tick(SessionPoll::Active, true), TickStep::Refresh);
    assert_eq!(state.tick(SessionPoll::Active, false), TickStep::Nothing);
    assert_eq!(state.tick(SessionPoll::Locked, true), TickStep::Nothing);
    assert_eq!(state.data().unwrap().accounts[0].counter, 2);
    assert_eq!(state.tick(SessionPoll::JustLocked, true), TickStep::ShowLock);
    assert_eq!(state.phase(), Phase::Locked);
    assert!(!holds_material(&state));
}

#[test]
fn accounts_are_found_by_their_first_match() {
    let data = vault(vec![account("a", false, 0), account("b", false, 1), account("b", false, 2)]);
    assert_eq!(data.find("b"), Some(1));
    assert_eq!(data.find("a"), Some(0));
    assert_eq!(data.find("c"), None);
    assert_eq!(data.find(""), None);
}

#[test]
fn rows_count_down_their_window() {
    let row = account_row(&account("a", false, 0), 59, &Some("123456".to_string()));
    assert_eq!(row.remaining, 1);
    assert_eq!(row.seconds, 1);
    assert_eq!(row.code, "123456");
    let row = account_row(&account("a", false, 0), 60, &None);
    assert_eq!(row.remaining, 30);
    assert_eq!(row.code, "------");
    let mut zero = account("z", false, 0);
    zero.period = 0;
    let row = account_row(&zero, 12, &None);
    assert_eq!((row.period, row.remaining), (1, 1));
    let row = account_row(&account("h", true, 42), 12, &None);
    assert_eq!((row.seconds, row.remaining, row.counter_based), (0, 0, true));
    assert_eq!(row.counter_label, "c42");
    let mut wide = account("w", false, 0);
    wide.period = 0x1_0000_0002;
    assert_eq!(account_row(&wide, 0, &None).seconds, 2);
}

#[test]
fn the_list_keeps_the_order_of_the_vault() {
    let data = vault(vec![account("a", false, 0), account("b", true, 8)]);
    let rows = data.rows(90, &vec![Some("1".to_string()), None]);
    assert_eq!(rows.len(), 2);
    assert_eq!((rows[0].id.as_str(), rows[0].code.as_str()), ("a", "1"));
    assert_eq!((rows[1].id.as_str(), rows[1].code.as_str()), ("b", "------"));
    assert_eq!(rows[1].counter_label, "c8");
    assert_eq!(rows[0].issuer, "Example");
    assert_eq!(rows[0].label, "me@example.org");
}

#[test]
fn a_passcode_is_wiped_on_every_path() {
    // Created, and not created.
    for created in [Ok(("new", vault(vec![]), 5)), Err("no entropy".to_string())] {
        let mut state: State = AppState::new(None);
        type_passcode(&mut state);
        let (token, mut submission) = begin_create(&mut state);
        assert_eq!(submission.passcode, "135790");
        let opened = created.is_ok();
        state.finish_create(token, &mut submission, created);
        assert_eq!(submission.passcode, "");
        assert_eq!(submission.step, SubmitStep::Create(token));
        assert_eq!(holds_material(&state), opened);
        assert_eq!(state.key_backspace(), 0);
    }
    // Unlocked, and a wrong passcode.
    for unlocked in [Some((vault(vec![]), 5)), None] {
        let mut state: State = AppState::new(Some("file"));
        type_passcode(&mut state);
        let (token, mut submission) = begin_unlock(&mut state);
        assert_eq!(submission.passcode, "135790");
        let opened = unlocked.is_some();
        state.finish_unlock(token, &mut submission, unlocked);
        assert_eq!(submission.passcode, "");
        assert_eq!(holds_material(&state), opened);
        assert_eq!(state.key_backspace(), 0);
    }
    // Not available.
    let mut state = open_with(vec![]);
    type_passcode(&mut state);
    let submission = state.begin_submit();
    assert_eq!(submission.step, SubmitStep::Refused(Notice::UnlockUnavailable));
    assert_eq!(submission.passcode, "");
    // Given up.
    let mut state: State = AppState::new(Some("file"));
    type_passcode(&mut state);
    let mut submission = state.begin_submit();
    assert_eq!(submission.passcode, "135790");
    submission.end();
    assert_eq!(submission.passcode, "");
}

#[test]
fn a_created_vault_is_written_before_it_is_opened() {
    let step: CreateStep<&'static str> = CreateStep::start();
    assert_eq!(step, CreateStep::Create);
    assert_eq!(step.clone().next(CreateReply::Done), CreateStep::Create);
    let written = step.next(CreateReply::Created("vault"));
    assert_eq!(written, CreateStep::Write("vault"));
    assert_eq!(written.clone().next(CreateReply::Done), CreateStep::Finish("vault"));
    let finished = written.next(CreateReply::Failed("disk full".to_string()));
    assert_eq!(finished, CreateStep::Finish("vault"));
    assert_eq!(finished.clone().next(CreateReply::Created("other")), finished);
}

#[test]
fn a_failed_creation_writes_nothing() {
    let step: CreateStep<&'static str> = CreateStep::start();
    let failed = step.next(CreateReply::Failed("no entropy".to_string()));
    assert_eq!(failed, CreateStep::Failed("no entropy".to_string()));
    assert_eq!(failed.clone().next(CreateReply::Created("vault")), failed);
}

#[test]
fn a_bulk_export_is_told_apart_first() {
    let bulk = || Some("bulk".to_string());
    for parsed in [Ok(account("a", false, 0)), Err("not an account".to_string())] {
        match decoded(bulk(), parsed) {
            DecodedUri::BulkExport(message) => assert_eq!(message, "bulk"),
            _ => panic!("not told apart"),
        }
    }
    match decoded(None, Ok(account("a", true, 3))) {
        DecodedUri::Account(account) => assert_eq!((account.id.as_str(), account.counter), ("a", 3)),
        _ => panic!("not an account"),
    }
    let invalid: DecodedUri<&'static str> = decoded(None, Err("no secret".to_string()));
    match invalid {
        DecodedUri::Invalid(reason) => assert_eq!(reason, "no secret"),
        _ => panic!("not refused"),
    }
    let mut state = open_with(vec![]);
    assert_eq!(
        state.enrol(decoded(bulk(), Ok(account("a", false, 0)))),
        EnrolStep::Stop(Notice::Verbatim("bulk".to_string()))
    );
    assert_eq!(state.data().unwrap().accounts.len(), 0);
}

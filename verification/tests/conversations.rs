use threefa_core::notice::{extension_notice, Notice, Screen};
use threefa_core::pin_unlock::{
    rotate, PinGate, PinRecord, PinReply, PinRequest, PinStep, MAX_PIN_FAILURES,
};
use threefa_core::sign_in::{
    pin_reply, supabase_config, ProviderSession, SessionSecrets, SignInReply, SignInRequest,
    SignInStep, SupabaseConfig,
};
use threefa_core::sync_run::{
    device_id_changed, AuthKind, AuthReply, AuthRequest, AuthStep, SyncIdentity, SyncOrder,
    SyncReply, SyncStep, DEVICE_NAME,
};

fn why() -> String {
    "why".to_string()
}

#[test]
fn the_provider_needs_both_parts() {
    assert_eq!(
        supabase_config(Some("https://p"), Some("key")),
        Ok(SupabaseConfig {
            project_url: "https://p".to_string(),
            anon_key: "key".to_string(),
        })
    );
    for (url, key) in [(None, Some("key")), (Some("https://p"), None), (None, None)] {
        assert_eq!(supabase_config(url, key), Err(Notice::SupabaseNotConfigured));
    }
}

fn config() -> SupabaseConfig {
    SupabaseConfig {
        project_url: "https://p".to_string(),
        anon_key: "key".to_string(),
    }
}

fn session() -> ProviderSession<&'static str> {
    ProviderSession { access_token: "access", refresh_token: "refresh" }
}

fn secrets(refresh_token: &'static str, sync_token: &'static str) -> SessionSecrets<&'static str> {
    SessionSecrets { refresh_token, sync_token }
}

type Step = SignInStep<'static, &'static str>;

fn form(passphrase: &'static str, pin: &'static str) -> SignInRequest<'static> {
    SignInRequest { server: "s", email: "e", password: "p", passphrase, pin }
}

fn started(passphrase: &'static str, pin: &'static str) -> (SignInRequest<'static>, Step) {
    let request = form(passphrase, pin);
    (request, request.start())
}

fn order(secret: &'static str) -> SyncOrder<'static> {
    SyncOrder { server: "s", username: "e", secret }
}

#[test]
fn a_full_sign_in_runs_every_step() {
    let (request, mut step) = started("phrase", "135790");
    assert_eq!(step, Step::CheckPin);
    for (reply, next) in [
        (SignInReply::Done, Step::Configure),
        (SignInReply::Configured(config()), Step::SignIn(config())),
        (SignInReply::SignedIn(session()), Step::Enroll(session())),
        (SignInReply::Enrolled("sync"), Step::StoreToken(session(), "sync")),
        (SignInReply::Done, Step::SealSession(secrets("refresh", "sync"))),
        (SignInReply::Done, Step::StoreSession),
        (SignInReply::Done, Step::SaveIdentity),
        (SignInReply::Done, Step::Sync(order("phrase"))),
        (SignInReply::Failed(why()), Step::Sync(order("phrase"))),
    ] {
        step = request.next(step, reply);
        assert_eq!(step, next);
    }
}

#[test]
fn a_sign_in_without_pin_and_passphrase_is_short() {
    let (request, step) = started("", "");
    assert_eq!(step, Step::Configure);
    assert_eq!(
        request.next(Step::StoreToken(session(), "sync"), SignInReply::Done),
        Step::SaveIdentity
    );
    assert_eq!(
        request.next(Step::SaveIdentity, SignInReply::Done),
        Step::Stop(Notice::SignedInPassphraseNeeded)
    );
}

#[test]
fn blank_fields_stop_a_sign_in() {
    for (server, email, password) in [("", "e", "p"), ("s", "", "p"), ("s", "e", "")] {
        let request = SignInRequest { server, email, password, ..form("phrase", "135790") };
        let step: Step = request.start();
        assert_eq!(step, Step::Stop(Notice::EnterServerEmailPassword));
    }
}

#[test]
fn each_failed_step_of_a_sign_in_is_told() {
    let (request, _) = started("phrase", "135790");
    for (step, notice) in [
        (Step::CheckPin, Notice::PinRule),
        (Step::Configure, Notice::SupabaseNotConfigured),
        (Step::SignIn(config()), Notice::SignInFailed(why())),
        (Step::Enroll(session()), Notice::EnrollFailed(why())),
        (Step::StoreToken(session(), "sync"), Notice::TokenNotStored(why())),
        (Step::SealSession(secrets("r", "s")), Notice::PinNotSet(why())),
        (Step::StoreSession, Notice::SessionNotStored(why())),
    ] {
        assert_eq!(
            request.next(step, SignInReply::Failed(why())),
            Step::Stop(notice)
        );
    }
    assert_eq!(
        request.next(Step::SaveIdentity, SignInReply::Failed(why())),
        Step::Sync(order("phrase"))
    );
}

#[test]
fn a_bad_pin_stops_before_the_network() {
    let good: SignInReply<&'static str> = pin_reply(true, false);
    assert_eq!(good, SignInReply::Done);
    for (well_formed, weak) in [(true, true), (false, false), (false, true)] {
        let bad: SignInReply<&'static str> = pin_reply(well_formed, weak);
        assert_eq!(bad, SignInReply::Failed(String::new()));
    }
    let (request, step) = started("phrase", "000000");
    assert_eq!(step, Step::CheckPin);
    let stopped = request.next(step, pin_reply(true, true));
    assert_eq!(stopped, Step::Stop(Notice::PinRule));
    assert_eq!(
        request.next(stopped, SignInReply::Done),
        Step::Stop(Notice::PinRule)
    );
}

type Pin = PinStep<'static, &'static str>;

fn refresh(passphrase: &'static str) -> PinRequest<'static> {
    PinRequest { server: "s", username: "e", passphrase }
}

#[test]
fn the_typed_server_comes_first() {
    let (request, step): (PinRequest, Pin) = PinRequest::start("typed", "configured", "u", "");
    assert_eq!((request.server, request.username), ("typed", "u"));
    assert_eq!(step, Pin::Load);
    let (request, step): (PinRequest, Pin) = PinRequest::start("", "configured", "u", "phrase");
    assert_eq!((request.server, request.passphrase), ("configured", "phrase"));
    assert_eq!(step, Pin::Load);
    let (_, step): (PinRequest, Pin) = PinRequest::start("", "", "u", "phrase");
    assert_eq!(step, Pin::Stop(Notice::EnterServerUrl));
}

#[test]
fn the_sealed_token_stands_in() {
    assert_eq!(
        rotate(session(), secrets("old", "old-sync"), Some("new-sync")),
        secrets("refresh", "new-sync")
    );
    assert_eq!(
        rotate(session(), secrets("old", "old-sync"), None),
        secrets("refresh", "old-sync")
    );
}

#[test]
fn the_tenth_failure_wipes_the_session() {
    assert_eq!(MAX_PIN_FAILURES, 10);
    let mut record = PinRecord { failures: 0, last_failure_unix: 0 };
    for n in 1..10u32 {
        assert!(!record.record_failure(100 + n as u64));
        assert_eq!(record.failures, n);
    }
    assert!(record.record_failure(200));
    assert_eq!(record, PinRecord { failures: 10, last_failure_unix: 200 });
    let mut full = PinRecord { failures: u32::MAX, last_failure_unix: 0 };
    assert!(full.record_failure(1));
    assert_eq!(full.failures, u32::MAX);
}

#[test]
fn a_clock_that_went_back_counts_as_no_time() {
    let record = PinRecord { failures: 1, last_failure_unix: 100 };
    assert_eq!(record.seconds_since_failure(130), 30);
    assert_eq!(record.seconds_since_failure(70), 0);
}

fn failed(now: u64) -> PinReply<&'static str> {
    PinReply::Failed { reason: why(), now }
}

#[test]
fn a_right_pin_refreshes_and_syncs() {
    let record = PinRecord { failures: 2, last_failure_unix: 5 };
    let sealed = secrets("old", "old-sync");
    let rotated = secrets("refresh", "old-sync");
    let request = refresh("phrase");
    let mut step = Pin::Load;
    for (reply, next) in [
        (PinReply::Loaded(record), Pin::Ask(record)),
        (PinReply::Gated(PinGate::Allow), Pin::Open(record)),
        (PinReply::Opened(sealed.clone()), Pin::Configure(sealed.clone())),
        (PinReply::Configured(config()), Pin::Refresh(config(), sealed.clone())),
        (PinReply::Refreshed(session()), Pin::Enroll(session(), sealed)),
        (failed(9), Pin::StoreToken(rotated.clone())),
        (failed(9), Pin::Reseal(rotated.clone())),
        (PinReply::Done, Pin::Sync(order("phrase"))),
    ] {
        step = request.next(step, reply);
        assert_eq!(step, next);
    }
    assert_eq!(
        request.next(
            Pin::Enroll(session(), secrets("old", "old-sync")),
            PinReply::Enrolled("new-sync")
        ),
        Pin::StoreToken(secrets("refresh", "new-sync"))
    );
    assert_eq!(
        refresh("").next(Pin::Reseal(rotated), PinReply::Done),
        Pin::Stop(Notice::SessionRefreshed)
    );
}

#[test]
fn backoff_comes_before_the_session_is_opened() {
    let record = PinRecord { failures: 2, last_failure_unix: 5 };
    let ask = Pin::Ask(record);
    assert_eq!(
        refresh("phrase").next(ask.clone(), PinReply::Gated(PinGate::Backoff { seconds: 40 })),
        Pin::Stop(Notice::TryAgainIn(40))
    );
    assert_eq!(
        refresh("phrase").next(ask.clone(), PinReply::Gated(PinGate::Wipe)),
        Pin::Wipe(Notice::SessionWiped)
    );
    assert_eq!(refresh("phrase").next(ask.clone(), PinReply::Done), ask);
    assert_eq!(refresh("phrase").next(Pin::Load, failed(1)), Pin::Stop(Notice::NoPinSession));
}

#[test]
fn a_wrong_pin_is_counted_or_wipes() {
    let early = Pin::Open(PinRecord { failures: 2, last_failure_unix: 5 });
    let saved = refresh("phrase").next(early, failed(77));
    assert_eq!(
        saved,
        Pin::SaveRecord(
            PinRecord { failures: 3, last_failure_unix: 77 },
            Notice::PinRejected(why())
        )
    );
    assert_eq!(
        refresh("phrase").next(saved, PinReply::Done),
        Pin::Stop(Notice::PinRejected(why()))
    );
    let last = Pin::Open(PinRecord { failures: 9, last_failure_unix: 5 });
    let wiped = refresh("phrase").next(last, failed(77));
    assert_eq!(wiped, Pin::Wipe(Notice::SessionWiped));
    assert_eq!(refresh("phrase").next(wiped, PinReply::Done), Pin::Stop(Notice::SessionWiped));
}

#[test]
fn an_expired_session_needs_a_sign_in() {
    assert_eq!(
        refresh("phrase").next(Pin::Refresh(config(), secrets("r", "s")), failed(1)),
        Pin::Stop(Notice::SessionExpired(why()))
    );
    assert_eq!(
        refresh("phrase").next(Pin::Configure(secrets("r", "s")), failed(1)),
        Pin::Stop(Notice::SupabaseNotConfigured)
    );
}

type Auth = AuthStep<'static, &'static str>;

#[test]
fn a_log_in_stores_the_token_then_syncs() {
    let request = AuthRequest {
        kind: AuthKind::Login,
        server: "s",
        username: "e",
        password: "p",
    };
    let step: Auth = request.start();
    assert_eq!(step, Auth::Authenticate(AuthKind::Login));
    let step = request.next(step, AuthReply::Enrolled("sync"));
    assert_eq!(step, Auth::StoreToken("sync"));
    let step = request.next(step, AuthReply::Done);
    assert_eq!(step, Auth::SaveIdentity);
    assert_eq!(request.next(step, AuthReply::Done), Auth::Sync(order("p")));
    assert_eq!(
        request.next(Auth::Authenticate(AuthKind::Register), AuthReply::Failed(why())),
        Auth::Stop(Notice::AuthFailed(why()))
    );
    assert_eq!(
        request.next(Auth::StoreToken("sync"), AuthReply::Failed(why())),
        Auth::Stop(Notice::TokenNotStored(why()))
    );
    for (server, username, password) in [("", "u", "p"), ("s", "", "p"), ("s", "u", "")] {
        let request = AuthRequest { kind: AuthKind::Register, server, username, password };
        let step: Auth = request.start();
        assert_eq!(step, Auth::Stop(Notice::EnterServerUsernamePassword));
    }
}

type Round = SyncStep<&'static str, &'static str>;

#[test]
fn a_sync_ends_with_the_number_of_accounts() {
    let mut step: Round = SyncStep::start(&order("p"));
    assert_eq!(step, Round::LoadToken);
    for (reply, next) in [
        (SyncReply::Token("sync"), Round::Snapshot("sync")),
        (SyncReply::Done, Round::Connect("sync")),
        (SyncReply::Done, Round::Synchronize),
        (SyncReply::Merged("merged"), Round::SaveIdentity("merged")),
        (SyncReply::Done, Round::Seal("merged")),
        (SyncReply::Failed(why()), Round::Write("merged")),
        (SyncReply::Failed(why()), Round::Store("merged")),
    ] {
        step = step.next(reply);
        assert_eq!(step, next);
    }
    assert_eq!(
        step.clone().next(SyncReply::Stored(3)),
        Round::Stop(Notice::Synced(3))
    );
    assert_eq!(step.clone().next(SyncReply::Locked), Round::Dropped);
    assert_eq!(Round::Seal("merged").next(SyncReply::Locked), Round::Dropped);
    assert_eq!(step.clone().next(SyncReply::Done), step);
}

#[test]
fn each_failed_step_of_a_sync_is_told() {
    assert_eq!(Round::start(&order("")), Round::Stop(Notice::PasswordToSync));
    for (step, notice) in [
        (Round::LoadToken, Notice::LogInFirst),
        (Round::Snapshot("sync"), Notice::UnlockToSync),
        (Round::Connect("sync"), Notice::TransportFailed(why())),
        (Round::Synchronize, Notice::SyncFailed(why())),
    ] {
        let stopped = step.next(SyncReply::Failed(why()));
        assert_eq!(stopped, Round::Stop(notice));
        assert_eq!(stopped.clone().next(SyncReply::Stored(1)), stopped);
    }
}

#[test]
fn an_identity_is_remembered() {
    assert_eq!(DEVICE_NAME, "3FA Desktop");
    let mut identity = SyncIdentity { server_url: String::new(), username: "x".to_string() };
    identity.set("https://s", "me");
    assert_eq!(identity.server_url, "https://s");
    assert_eq!(identity.username, "me");
}

#[test]
fn notices_are_worded_with_their_details() {
    assert_eq!(Notice::Nothing.text(), "");
    assert_eq!(Notice::Verbatim("as is".to_string()).text(), "as is");
    assert_eq!(Notice::CreateFailed(why()).text(), "Could not create vault: why");
    assert_eq!(
        Notice::CodeSpent(17).text(),
        "Now showing code 17 — the previous one is spent"
    );
    assert_eq!(
        Notice::TryAgainIn(30).text(),
        "Too many attempts — try again in 30s"
    );
    assert_eq!(
        Notice::SessionExpired(why()).text(),
        "Session expired (why) — sign in with Supabase again"
    );
    assert_eq!(Notice::Synced(2).text(), "Synced — 2 accounts");
    assert_eq!(Notice::WrongPasscode.text(), "Wrong passcode");
}

#[test]
fn an_extension_needs_a_second_factor() {
    assert_eq!(extension_notice(true).text(), "Session extended");
    assert_eq!(extension_notice(false).text(), "Need a second factor to extend");
}

#[test]
fn screens_have_names() {
    assert_eq!(Screen::Setup.name(), "setup");
    assert_eq!(Screen::Lock.name(), "lock");
    assert_eq!(Screen::Vault.name(), "vault");
    assert_eq!(Screen::Settings.name(), "settings");
}

#[test]
fn a_changed_device_id_is_saved() {
    assert!(device_id_changed("", "d1"));
    assert!(!device_id_changed("d1", "d1"));
}

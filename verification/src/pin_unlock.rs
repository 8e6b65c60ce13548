//! Refreshing the session with the PIN alone: the attempts that are counted, the
//! order of the steps, and what is kept when one of them fails.
//!
//! `T` is the text of a credential, which is only ever handed on.

use crate::notice::Notice;
use crate::sign_in::{ProviderSession, SessionSecrets, SupabaseConfig};
use crate::sync_run::SyncOrder;
use vstd::prelude::*;

verus! {

/// Failed PINs after which the sealed session is wiped.
pub const MAX_PIN_FAILURES: u32 = 10;

/// The attempts on a sealed session so far.
#[derive(Clone, Copy, Debug, PartialEq, Eq)]
pub struct PinRecord {
    pub failures: u32,
    /// Second of the last failure.
    pub last_failure_unix: u64,
}

impl PinRecord {
    /// The record after one more failure at second `now`.
    pub open spec fn after_failure(self, now: u64) -> PinRecord {
        PinRecord {
            failures: if self.failures < u32::MAX {
                (self.failures + 1) as u32
            } else {
                self.failures
            },
            last_failure_unix: now,
        }
    }

    /// Whether so many attempts have failed that the session is wiped.
    pub open spec fn is_spent(self) -> bool {
        self.failures >= MAX_PIN_FAILURES
    }

    /// The record after failures at these seconds.
    pub open spec fn after_failures(self, times: Seq<u64>) -> PinRecord
        decreases times.len(),
    {
        if times.len() == 0 {
            self
        } else {
            self.after_failures(times.drop_last()).after_failure(times.last())
        }
    }

    /// Count one more failure. Returns whether the session is to be wiped.
    pub fn record_failure(&mut self, now: u64) -> (wipe: bool)
        ensures
            *final(self) == old(self).after_failure(now),
            wipe == old(self).after_failure(now).is_spent(),
            old(self).failures < u32::MAX ==> final(self).failures == old(self).failures + 1,
            old(self).failures == u32::MAX ==> final(self).failures == u32::MAX,
            final(self).last_failure_unix == now,
            wipe <==> old(self).failures + 1 >= MAX_PIN_FAILURES,
    {
        self.failures = self.failures.saturating_add(1);
        self.last_failure_unix = now;
        self.failures >= MAX_PIN_FAILURES
    }

    /// Seconds since the last failure; a clock that went back counts as none.
    pub fn seconds_since_failure(&self, now: u64) -> (seconds: u64)
        ensures
            seconds == (if now >= self.last_failure_unix {
                now - self.last_failure_unix
            } else {
                0
            }),
    {
        now.saturating_sub(self.last_failure_unix)
    }
}

/// Every failure counts: after as many failures as the limit, whenever they
/// happened, the session is wiped, and with fewer on a fresh record it is not.
pub proof fn law_the_failure_limit_wipes_the_session(record: PinRecord, times: Seq<u64>)
    ensures
        record.after_failures(times).failures == if record.failures + times.len() <= u32::MAX {
            record.failures + times.len()
        } else {
            u32::MAX as int
        },
        record.after_failures(times).is_spent() <==> record.failures + times.len()
            >= MAX_PIN_FAILURES,
    decreases times.len(),
{
    if times.len() > 0 {
        law_the_failure_limit_wipes_the_session(record, times.drop_last());
    }
}

/// What refreshing the session works with.
#[derive(Clone, Copy, PartialEq, Eq)]
pub struct PinRequest<'a> {
    pub server: &'a str,
    pub username: &'a str,
    /// What the synced vault is sealed under; blank for no sync.
    pub passphrase: &'a str,
}

impl<'a> PinRequest<'a> {
    /// The sync that follows: on the same server, as the remembered user, sealed
    /// under the passphrase and not the PIN.
    pub open spec fn sync_order(self) -> SyncOrder<'a> {
        SyncOrder { server: self.server, username: self.username, secret: self.passphrase }
    }
}

/// What is sealed anew: the refresh token of the new session, and the sync token
/// of a fresh enrolment or else the one sealed before, which may still be valid.
pub open spec fn rotated_secrets<T>(
    session: ProviderSession<T>,
    sealed: SessionSecrets<T>,
    enrolled: Option<T>,
) -> SessionSecrets<T> {
    SessionSecrets {
        refresh_token: session.refresh_token,
        sync_token: match enrolled {
            Some(token) => token,
            None => sealed.sync_token,
        },
    }
}

/// What is sealed anew.
pub fn rotate<T>(
    session: ProviderSession<T>,
    sealed: SessionSecrets<T>,
    enrolled: Option<T>,
) -> (rotated: SessionSecrets<T>)
    ensures
        rotated == rotated_secrets(session, sealed, enrolled),
        rotated.refresh_token == session.refresh_token,
        enrolled matches Some(token) ==> rotated.sync_token == token,
        enrolled is None ==> rotated.sync_token == sealed.sync_token,
{
    let sync_token = match enrolled {
        Some(token) => token,
        None => sealed.sync_token,
    };
    SessionSecrets { refresh_token: session.refresh_token, sync_token }
}

/// Whether another PIN may be tried now.
#[derive(Clone, Copy, Debug, PartialEq, Eq)]
pub enum PinGate {
    Allow,
    Backoff { seconds: u64 },
    Wipe,
}

/// What refreshing the session does next.
#[derive(Clone, Debug, PartialEq, Eq)]
pub enum PinStep<'a, T> {
    /// Load the sealed session of this device.
    Load,
    /// Ask whether another PIN may be tried now, on this record.
    Ask(PinRecord),
    /// Open the sealed session with the PIN.
    Open(PinRecord),
    /// Write this record back, then tell the user.
    SaveRecord(PinRecord, Notice),
    /// Remove the sealed session, then tell the user.
    Wipe(Notice),
    /// Find the provider's configuration.
    Configure(SessionSecrets<T>),
    /// Ask the provider for a new session, by the refresh token.
    Refresh(SupabaseConfig, SessionSecrets<T>),
    /// Enrol this device anew, by the access token.
    Enroll(ProviderSession<T>, SessionSecrets<T>),
    /// Keep the sync token for the server, as far as that works.
    StoreToken(SessionSecrets<T>),
    /// Seal these under the same PIN and write them, as far as that works.
    Reseal(SessionSecrets<T>),
    /// Tell the user that the session is refreshed, and run this sync.
    Sync(SyncOrder<'a>),
    /// Nothing more; tell the user.
    Stop(Notice),
}

/// How a step ended.
#[derive(Clone, Debug, PartialEq, Eq)]
pub enum PinReply<T> {
    /// A sealed session was found, with this record.
    Loaded(PinRecord),
    /// Whether another PIN may be tried now.
    Gated(PinGate),
    /// The PIN was right.
    Opened(SessionSecrets<T>),
    Configured(SupabaseConfig),
    Refreshed(ProviderSession<T>),
    /// The device is enrolled, under this sync token.
    Enrolled(T),
    Done,
    /// The step failed, at second `now`.
    Failed { reason: String, now: u64 },
}

/// The step after opening the sealed session failed.
pub open spec fn step_after_wrong_pin<'a, T>(
    record: PinRecord,
    reason: String,
    now: u64,
) -> PinStep<'a, T> {
    if record.after_failure(now).is_spent() {
        PinStep::Wipe(Notice::SessionWiped)
    } else {
        PinStep::SaveRecord(record.after_failure(now), Notice::PinRejected(reason))
    }
}

/// The step after a verdict on whether another PIN may be tried.
pub open spec fn step_after_verdict<'a, T>(record: PinRecord, verdict: PinGate) -> PinStep<
    'a,
    T,
> {
    match verdict {
        PinGate::Allow => PinStep::Open(record),
        PinGate::Backoff { seconds } => PinStep::Stop(Notice::TryAgainIn(seconds)),
        PinGate::Wipe => PinStep::Wipe(Notice::SessionWiped),
    }
}

/// The step after `step`, which ended in `reply`. A reply that does not answer
/// the step leaves it standing.
pub open spec fn next_pin_step<'a, T>(
    request: PinRequest<'a>,
    step: PinStep<'a, T>,
    reply: PinReply<T>,
) -> PinStep<'a, T> {
    match (step, reply) {
        (PinStep::Load, PinReply::Loaded(record)) => PinStep::Ask(record),
        (PinStep::Load, PinReply::Failed { .. }) => PinStep::Stop(Notice::NoPinSession),
        (PinStep::Ask(record), PinReply::Gated(verdict)) => step_after_verdict(record, verdict),
        (PinStep::Open(_), PinReply::Opened(secrets)) => PinStep::Configure(secrets),
        (PinStep::Open(record), PinReply::Failed { reason, now }) => step_after_wrong_pin(
            record,
            reason,
            now,
        ),
        (PinStep::SaveRecord(_, notice), _) => PinStep::Stop(notice),
        (PinStep::Wipe(notice), _) => PinStep::Stop(notice),
        (PinStep::Configure(secrets), PinReply::Configured(config)) => PinStep::Refresh(
            config,
            secrets,
        ),
        (PinStep::Configure(_), PinReply::Failed { .. }) => PinStep::Stop(
            Notice::SupabaseNotConfigured,
        ),
        (PinStep::Refresh(_, secrets), PinReply::Refreshed(session)) => PinStep::Enroll(
            session,
            secrets,
        ),
        (PinStep::Refresh(_, _), PinReply::Failed { reason, .. }) => PinStep::Stop(
            Notice::SessionExpired(reason),
        ),
        (PinStep::Enroll(session, secrets), PinReply::Enrolled(token)) => PinStep::StoreToken(
            rotated_secrets(session, secrets, Some(token)),
        ),
        (PinStep::Enroll(session, secrets), PinReply::Failed { .. }) => PinStep::StoreToken(
            rotated_secrets(session, secrets, None),
        ),
        (PinStep::StoreToken(secrets), _) => PinStep::Reseal(secrets),
        (PinStep::Reseal(_), _) => if request.passphrase@.len() > 0 {
            PinStep::Sync(request.sync_order())
        } else {
            PinStep::Stop(Notice::SessionRefreshed)
        },
        (step, _) => step,
    }
}

impl<'a> PinRequest<'a> {
    /// What the fields and the configuration ask for, and the first step: the
    /// server is the one that was typed, else the configured one, and nothing is
    /// tried where both are blank.
    pub fn start<T>(
        typed_server: &'a str,
        configured_server: &'a str,
        username: &'a str,
        passphrase: &'a str,
    ) -> (started: (PinRequest<'a>, PinStep<'a, T>))
        ensures
            started.0 == (PinRequest {
                server: if typed_server@.len() == 0 {
                    configured_server
                } else {
                    typed_server
                },
                username,
                passphrase,
            }),
            started.1 == (if typed_server@.len() == 0 && configured_server@.len() == 0 {
                PinStep::<'a, T>::Stop(Notice::EnterServerUrl)
            } else {
                PinStep::Load
            }),
    {
        let server: &'a str = if typed_server.is_empty() {
            configured_server
        } else {
            typed_server
        };
        let request = PinRequest { server, username, passphrase };
        if server.is_empty() {
            (request, PinStep::Stop(Notice::EnterServerUrl))
        } else {
            (request, PinStep::Load)
        }
    }

    /// The step after `step`, which ended in `reply`.
    pub fn next<T>(&self, step: PinStep<'a, T>, reply: PinReply<T>) -> (next: PinStep<'a, T>)
        ensures
            next == next_pin_step(*self, step, reply),
    {
        match (step, reply) {
            (PinStep::Load, PinReply::Loaded(record)) => PinStep::Ask(record),
            (PinStep::Load, PinReply::Failed { .. }) => PinStep::Stop(Notice::NoPinSession),
            (PinStep::Ask(record), PinReply::Gated(verdict)) => match verdict {
                PinGate::Allow => PinStep::Open(record),
                PinGate::Backoff { seconds } => PinStep::Stop(Notice::TryAgainIn(seconds)),
                PinGate::Wipe => PinStep::Wipe(Notice::SessionWiped),
            },
            (PinStep::Open(_), PinReply::Opened(secrets)) => PinStep::Configure(secrets),
            (PinStep::Open(record), PinReply::Failed { reason, now }) => {
                let mut counted = record;
                if counted.record_failure(now) {
                    PinStep::Wipe(Notice::SessionWiped)
                } else {
                    PinStep::SaveRecord(counted, Notice::PinRejected(reason))
                }
            },
            (PinStep::SaveRecord(_, notice), _) => PinStep::Stop(notice),
            (PinStep::Wipe(notice), _) => PinStep::Stop(notice),
            (PinStep::Configure(secrets), PinReply::Configured(config)) => PinStep::Refresh(
                config,
                secrets,
            ),
            (PinStep::Configure(_), PinReply::Failed { .. }) => PinStep::Stop(
                Notice::SupabaseNotConfigured,
            ),
            (PinStep::Refresh(_, secrets), PinReply::Refreshed(session)) => PinStep::Enroll(
                session,
                secrets,
            ),
            (PinStep::Refresh(_, _), PinReply::Failed { reason, .. }) => PinStep::Stop(
                Notice::SessionExpired(reason),
            ),
            (PinStep::Enroll(session, secrets), PinReply::Enrolled(token)) => PinStep::StoreToken(
                rotate(session, secrets, Some(token)),
            ),
            (PinStep::Enroll(session, secrets), PinReply::Failed { .. }) => PinStep::StoreToken(
                rotate(session, secrets, None),
            ),
            (PinStep::StoreToken(secrets), _) => PinStep::Reseal(secrets),
            (PinStep::Reseal(_), _) => {
                if !self.passphrase.is_empty() {
                    PinStep::Sync(
                        SyncOrder {
                            server: self.server,
                            username: self.username,
                            secret: self.passphrase,
                        },
                    )
                } else {
                    PinStep::Stop(Notice::SessionRefreshed)
                }
            },
            (step, _) => step,
        }
    }
}

/// The sealed session is opened only where another PIN was just allowed: backoff
/// and wipe come first.
pub proof fn law_backoff_comes_before_the_sealed_session<'a, T>(
    request: PinRequest<'a>,
    step: PinStep<'a, T>,
    reply: PinReply<T>,
)
    requires
        !(step is Open),
        next_pin_step(request, step, reply) is Open,
    ensures
        step == PinStep::<'a, T>::Ask(next_pin_step(request, step, reply)->Open_0),
        reply == PinReply::<T>::Gated(PinGate::Allow),
{
}

/// The step that stands after steps with these replies.
pub open spec fn pin_step_after<'a, T>(
    request: PinRequest<'a>,
    step: PinStep<'a, T>,
    replies: Seq<PinReply<T>>,
) -> PinStep<'a, T>
    decreases replies.len(),
{
    if replies.len() == 0 {
        step
    } else {
        next_pin_step(
            request,
            pin_step_after(request, step, replies.drop_last()),
            replies.last(),
        )
    }
}

/// Whether all that is left is to put something away and tell the user.
pub open spec fn is_closing<'a, T>(step: PinStep<'a, T>) -> bool {
    step is SaveRecord || step is Wipe || step is Stop
}

/// What is closing stays so: whatever the replies, nothing is opened, refreshed,
/// enrolled, stored or synced any more.
pub proof fn law_a_closing_refresh_goes_nowhere<'a, T>(
    request: PinRequest<'a>,
    step: PinStep<'a, T>,
    replies: Seq<PinReply<T>>,
)
    requires
        is_closing(step),
    ensures
        is_closing(pin_step_after(request, step, replies)),
    decreases replies.len(),
{
    if replies.len() > 0 {
        law_a_closing_refresh_goes_nowhere(request, step, replies.drop_last());
    }
}

/// A wrong PIN goes nowhere, and the one that reaches the limit has the sealed
/// session removed.
pub proof fn law_a_wrong_pin_goes_nowhere<'a, T>(
    request: PinRequest<'a>,
    record: PinRecord,
    reason: String,
    now: u64,
    replies: Seq<PinReply<T>>,
)
    ensures
        ({
            let failed = next_pin_step(
                request,
                PinStep::<'a, T>::Open(record),
                PinReply::Failed { reason, now },
            );
            &&& is_closing(pin_step_after(request, failed, replies))
            &&& failed is Wipe <==> record.failures + 1 >= MAX_PIN_FAILURES
        }),
{
    let failed = next_pin_step(
        request,
        PinStep::<'a, T>::Open(record),
        PinReply::Failed { reason, now },
    );
    law_a_closing_refresh_goes_nowhere(request, failed, replies);
}

/// The sync that a refresh leads to runs on the chosen server and as the
/// remembered user, and under the passphrase; without one there is no sync.
pub proof fn law_a_sync_runs_under_the_passphrase<'a, T>(
    request: PinRequest<'a>,
    replies: Seq<PinReply<T>>,
)
    ensures
        pin_step_after(request, PinStep::<'a, T>::Load, replies) is Sync ==> {
            &&& request.passphrase@.len() > 0
            &&& pin_step_after(request, PinStep::<'a, T>::Load, replies) == PinStep::<
                'a,
                T,
            >::Sync(request.sync_order())
        },
    decreases replies.len(),
{
    if replies.len() > 0 {
        law_a_sync_runs_under_the_passphrase(request, replies.drop_last());
    }
}

/// Every wrong PIN is counted: below the limit the record that is written back holds
/// one failure more, at the second of this one, and the user is told why; at the
/// limit the sealed session is wiped, and the user is told that.
pub proof fn law_every_wrong_pin_is_counted<'a, T>(
    request: PinRequest<'a>,
    record: PinRecord,
    reason: String,
    now: u64,
)
    ensures
        ({
            let failed = next_pin_step(
                request,
                PinStep::<'a, T>::Open(record),
                PinReply::Failed { reason, now },
            );
            if record.failures + 1 < MAX_PIN_FAILURES {
                failed matches PinStep::SaveRecord(saved, notice) && saved.failures
                    == record.failures + 1 && saved.last_failure_unix == now && notice
                    == Notice::PinRejected(reason)
            } else {
                failed == PinStep::<'a, T>::Wipe(Notice::SessionWiped)
            }
        }),
{
}

/// The record that is left of a sealed session after wrong PINs at these seconds,
/// each tried on the record that the one before had written back; none once the
/// session is wiped.
pub open spec fn record_after_wrong_pins<'a, T>(
    request: PinRequest<'a>,
    record: PinRecord,
    reason: String,
    times: Seq<u64>,
) -> Option<PinRecord>
    decreases times.len(),
{
    if times.len() == 0 {
        Some(record)
    } else {
        match record_after_wrong_pins::<T>(request, record, reason, times.drop_last()) {
            Some(before) => match next_pin_step(
                request,
                PinStep::<'a, T>::Open(before),
                PinReply::Failed { reason, now: times.last() },
            ) {
                PinStep::SaveRecord(saved, _) => Some(saved),
                _ => None,
            },
            None => None,
        }
    }
}

/// Over attempts: on a fresh session each wrong PIN adds one to the count that is
/// kept, and the one that reaches the limit wipes the session, whenever they are
/// tried.
pub proof fn law_wrong_pins_add_up_to_a_wipe<'a, T>(
    request: PinRequest<'a>,
    record: PinRecord,
    reason: String,
    times: Seq<u64>,
)
    requires
        record.failures == 0,
    ensures
        match record_after_wrong_pins::<T>(request, record, reason, times) {
            Some(kept) => {
                &&& times.len() < MAX_PIN_FAILURES
                &&& kept.failures == times.len()
                &&& times.len() > 0 ==> kept.last_failure_unix == times.last()
            },
            None => times.len() >= MAX_PIN_FAILURES,
        },
    decreases times.len(),
{
    if times.len() > 0 {
        law_wrong_pins_add_up_to_a_wipe::<T>(request, record, reason, times.drop_last());
    }
}

/// The verdict on another attempt is followed: the PIN is tried on the record that
/// was loaded, or the user is told how long to wait, or the session is wiped.
pub proof fn law_the_verdict_is_followed<'a, T>(
    request: PinRequest<'a>,
    record: PinRecord,
    seconds: u64,
)
    ensures
        next_pin_step(request, PinStep::<'a, T>::Load, PinReply::Loaded(record))
            == PinStep::<'a, T>::Ask(record),
        next_pin_step(request, PinStep::<'a, T>::Ask(record), PinReply::Gated(PinGate::Allow))
            == PinStep::<'a, T>::Open(record),
        next_pin_step(
            request,
            PinStep::<'a, T>::Ask(record),
            PinReply::Gated(PinGate::Backoff { seconds }),
        ) == PinStep::<'a, T>::Stop(Notice::TryAgainIn(seconds)),
        next_pin_step(request, PinStep::<'a, T>::Ask(record), PinReply::Gated(PinGate::Wipe))
            == PinStep::<'a, T>::Wipe(Notice::SessionWiped),
{
}

/// A right PIN has the session refreshed by the sealed refresh token, and the tokens
/// rotated: what is kept and sealed anew is the new refresh token, and the sync
/// token of the new enrolment, or else, where enrolling failed, the sealed one.
pub proof fn law_a_right_pin_rotates_the_tokens<'a, T>(
    request: PinRequest<'a>,
    record: PinRecord,
    secrets: SessionSecrets<T>,
    config: SupabaseConfig,
    session: ProviderSession<T>,
    token: T,
    reason: String,
    now: u64,
    kept: PinReply<T>,
)
    ensures
        next_pin_step(request, PinStep::Open(record), PinReply::Opened(secrets)) == PinStep::<
            'a,
            T,
        >::Configure(secrets),
        next_pin_step(request, PinStep::Configure(secrets), PinReply::Configured(config))
            == PinStep::<'a, T>::Refresh(config, secrets),
        next_pin_step(request, PinStep::Refresh(config, secrets), PinReply::Refreshed(session))
            == PinStep::<'a, T>::Enroll(session, secrets),
        next_pin_step(request, PinStep::Enroll(session, secrets), PinReply::Enrolled(token))
            matches PinStep::StoreToken(rotated) && rotated.refresh_token
            == session.refresh_token && rotated.sync_token == token,
        next_pin_step(request, PinStep::Enroll(session, secrets), PinReply::Failed { reason, now })
            matches PinStep::StoreToken(rotated) && rotated.refresh_token
            == session.refresh_token && rotated.sync_token == secrets.sync_token,
        next_pin_step(request, PinStep::StoreToken(secrets), kept) == PinStep::<'a, T>::Reseal(
            secrets,
        ),
{
}

/// Once the tokens were sealed anew, or could not be, a passphrase has the vault
/// synced on the chosen server, as the remembered user and under that passphrase;
/// without one the user is told that the session is refreshed.
pub proof fn law_a_refresh_ends_by_the_passphrase<'a, T>(
    request: PinRequest<'a>,
    secrets: SessionSecrets<T>,
    resealed: PinReply<T>,
)
    ensures
        ({
            let end = next_pin_step(request, PinStep::Reseal(secrets), resealed);
            if request.passphrase@.len() > 0 {
                end matches PinStep::Sync(order) && order.server@ == request.server@
                    && order.username@ == request.username@ && order.secret@
                    == request.passphrase@
            } else {
                end == PinStep::<'a, T>::Stop(Notice::SessionRefreshed)
            }
        }),
{
}

/// A refresh that fails stops there, and the user is told which step failed, and
/// why where the provider gave a reason. What is put away on the way out, a record
/// or the whole session, does not change what the user is told.
pub proof fn law_a_refresh_that_fails_is_told<'a, T>(
    request: PinRequest<'a>,
    record: PinRecord,
    secrets: SessionSecrets<T>,
    config: SupabaseConfig,
    notice: Notice,
    reason: String,
    now: u64,
    reply: PinReply<T>,
)
    ensures
        next_pin_step(request, PinStep::<'a, T>::Load, PinReply::Failed { reason, now })
            == PinStep::<'a, T>::Stop(Notice::NoPinSession),
        next_pin_step(request, PinStep::Configure(secrets), PinReply::Failed { reason, now })
            == PinStep::<'a, T>::Stop(Notice::SupabaseNotConfigured),
        next_pin_step(request, PinStep::Refresh(config, secrets), PinReply::Failed { reason, now })
            == PinStep::<'a, T>::Stop(Notice::SessionExpired(reason)),
        next_pin_step(request, PinStep::SaveRecord(record, notice), reply) == PinStep::<
            'a,
            T,
        >::Stop(notice),
        next_pin_step(request, PinStep::Wipe(notice), reply) == PinStep::<'a, T>::Stop(notice),
{
}

/// A refresh moves on only by an answer to its step, and is over once it stopped or
/// led to a sync.
pub proof fn law_a_refresh_waits_for_its_answer<'a, T>(
    request: PinRequest<'a>,
    step: PinStep<'a, T>,
    reply: PinReply<T>,
)
    requires
        match step {
            PinStep::Load => !(reply is Loaded) && !(reply is Failed),
            PinStep::Ask(_) => !(reply is Gated),
            PinStep::Open(_) => !(reply is Opened) && !(reply is Failed),
            PinStep::Configure(_) => !(reply is Configured) && !(reply is Failed),
            PinStep::Refresh(_, _) => !(reply is Refreshed) && !(reply is Failed),
            PinStep::Enroll(_, _) => !(reply is Enrolled) && !(reply is Failed),
            PinStep::SaveRecord(_, _)
            | PinStep::Wipe(_)
            | PinStep::StoreToken(_)
            | PinStep::Reseal(_) => false,
            PinStep::Sync(_) | PinStep::Stop(_) => true,
        },
    ensures
        next_pin_step(request, step, reply) == step,
{
}

} // verus!

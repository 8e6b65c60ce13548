//! Signing in with the identity provider and enrolling this device: which step
//! follows on which, what it works with, and what the user is told when one
//! fails.
//!
//! `T` is the text of a credential, which is only ever handed on.

use crate::notice::Notice;
use crate::sync_run::SyncOrder;
use vstd::prelude::*;

verus! {

/// What the identity provider is addressed with.
#[derive(Clone, Debug, PartialEq, Eq)]
pub struct SupabaseConfig {
    pub project_url: String,
    pub anon_key: String,
}

/// The provider's configuration, which needs both parts.
pub fn supabase_config(url: Option<&str>, anon_key: Option<&str>) -> (config: Result<
    SupabaseConfig,
    Notice,
>)
    ensures
        match config {
            Ok(config) => {
                &&& url is Some && config.project_url@ == url->0@
                &&& anon_key is Some && config.anon_key@ == anon_key->0@
            },
            Err(notice) => {
                &&& url is None || anon_key is None
                &&& notice == Notice::SupabaseNotConfigured
            },
        },
{
    match (url, anon_key) {
        (Some(url), Some(anon_key)) => Ok(
            SupabaseConfig { project_url: url.to_owned(), anon_key: anon_key.to_owned() },
        ),
        _ => Err(Notice::SupabaseNotConfigured),
    }
}

/// A session with the identity provider.
#[derive(Clone, Debug, PartialEq, Eq)]
pub struct ProviderSession<T> {
    pub access_token: T,
    pub refresh_token: T,
}

/// What is sealed under the PIN: enough to get a new session without a password.
#[derive(Clone, Debug, PartialEq, Eq)]
pub struct SessionSecrets<T> {
    pub refresh_token: T,
    pub sync_token: T,
}

/// What signing in does next.
#[derive(Clone, Debug, PartialEq, Eq)]
pub enum SignInStep<'a, T> {
    /// Judge the PIN.
    CheckPin,
    /// Find the provider's configuration.
    Configure,
    /// Ask the provider for a session, with email and password.
    SignIn(SupabaseConfig),
    /// Enrol this device with the sync server, by the access token.
    Enroll(ProviderSession<T>),
    /// Keep the sync token for the server.
    StoreToken(ProviderSession<T>, T),
    /// Seal these under the PIN.
    SealSession(SessionSecrets<T>),
    /// Write what was sealed.
    StoreSession,
    /// Remember server and email.
    SaveIdentity,
    /// Run this sync.
    Sync(SyncOrder<'a>),
    /// Nothing more; tell the user.
    Stop(Notice),
}

/// How a step ended.
#[derive(Clone, Debug, PartialEq, Eq)]
pub enum SignInReply<T> {
    Done,
    Configured(SupabaseConfig),
    SignedIn(ProviderSession<T>),
    /// The device is enrolled, under this sync token.
    Enrolled(T),
    Failed(String),
}

/// The fields of the sign-in form.
#[derive(Clone, Copy, PartialEq, Eq)]
pub struct SignInRequest<'a> {
    pub server: &'a str,
    pub email: &'a str,
    pub password: &'a str,
    /// What the synced vault is sealed under; blank for no sync.
    pub passphrase: &'a str,
    /// What the session is sealed under; blank for no sealed session.
    pub pin: &'a str,
}

impl<'a> SignInRequest<'a> {
    /// Whether a field is blank that signing in needs.
    pub open spec fn is_blank(self) -> bool {
        self.server@.len() == 0 || self.email@.len() == 0 || self.password@.len() == 0
    }

    /// Whether a session is to be sealed under a PIN.
    pub open spec fn has_pin(self) -> bool {
        self.pin@.len() > 0
    }

    /// The sync that follows: on the same server, as the same user, sealed under
    /// the passphrase and not the password.
    pub open spec fn sync_order(self) -> SyncOrder<'a> {
        SyncOrder { server: self.server, username: self.email, secret: self.passphrase }
    }
}

/// Whether `reply` is the verdict on a PIN that is `well_formed` or not and `weak`
/// or not: good exactly where it is well formed and not weak.
pub open spec fn is_pin_verdict<T>(reply: SignInReply<T>, well_formed: bool, weak: bool) -> bool {
    if well_formed && !weak {
        reply is Done
    } else {
        reply matches SignInReply::Failed(reason) && reason@ == Seq::<char>::empty()
    }
}

/// The verdict on a PIN that is `well_formed` or not and `weak` or not.
pub fn pin_reply<T>(well_formed: bool, weak: bool) -> (reply: SignInReply<T>)
    ensures
        is_pin_verdict(reply, well_formed, weak),
        reply is Done <==> well_formed && !weak,
        !(reply is Done) ==> reply is Failed && reply->Failed_0@ == Seq::<char>::empty(),
{
    if well_formed && !weak {
        SignInReply::Done
    } else {
        SignInReply::Failed(String::new())
    }
}

/// The first step: nothing is tried with a blank field, and a PIN is judged
/// before anything else.
pub open spec fn first_sign_in_step<'a, T>(request: SignInRequest<'a>) -> SignInStep<'a, T> {
    if request.is_blank() {
        SignInStep::Stop(Notice::EnterServerEmailPassword)
    } else if request.has_pin() {
        SignInStep::CheckPin
    } else {
        SignInStep::Configure
    }
}

/// What the user is told when `step` fails for `reason`, if that stops the
/// sign-in.
pub open spec fn sign_in_failure<'a, T>(step: SignInStep<'a, T>, reason: String) -> Option<
    Notice,
> {
    match step {
        SignInStep::CheckPin => Some(Notice::PinRule),
        SignInStep::Configure => Some(Notice::SupabaseNotConfigured),
        SignInStep::SignIn(_) => Some(Notice::SignInFailed(reason)),
        SignInStep::Enroll(_) => Some(Notice::EnrollFailed(reason)),
        SignInStep::StoreToken(_, _) => Some(Notice::TokenNotStored(reason)),
        SignInStep::SealSession(_) => Some(Notice::PinNotSet(reason)),
        SignInStep::StoreSession => Some(Notice::SessionNotStored(reason)),
        _ => None,
    }
}

/// The step after the identity was remembered.
pub open spec fn sign_in_end<'a, T>(request: SignInRequest<'a>) -> SignInStep<'a, T> {
    if request.passphrase@.len() > 0 {
        SignInStep::Sync(request.sync_order())
    } else {
        SignInStep::Stop(Notice::SignedInPassphraseNeeded)
    }
}

/// The step after `step`, which ended in `reply`. Remembering the identity is
/// best effort; a reply that does not answer the step leaves it standing.
pub open spec fn next_sign_in_step<'a, T>(
    request: SignInRequest<'a>,
    step: SignInStep<'a, T>,
    reply: SignInReply<T>,
) -> SignInStep<'a, T> {
    match (step, reply) {
        (SignInStep::SaveIdentity, _) => sign_in_end(request),
        (step, SignInReply::Failed(reason)) => match sign_in_failure(step, reason) {
            Some(notice) => SignInStep::Stop(notice),
            None => step,
        },
        (SignInStep::CheckPin, SignInReply::Done) => SignInStep::Configure,
        (SignInStep::Configure, SignInReply::Configured(config)) => SignInStep::SignIn(config),
        (SignInStep::SignIn(_), SignInReply::SignedIn(session)) => SignInStep::Enroll(session),
        (SignInStep::Enroll(session), SignInReply::Enrolled(token)) => SignInStep::StoreToken(
            session,
            token,
        ),
        (SignInStep::StoreToken(session, token), SignInReply::Done) => if request.has_pin() {
            SignInStep::SealSession(
                SessionSecrets { refresh_token: session.refresh_token, sync_token: token },
            )
        } else {
            SignInStep::SaveIdentity
        },
        (SignInStep::SealSession(_), SignInReply::Done) => SignInStep::StoreSession,
        (SignInStep::StoreSession, SignInReply::Done) => SignInStep::SaveIdentity,
        (step, _) => step,
    }
}

impl<'a> SignInRequest<'a> {
    /// The first step.
    pub fn start<T>(&self) -> (step: SignInStep<'a, T>)
        ensures
            step == first_sign_in_step::<T>(*self),
    {
        if self.server.is_empty() || self.email.is_empty() || self.password.is_empty() {
            SignInStep::Stop(Notice::EnterServerEmailPassword)
        } else if !self.pin.is_empty() {
            SignInStep::CheckPin
        } else {
            SignInStep::Configure
        }
    }

    /// The step after `step`, which ended in `reply`.
    pub fn next<T>(&self, step: SignInStep<'a, T>, reply: SignInReply<T>) -> (next: SignInStep<
        'a,
        T,
    >)
        ensures
            next == next_sign_in_step(*self, step, reply),
    {
        match (step, reply) {
            (SignInStep::CheckPin, SignInReply::Done) => SignInStep::Configure,
            (SignInStep::CheckPin, SignInReply::Failed(_)) => SignInStep::Stop(Notice::PinRule),
            (SignInStep::Configure, SignInReply::Configured(config)) => SignInStep::SignIn(config),
            (SignInStep::Configure, SignInReply::Failed(_)) => SignInStep::Stop(
                Notice::SupabaseNotConfigured,
            ),
            (SignInStep::SignIn(_), SignInReply::SignedIn(session)) => SignInStep::Enroll(session),
            (SignInStep::SignIn(_), SignInReply::Failed(reason)) => SignInStep::Stop(
                Notice::SignInFailed(reason),
            ),
            (SignInStep::Enroll(session), SignInReply::Enrolled(token)) => SignInStep::StoreToken(
                session,
                token,
            ),
            (SignInStep::Enroll(_), SignInReply::Failed(reason)) => SignInStep::Stop(
                Notice::EnrollFailed(reason),
            ),
            (SignInStep::StoreToken(session, token), SignInReply::Done) => {
                if !self.pin.is_empty() {
                    SignInStep::SealSession(
                        SessionSecrets { refresh_token: session.refresh_token, sync_token: token },
                    )
                } else {
                    SignInStep::SaveIdentity
                }
            },
            (SignInStep::StoreToken(_, _), SignInReply::Failed(reason)) => SignInStep::Stop(
                Notice::TokenNotStored(reason),
            ),
            (SignInStep::SealSession(_), SignInReply::Done) => SignInStep::StoreSession,
            (SignInStep::SealSession(_), SignInReply::Failed(reason)) => SignInStep::Stop(
                Notice::PinNotSet(reason),
            ),
            (SignInStep::StoreSession, SignInReply::Done) => SignInStep::SaveIdentity,
            (SignInStep::StoreSession, SignInReply::Failed(reason)) => SignInStep::Stop(
                Notice::SessionNotStored(reason),
            ),
            (SignInStep::SaveIdentity, _) => {
                if !self.passphrase.is_empty() {
                    SignInStep::Sync(
                        SyncOrder {
                            server: self.server,
                            username: self.email,
                            secret: self.passphrase,
                        },
                    )
                } else {
                    SignInStep::Stop(Notice::SignedInPassphraseNeeded)
                }
            },
            (step, _) => step,
        }
    }
}

/// The step that stands after steps with these replies.
pub open spec fn sign_in_step_after<'a, T>(
    request: SignInRequest<'a>,
    replies: Seq<SignInReply<T>>,
) -> SignInStep<'a, T>
    decreases replies.len(),
{
    if replies.len() == 0 {
        first_sign_in_step(request)
    } else {
        next_sign_in_step(
            request,
            sign_in_step_after(request, replies.drop_last()),
            replies.last(),
        )
    }
}

/// A blank field stops the sign-in for good, before any step.
pub proof fn law_a_blank_field_stops_the_sign_in<'a, T>(
    request: SignInRequest<'a>,
    replies: Seq<SignInReply<T>>,
)
    requires
        request.is_blank(),
    ensures
        sign_in_step_after(request, replies) == SignInStep::<'a, T>::Stop(
            Notice::EnterServerEmailPassword,
        ),
    decreases replies.len(),
{
    if replies.len() > 0 {
        law_a_blank_field_stops_the_sign_in(request, replies.drop_last());
    }
}

/// A PIN that is malformed or weak stops the sign-in before any network work: it
/// never leaves the device enrolled, nor its token stored with no sealed session
/// to unlock it.
pub proof fn law_a_bad_pin_leaves_no_trace<'a, T>(
    request: SignInRequest<'a>,
    well_formed: bool,
    weak: bool,
    replies: Seq<SignInReply<T>>,
)
    requires
        !request.is_blank(),
        request.has_pin(),
        !well_formed || weak,
        replies.len() > 0,
        is_pin_verdict(replies[0], well_formed, weak),
    ensures
        first_sign_in_step::<T>(request) == SignInStep::<'a, T>::CheckPin,
        sign_in_step_after(request, replies) == SignInStep::<'a, T>::Stop(Notice::PinRule),
    decreases replies.len(),
{
    if replies.len() > 1 {
        law_a_bad_pin_leaves_no_trace(request, well_formed, weak, replies.drop_last());
    } else {
        assert(sign_in_step_after(request, replies.drop_last())
            == SignInStep::<'a, T>::CheckPin);
    }
}

/// With a PIN the identity is remembered only once the sealed session is written.
pub proof fn law_the_session_is_sealed_before_the_identity_is_saved<'a, T>(
    request: SignInRequest<'a>,
    step: SignInStep<'a, T>,
    reply: SignInReply<T>,
)
    requires
        request.has_pin(),
        next_sign_in_step(request, step, reply) is SaveIdentity,
    ensures
        step is StoreSession,
        reply is Done,
{
}

/// What is sealed is the refresh token of the provider's session and the sync
/// token of the enrolment that used that session.
pub proof fn law_the_sealed_secrets_belong_together<'a, T>(
    request: SignInRequest<'a>,
    session: ProviderSession<T>,
    token: T,
)
    requires
        request.has_pin(),
    ensures
        ({
            let enrolled = next_sign_in_step(
                request,
                SignInStep::Enroll(session),
                SignInReply::Enrolled(token),
            );
            next_sign_in_step(request, enrolled, SignInReply::Done) == SignInStep::<
                'a,
                T,
            >::SealSession(
                SessionSecrets { refresh_token: session.refresh_token, sync_token: token },
            )
        }),
{
}

/// The sync that a sign-in leads to runs on the server and as the user of the
/// form, and under the separate passphrase; without one there is no sync.
pub proof fn law_a_sync_runs_under_the_passphrase<'a, T>(
    request: SignInRequest<'a>,
    replies: Seq<SignInReply<T>>,
)
    ensures
        sign_in_step_after(request, replies) is Sync ==> {
            &&& request.passphrase@.len() > 0
            &&& sign_in_step_after(request, replies) == SignInStep::<'a, T>::Sync(
                request.sync_order(),
            )
        },
    decreases replies.len(),
{
    if replies.len() > 0 {
        law_a_sync_runs_under_the_passphrase(request, replies.drop_last());
    }
}

/// A sync is reached only where no step before it failed, apart from remembering
/// the identity, which is best effort.
pub proof fn law_a_sync_follows_only_on_success<'a, T>(
    request: SignInRequest<'a>,
    replies: Seq<SignInReply<T>>,
    i: int,
)
    requires
        sign_in_step_after(request, replies) is Sync,
        0 <= i < replies.len(),
        !(sign_in_step_after(request, replies.take(i)) is SaveIdentity),
        !(sign_in_step_after(request, replies.take(i)) is Sync),
    ensures
        !(replies[i] is Failed),
{
    if replies[i] is Failed {
        lemma_a_stop_lasts(request, replies, i);
    }
}

proof fn lemma_a_stop_lasts<'a, T>(
    request: SignInRequest<'a>,
    replies: Seq<SignInReply<T>>,
    i: int,
)
    requires
        0 <= i < replies.len(),
        replies[i] is Failed,
        !(sign_in_step_after(request, replies.take(i)) is SaveIdentity),
        !(sign_in_step_after(request, replies.take(i)) is Sync),
    ensures
        sign_in_step_after(request, replies) is Stop,
    decreases replies.len(),
{
    if i == replies.len() - 1 {
        assert(replies.drop_last() =~= replies.take(i));
    } else {
        assert(replies.drop_last().take(i) =~= replies.take(i));
        lemma_a_stop_lasts(request, replies.drop_last(), i);
    }
}

/// A sign-in starts only with server, email and password given, and then with the
/// PIN where there is one.
pub proof fn law_a_sign_in_starts_with_the_form<'a, T>(request: SignInRequest<'a>)
    ensures
        ({
            let step = first_sign_in_step::<T>(request);
            let given = request.server@.len() > 0 && request.email@.len() > 0
                && request.password@.len() > 0;
            &&& !given <==> step == SignInStep::<'a, T>::Stop(Notice::EnterServerEmailPassword)
            &&& given && request.pin@.len() > 0 <==> step is CheckPin
            &&& given && request.pin@.len() == 0 <==> step is Configure
        }),
{
}

/// A sign-in that goes well, with or without a PIN: a good PIN leads to the
/// configuration, the configuration to the provider, the provider's session to the
/// enrolment, and the token of the enrolment is kept.
pub proof fn law_a_sign_in_asks_provider_and_server<'a, T>(
    request: SignInRequest<'a>,
    config: SupabaseConfig,
    session: ProviderSession<T>,
    token: T,
)
    ensures
        next_sign_in_step(request, SignInStep::<'a, T>::CheckPin, SignInReply::Done)
            is Configure,
        next_sign_in_step(
            request,
            SignInStep::<'a, T>::Configure,
            SignInReply::Configured(config),
        ) == SignInStep::<'a, T>::SignIn(config),
        next_sign_in_step(
            request,
            SignInStep::<'a, T>::SignIn(config),
            SignInReply::SignedIn(session),
        ) == SignInStep::<'a, T>::Enroll(session),
        next_sign_in_step(request, SignInStep::Enroll(session), SignInReply::Enrolled(token))
            == SignInStep::<'a, T>::StoreToken(session, token),
{
}

/// Once the token is kept, a PIN has the session's refresh token and the sync token
/// sealed and written, and without one nothing is sealed; either way the identity
/// is remembered next.
pub proof fn law_a_pin_has_the_session_sealed<'a, T>(
    request: SignInRequest<'a>,
    session: ProviderSession<T>,
    token: T,
    secrets: SessionSecrets<T>,
)
    ensures
        ({
            let kept = next_sign_in_step(
                request,
                SignInStep::StoreToken(session, token),
                SignInReply::Done,
            );
            if request.pin@.len() > 0 {
                kept matches SignInStep::SealSession(sealed) && sealed.refresh_token
                    == session.refresh_token && sealed.sync_token == token
            } else {
                kept is SaveIdentity
            }
        }),
        next_sign_in_step(request, SignInStep::SealSession(secrets), SignInReply::Done)
            is StoreSession,
        next_sign_in_step(request, SignInStep::<'a, T>::StoreSession, SignInReply::Done)
            is SaveIdentity,
{
}

/// Once the identity is remembered, or could not be, a passphrase has the vault
/// synced on the server and as the user of the form, under that passphrase; without
/// one the user is asked for it.
pub proof fn law_a_sign_in_ends_by_the_passphrase<'a, T>(
    request: SignInRequest<'a>,
    remembered: SignInReply<T>,
)
    ensures
        ({
            let end = next_sign_in_step(request, SignInStep::SaveIdentity, remembered);
            if request.passphrase@.len() > 0 {
                end matches SignInStep::Sync(order) && order.server@ == request.server@
                    && order.username@ == request.email@ && order.secret@ == request.passphrase@
            } else {
                end == SignInStep::<'a, T>::Stop(Notice::SignedInPassphraseNeeded)
            }
        }),
{
}

/// A sign-in that fails stops there, and the user is told which step failed, and
/// why where the outside world gave a reason.
pub proof fn law_a_sign_in_that_fails_is_told<'a, T>(
    request: SignInRequest<'a>,
    config: SupabaseConfig,
    session: ProviderSession<T>,
    token: T,
    secrets: SessionSecrets<T>,
    reason: String,
)
    ensures
        next_sign_in_step(request, SignInStep::<'a, T>::CheckPin, SignInReply::Failed(reason))
            == SignInStep::<'a, T>::Stop(Notice::PinRule),
        next_sign_in_step(request, SignInStep::<'a, T>::Configure, SignInReply::Failed(reason))
            == SignInStep::<'a, T>::Stop(Notice::SupabaseNotConfigured),
        next_sign_in_step(
            request,
            SignInStep::<'a, T>::SignIn(config),
            SignInReply::Failed(reason),
        ) == SignInStep::<'a, T>::Stop(Notice::SignInFailed(reason)),
        next_sign_in_step(request, SignInStep::Enroll(session), SignInReply::Failed(reason))
            == SignInStep::<'a, T>::Stop(Notice::EnrollFailed(reason)),
        next_sign_in_step(
            request,
            SignInStep::StoreToken(session, token),
            SignInReply::Failed(reason),
        ) == SignInStep::<'a, T>::Stop(Notice::TokenNotStored(reason)),
        next_sign_in_step(request, SignInStep::SealSession(secrets), SignInReply::Failed(reason))
            == SignInStep::<'a, T>::Stop(Notice::PinNotSet(reason)),
        next_sign_in_step(
            request,
            SignInStep::<'a, T>::StoreSession,
            SignInReply::Failed(reason),
        ) == SignInStep::<'a, T>::Stop(Notice::SessionNotStored(reason)),
{
}

/// A sign-in moves on only by an answer to its step, and is over once it stopped or
/// led to a sync.
pub proof fn law_a_sign_in_waits_for_its_answer<'a, T>(
    request: SignInRequest<'a>,
    step: SignInStep<'a, T>,
    reply: SignInReply<T>,
)
    requires
        match step {
            SignInStep::CheckPin
            | SignInStep::StoreToken(_, _)
            | SignInStep::SealSession(_)
            | SignInStep::StoreSession => !(reply is Done) && !(reply is Failed),
            SignInStep::Configure => !(reply is Configured) && !(reply is Failed),
            SignInStep::SignIn(_) => !(reply is SignedIn) && !(reply is Failed),
            SignInStep::Enroll(_) => !(reply is Enrolled) && !(reply is Failed),
            SignInStep::SaveIdentity => false,
            SignInStep::Sync(_) | SignInStep::Stop(_) => true,
        },
    ensures
        next_sign_in_step(request, step, reply) == step,
{
}

/// Whether, along `replies`, `step` stood at `i` and was answered by `reply`.
pub open spec fn was_answered<'a, T>(
    request: SignInRequest<'a>,
    replies: Seq<SignInReply<T>>,
    i: int,
    step: SignInStep<'a, T>,
    reply: SignInReply<T>,
) -> bool {
    &&& 0 <= i < replies.len()
    &&& sign_in_step_after(request, replies.take(i)) == step
    &&& replies[i] == reply
}

proof fn lemma_was_answered_before<'a, T>(
    request: SignInRequest<'a>,
    replies: Seq<SignInReply<T>>,
    i: int,
    step: SignInStep<'a, T>,
    reply: SignInReply<T>,
)
    requires
        replies.len() > 0,
        was_answered(request, replies.drop_last(), i, step, reply),
    ensures
        was_answered(request, replies, i, step, reply),
{
    assert(replies.drop_last().take(i) =~= replies.take(i));
}

proof fn lemma_enrolling_follows_a_session<'a, T>(
    request: SignInRequest<'a>,
    replies: Seq<SignInReply<T>>,
    session: ProviderSession<T>,
) -> (at: (int, SupabaseConfig))
    requires
        sign_in_step_after(request, replies) == SignInStep::<'a, T>::Enroll(session),
    ensures
        was_answered(
            request,
            replies,
            at.0,
            SignInStep::SignIn(at.1),
            SignInReply::SignedIn(session),
        ),
    decreases replies.len(),
{
    let n = replies.len() - 1;
    let before = sign_in_step_after(request, replies.drop_last());
    assert(replies.drop_last() =~= replies.take(n));
    match before {
        SignInStep::SignIn(config) => (n, config),
        _ => {
            let at = lemma_enrolling_follows_a_session(request, replies.drop_last(), session);
            lemma_was_answered_before(
                request,
                replies,
                at.0,
                SignInStep::SignIn(at.1),
                SignInReply::SignedIn(session),
            );
            at
        },
    }
}

proof fn lemma_storing_follows_an_enrolment<'a, T>(
    request: SignInRequest<'a>,
    replies: Seq<SignInReply<T>>,
    session: ProviderSession<T>,
    token: T,
) -> (at: (int, int, SupabaseConfig))
    requires
        sign_in_step_after(request, replies) == SignInStep::<'a, T>::StoreToken(session, token),
    ensures
        at.0 < at.1,
        was_answered(
            request,
            replies,
            at.0,
            SignInStep::SignIn(at.2),
            SignInReply::SignedIn(session),
        ),
        was_answered(
            request,
            replies,
            at.1,
            SignInStep::Enroll(session),
            SignInReply::Enrolled(token),
        ),
    decreases replies.len(),
{
    let n = replies.len() - 1;
    let shorter = replies.drop_last();
    let before = sign_in_step_after(request, shorter);
    assert(shorter =~= replies.take(n));
    let at = if before is Enroll {
        let first = lemma_enrolling_follows_a_session(request, shorter, session);
        (first.0, n, first.1)
    } else {
        let at = lemma_storing_follows_an_enrolment(request, shorter, session, token);
        lemma_was_answered_before(
            request,
            replies,
            at.1,
            SignInStep::Enroll(session),
            SignInReply::Enrolled(token),
        );
        at
    };
    lemma_was_answered_before(
        request,
        replies,
        at.0,
        SignInStep::SignIn(at.2),
        SignInReply::SignedIn(session),
    );
    at
}

/// Whether a step comes only once the device is signed in: the session is sealed,
/// the identity remembered, the vault synced or the passphrase asked for.
pub open spec fn is_signed_in<'a, T>(step: SignInStep<'a, T>) -> bool {
    ||| step is SealSession
    ||| step is StoreSession
    ||| step is SaveIdentity
    ||| step is Sync
    ||| step == SignInStep::<'a, T>::Stop(Notice::SignedInPassphraseNeeded)
}

proof fn lemma_signed_in<'a, T>(
    request: SignInRequest<'a>,
    replies: Seq<SignInReply<T>>,
) -> (at: (int, int, int, SupabaseConfig, ProviderSession<T>, T))
    requires
        is_signed_in(sign_in_step_after(request, replies)),
    ensures
        at.0 < at.1 < at.2,
        was_answered(
            request,
            replies,
            at.0,
            SignInStep::SignIn(at.3),
            SignInReply::SignedIn(at.4),
        ),
        was_answered(
            request,
            replies,
            at.1,
            SignInStep::Enroll(at.4),
            SignInReply::Enrolled(at.5),
        ),
        was_answered(
            request,
            replies,
            at.2,
            SignInStep::StoreToken(at.4, at.5),
            SignInReply::Done,
        ),
    decreases replies.len(),
{
    let n = replies.len() - 1;
    let shorter = replies.drop_last();
    assert(shorter =~= replies.take(n));
    let at = match sign_in_step_after(request, shorter) {
        SignInStep::StoreToken(session, token) => {
            let first = lemma_storing_follows_an_enrolment(request, shorter, session, token);
            (first.0, first.1, n, first.2, session, token)
        },
        _ => {
            let at = lemma_signed_in(request, shorter);
            lemma_was_answered_before(
                request,
                replies,
                at.2,
                SignInStep::StoreToken(at.4, at.5),
                SignInReply::Done,
            );
            at
        },
    };
    lemma_was_answered_before(
        request,
        replies,
        at.0,
        SignInStep::SignIn(at.3),
        SignInReply::SignedIn(at.4),
    );
    lemma_was_answered_before(
        request,
        replies,
        at.1,
        SignInStep::Enroll(at.4),
        SignInReply::Enrolled(at.5),
    );
    at
}

/// Signed in means signed in: with or without a PIN, along any replies, the
/// identity is remembered and a sync or `Signed in` is reached only after the
/// provider handed out a session, the server enrolled the device by that session,
/// and the token of that enrolment was kept, in this order.
pub proof fn law_signed_in_only_with_a_kept_token<'a, T>(
    request: SignInRequest<'a>,
    replies: Seq<SignInReply<T>>,
)
    requires
        ({
            let step = sign_in_step_after(request, replies);
            ||| step is SaveIdentity
            ||| step is Sync
            ||| step == SignInStep::<'a, T>::Stop(Notice::SignedInPassphraseNeeded)
        }),
    ensures
        exists|
            i: int,
            j: int,
            k: int,
            config: SupabaseConfig,
            session: ProviderSession<T>,
            token: T,
        |
            i < j < k && #[trigger] was_answered(
                request,
                replies,
                i,
                SignInStep::SignIn(config),
                SignInReply::SignedIn(session),
            ) && #[trigger] was_answered(
                request,
                replies,
                j,
                SignInStep::Enroll(session),
                SignInReply::Enrolled(token),
            ) && #[trigger] was_answered(
                request,
                replies,
                k,
                SignInStep::StoreToken(session, token),
                SignInReply::Done,
            ),
{
    let at = lemma_signed_in(request, replies);
}

} // verus!

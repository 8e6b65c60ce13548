//! Logging in to the sync server, and one round of sync: which step follows on
//! which, and what the user is told when one fails.

use crate::notice::Notice;
use crate::text::same_text;
use vstd::prelude::*;

verus! {

/// The name under which this program enrols with a server.
pub const DEVICE_NAME: &'static str = "3FA Desktop";

/// Where this device syncs to, and as whom.
#[derive(Clone, Debug, PartialEq, Eq)]
pub struct SyncIdentity {
    pub server_url: String,
    pub username: String,
}

impl SyncIdentity {
    /// Remember a server and a user name.
    pub fn set(&mut self, server: &str, username: &str)
        ensures
            final(self).server_url@ == server@,
            final(self).username@ == username@,
    {
        self.server_url = server.to_owned();
        self.username = username.to_owned();
    }
}

/// Whether the configuration is to be written: exactly where the device id is not
/// the one it was, as on the first run.
pub fn device_id_changed(before: &str, after: &str) -> (changed: bool)
    ensures
        changed == (before@ != after@),
{
    !same_text(before, after)
}

/// One round of sync: with which server, as whom, and under which secret.
#[derive(Clone, Copy, Debug, PartialEq, Eq)]
pub struct SyncOrder<'a> {
    pub server: &'a str,
    pub username: &'a str,
    pub secret: &'a str,
}

/// Whether an account is new or known.
#[derive(Clone, Copy, Debug, PartialEq, Eq, Structural)]
pub enum AuthKind {
    Register,
    Login,
}

/// What logging in does next. `T` is a sync token, which is only handed on.
#[derive(Clone, Debug, PartialEq, Eq)]
pub enum AuthStep<'a, T> {
    /// Register the account with the server, or log in to it.
    Authenticate(AuthKind),
    /// Keep the sync token for the server.
    StoreToken(T),
    /// Remember server and user name.
    SaveIdentity,
    /// Run this sync.
    Sync(SyncOrder<'a>),
    /// Nothing more; tell the user.
    Stop(Notice),
}

/// How a step of logging in ended.
#[derive(Clone, Debug, PartialEq, Eq)]
pub enum AuthReply<T> {
    Done,
    /// The device is enrolled, under this sync token.
    Enrolled(T),
    Failed(String),
}

/// The fields of the log-in form, where the password also seals the synced vault.
#[derive(Clone, Copy, PartialEq, Eq)]
pub struct AuthRequest<'a> {
    pub kind: AuthKind,
    pub server: &'a str,
    pub username: &'a str,
    pub password: &'a str,
}

impl<'a> AuthRequest<'a> {
    /// The sync that follows, under the same password.
    pub open spec fn sync_order(self) -> SyncOrder<'a> {
        SyncOrder { server: self.server, username: self.username, secret: self.password }
    }
}

/// The step after `step`, which ended in `reply`. Remembering the identity is
/// best effort; a reply that does not answer the step leaves it standing.
pub open spec fn next_auth_step<'a, T>(
    request: AuthRequest<'a>,
    step: AuthStep<'a, T>,
    reply: AuthReply<T>,
) -> AuthStep<'a, T> {
    match (step, reply) {
        (AuthStep::Authenticate(_), AuthReply::Enrolled(token)) => AuthStep::StoreToken(token),
        (AuthStep::Authenticate(_), AuthReply::Failed(reason)) => AuthStep::Stop(
            Notice::AuthFailed(reason),
        ),
        (AuthStep::StoreToken(_), AuthReply::Done) => AuthStep::SaveIdentity,
        (AuthStep::StoreToken(_), AuthReply::Failed(reason)) => AuthStep::Stop(
            Notice::TokenNotStored(reason),
        ),
        (AuthStep::SaveIdentity, _) => AuthStep::Sync(request.sync_order()),
        (step, _) => step,
    }
}

impl<'a> AuthRequest<'a> {
    /// The first step of logging in: nothing is tried with a blank field.
    pub fn start<T>(&self) -> (step: AuthStep<'a, T>)
        ensures
            step == (if self.server@.len() == 0 || self.username@.len() == 0
                || self.password@.len() == 0 {
                AuthStep::<'a, T>::Stop(Notice::EnterServerUsernamePassword)
            } else {
                AuthStep::Authenticate(self.kind)
            }),
    {
        if self.server.is_empty() || self.username.is_empty() || self.password.is_empty() {
            AuthStep::Stop(Notice::EnterServerUsernamePassword)
        } else {
            AuthStep::Authenticate(self.kind)
        }
    }

    /// The step after `step`, which ended in `reply`.
    pub fn next<T>(&self, step: AuthStep<'a, T>, reply: AuthReply<T>) -> (next: AuthStep<'a, T>)
        ensures
            next == next_auth_step(*self, step, reply),
    {
        match (step, reply) {
            (AuthStep::Authenticate(_), AuthReply::Enrolled(token)) => AuthStep::StoreToken(token),
            (AuthStep::Authenticate(_), AuthReply::Failed(reason)) => AuthStep::Stop(
                Notice::AuthFailed(reason),
            ),
            (AuthStep::StoreToken(_), AuthReply::Done) => AuthStep::SaveIdentity,
            (AuthStep::StoreToken(_), AuthReply::Failed(reason)) => AuthStep::Stop(
                Notice::TokenNotStored(reason),
            ),
            (AuthStep::SaveIdentity, _) => AuthStep::Sync(
                SyncOrder {
                    server: self.server,
                    username: self.username,
                    secret: self.password,
                },
            ),
            (step, _) => step,
        }
    }
}

/// The sync after logging in follows only on a token that was handed out and
/// kept.
pub proof fn law_a_log_in_syncs_only_with_a_token<'a, T>(
    request: AuthRequest<'a>,
    step: AuthStep<'a, T>,
    reply: AuthReply<T>,
)
    requires
        ({
            let next = next_auth_step(request, step, reply);
            next is SaveIdentity || next is Sync
        }),
    ensures
        (step is StoreToken && reply is Done) || step is SaveIdentity || step is Sync,
{
}

/// A log-in that goes well is one: the token that the server hands out is the one
/// that is kept, and then, remembered or not, the vault is synced on the server and
/// as the user of the form, under its password.
pub proof fn law_a_log_in_that_goes_well_ends_in_a_sync<'a, T>(
    request: AuthRequest<'a>,
    kind: AuthKind,
    token: T,
    remembered: AuthReply<T>,
)
    ensures
        next_auth_step(request, AuthStep::Authenticate(kind), AuthReply::Enrolled(token))
            == AuthStep::<'a, T>::StoreToken(token),
        next_auth_step(request, AuthStep::StoreToken(token), AuthReply::Done) == AuthStep::<
            'a,
            T,
        >::SaveIdentity,
        next_auth_step(request, AuthStep::SaveIdentity, remembered) matches AuthStep::Sync(order)
            && order.server@ == request.server@ && order.username@ == request.username@
            && order.secret@ == request.password@,
{
}

/// A log-in that fails stops there, and the user is told which step failed and
/// why.
pub proof fn law_a_log_in_that_fails_is_told<'a, T>(
    request: AuthRequest<'a>,
    kind: AuthKind,
    token: T,
    reason: String,
)
    ensures
        next_auth_step(request, AuthStep::<'a, T>::Authenticate(kind), AuthReply::Failed(reason))
            == AuthStep::<'a, T>::Stop(Notice::AuthFailed(reason)),
        next_auth_step(request, AuthStep::StoreToken(token), AuthReply::Failed(reason))
            == AuthStep::<'a, T>::Stop(Notice::TokenNotStored(reason)),
{
}

/// A log-in moves on only by an answer to its step, and is over once it stopped or
/// led to a sync.
pub proof fn law_a_log_in_waits_for_its_answer<'a, T>(
    request: AuthRequest<'a>,
    step: AuthStep<'a, T>,
    reply: AuthReply<T>,
)
    requires
        match step {
            AuthStep::Authenticate(_) => reply is Done,
            AuthStep::StoreToken(_) => reply is Enrolled,
            AuthStep::SaveIdentity => false,
            AuthStep::Sync(_) | AuthStep::Stop(_) => true,
        },
    ensures
        next_auth_step(request, step, reply) == step,
{
}

/// What a round of sync does next. `T` is a sync token, `M` a merged vault; both
/// are only handed on.
#[derive(Clone, Debug, PartialEq, Eq)]
pub enum SyncStep<T, M> {
    /// Find the sync token of the server.
    LoadToken,
    /// Take a copy of the open vault.
    Snapshot(T),
    /// Prepare to talk to the server, by the token.
    Connect(T),
    /// Pull, merge and push.
    Synchronize,
    /// Remember server and user name.
    SaveIdentity(M),
    /// Seal what was merged under the live key, as far as that works.
    Seal(M),
    /// Write the sealed vault, as far as that works.
    Write(M),
    /// Take over what was merged.
    Store(M),
    /// Nothing more, and nothing to tell: the vault was locked meanwhile.
    Dropped,
    /// Nothing more; tell the user.
    Stop(Notice),
}

/// How a step of a sync ended.
#[derive(Clone, Debug, PartialEq, Eq)]
pub enum SyncReply<T, M> {
    Done,
    Token(T),
    Merged(M),
    /// What was merged is taken over, with this many accounts.
    Stored(u64),
    /// The vault is not open any more.
    Locked,
    Failed(String),
}

/// The step after `step`, which ended in `reply`. Remembering the identity and
/// sealing and writing the merge are best effort; a reply that does not answer the
/// step leaves it standing.
pub open spec fn next_sync_step<T, M>(
    step: SyncStep<T, M>,
    reply: SyncReply<T, M>,
) -> SyncStep<T, M> {
    match (step, reply) {
        (SyncStep::LoadToken, SyncReply::Token(token)) => SyncStep::Snapshot(token),
        (SyncStep::LoadToken, SyncReply::Failed(_)) => SyncStep::Stop(Notice::LogInFirst),
        (SyncStep::Snapshot(token), SyncReply::Done) => SyncStep::Connect(token),
        (SyncStep::Snapshot(_), SyncReply::Failed(_)) => SyncStep::Stop(Notice::UnlockToSync),
        (SyncStep::Connect(_), SyncReply::Done) => SyncStep::Synchronize,
        (SyncStep::Connect(_), SyncReply::Failed(reason)) => SyncStep::Stop(
            Notice::TransportFailed(reason),
        ),
        (SyncStep::Synchronize, SyncReply::Merged(merged)) => SyncStep::SaveIdentity(merged),
        (SyncStep::Synchronize, SyncReply::Failed(reason)) => SyncStep::Stop(
            Notice::SyncFailed(reason),
        ),
        (SyncStep::SaveIdentity(merged), _) => SyncStep::Seal(merged),
        (SyncStep::Seal(_), SyncReply::Locked) => SyncStep::Dropped,
        (SyncStep::Seal(merged), _) => SyncStep::Write(merged),
        (SyncStep::Write(merged), _) => SyncStep::Store(merged),
        (SyncStep::Store(_), SyncReply::Stored(accounts)) => SyncStep::Stop(
            Notice::Synced(accounts),
        ),
        (SyncStep::Store(_), SyncReply::Locked) => SyncStep::Dropped,
        (step, _) => step,
    }
}

impl<T, M> SyncStep<T, M> {
    /// The first step of a sync: nothing is tried without a password.
    pub fn start(order: &SyncOrder) -> (step: SyncStep<T, M>)
        ensures
            step == (if order.secret@.len() == 0 {
                SyncStep::<T, M>::Stop(Notice::PasswordToSync)
            } else {
                SyncStep::LoadToken
            }),
    {
        if order.secret.is_empty() {
            SyncStep::Stop(Notice::PasswordToSync)
        } else {
            SyncStep::LoadToken
        }
    }

    /// The step after this one, which ended in `reply`.
    pub fn next(self, reply: SyncReply<T, M>) -> (next: SyncStep<T, M>)
        ensures
            next == next_sync_step(self, reply),
    {
        match (self, reply) {
            (SyncStep::LoadToken, SyncReply::Token(token)) => SyncStep::Snapshot(token),
            (SyncStep::LoadToken, SyncReply::Failed(_)) => SyncStep::Stop(Notice::LogInFirst),
            (SyncStep::Snapshot(token), SyncReply::Done) => SyncStep::Connect(token),
            (SyncStep::Snapshot(_), SyncReply::Failed(_)) => SyncStep::Stop(Notice::UnlockToSync),
            (SyncStep::Connect(_), SyncReply::Done) => SyncStep::Synchronize,
            (SyncStep::Connect(_), SyncReply::Failed(reason)) => SyncStep::Stop(
                Notice::TransportFailed(reason),
            ),
            (SyncStep::Synchronize, SyncReply::Merged(merged)) => SyncStep::SaveIdentity(merged),
            (SyncStep::Synchronize, SyncReply::Failed(reason)) => SyncStep::Stop(
                Notice::SyncFailed(reason),
            ),
            (SyncStep::SaveIdentity(merged), _) => SyncStep::Seal(merged),
            (SyncStep::Seal(_), SyncReply::Locked) => SyncStep::Dropped,
            (SyncStep::Seal(merged), _) => SyncStep::Write(merged),
            (SyncStep::Write(merged), _) => SyncStep::Store(merged),
            (SyncStep::Store(_), SyncReply::Stored(accounts)) => SyncStep::Stop(
                Notice::Synced(accounts),
            ),
            (SyncStep::Store(_), SyncReply::Locked) => SyncStep::Dropped,
            (step, _) => step,
        }
    }
}

/// The step that stands after steps with these replies.
pub open spec fn sync_step_after<T, M>(
    step: SyncStep<T, M>,
    replies: Seq<SyncReply<T, M>>,
) -> SyncStep<T, M>
    decreases replies.len(),
{
    if replies.len() == 0 {
        step
    } else {
        next_sync_step(sync_step_after(step, replies.drop_last()), replies.last())
    }
}

/// A round of sync that has stopped stays stopped, and the vault is touched no
/// more.
pub proof fn law_a_stopped_sync_stores_nothing<T, M>(
    notice: Notice,
    replies: Seq<SyncReply<T, M>>,
)
    ensures
        sync_step_after(SyncStep::<T, M>::Stop(notice), replies) == SyncStep::<T, M>::Stop(notice),
    decreases replies.len(),
{
    if replies.len() > 0 {
        law_a_stopped_sync_stores_nothing(notice, replies.drop_last());
    }
}

/// The merged vault that a step works with.
pub open spec fn merge_at<T, M>(step: SyncStep<T, M>) -> Option<M> {
    match step {
        SyncStep::SaveIdentity(merged)
        | SyncStep::Seal(merged)
        | SyncStep::Write(merged)
        | SyncStep::Store(merged) => Some(merged),
        _ => None,
    }
}

/// What is sealed, written and stored is what a round with the server has merged:
/// along any replies, it came as the merge of one of them.
pub proof fn law_only_a_merge_is_stored<T, M>(replies: Seq<SyncReply<T, M>>, merged: M)
    requires
        merge_at(sync_step_after(SyncStep::<T, M>::LoadToken, replies)) == Some(merged),
    ensures
        replies.contains(SyncReply::Merged(merged)),
    decreases replies.len(),
{
    let shorter = replies.drop_last();
    if merge_at(sync_step_after(SyncStep::<T, M>::LoadToken, shorter)) == Some(merged) {
        law_only_a_merge_is_stored(shorter, merged);
        let i = choose|i: int| 0 <= i < shorter.len() && shorter[i] == SyncReply::<T, M>::Merged(
            merged,
        );
        assert(replies[i] == shorter[i]);
    } else {
        assert(replies.last() == SyncReply::<T, M>::Merged(merged));
    }
}

/// The merge is taken over only after sealing and writing it were tried.
pub proof fn law_a_merge_is_written_before_it_is_taken_over<T, M>(
    step: SyncStep<T, M>,
    reply: SyncReply<T, M>,
    merged: M,
)
    requires
        next_sync_step(step, reply) == SyncStep::<T, M>::Store(merged),
    ensures
        step == SyncStep::<T, M>::Write(merged) || step == SyncStep::<T, M>::Store(merged),
{
}

/// A round of sync talks to the server by the token that was found, over a vault
/// that is open, and in this order: find the token, copy the vault, connect by that
/// token, and then pull, merge and push.
pub proof fn law_a_round_reaches_the_server<T, M>(token: T)
    ensures
        next_sync_step(SyncStep::<T, M>::LoadToken, SyncReply::Token(token)) == SyncStep::<
            T,
            M,
        >::Snapshot(token),
        next_sync_step(SyncStep::<T, M>::Snapshot(token), SyncReply::Done) == SyncStep::<
            T,
            M,
        >::Connect(token),
        next_sync_step(SyncStep::<T, M>::Connect(token), SyncReply::Done) == SyncStep::<
            T,
            M,
        >::Synchronize,
{
}

/// A merge reaches the vault: whether or not the identity was remembered, the merge
/// that came back is sealed; unless the vault was found locked, it is written,
/// sealed or not; it is then taken over, written or not; and the user is told how
/// many accounts there are now.
pub proof fn law_a_merge_reaches_the_vault<T, M>(
    merged: M,
    remembered: SyncReply<T, M>,
    sealed: SyncReply<T, M>,
    written: SyncReply<T, M>,
    accounts: u64,
)
    ensures
        next_sync_step(SyncStep::<T, M>::Synchronize, SyncReply::Merged(merged)) == SyncStep::<
            T,
            M,
        >::SaveIdentity(merged),
        next_sync_step(SyncStep::SaveIdentity(merged), remembered) == SyncStep::<T, M>::Seal(
            merged,
        ),
        !(sealed is Locked) ==> next_sync_step(SyncStep::Seal(merged), sealed) == SyncStep::<
            T,
            M,
        >::Write(merged),
        next_sync_step(SyncStep::Write(merged), written) == SyncStep::<T, M>::Store(merged),
        next_sync_step(SyncStep::<T, M>::Store(merged), SyncReply::Stored(accounts))
            == SyncStep::<T, M>::Stop(Notice::Synced(accounts)),
{
}

/// A merge is given up exactly where the vault was found locked, when it was to be
/// sealed or to be taken over; nothing else ends a round without a word.
pub proof fn law_a_merge_is_given_up_only_to_a_lock<T, M>(
    step: SyncStep<T, M>,
    reply: SyncReply<T, M>,
)
    requires
        !(step is Dropped),
    ensures
        next_sync_step(step, reply) is Dropped <==> reply is Locked && (step is Seal
            || step is Store),
{
}

/// Along any replies: a round that got a merge and never found the vault locked has
/// not given it up. The merge is on its way into the vault, or is in it and the
/// user was told so.
pub proof fn law_a_merge_is_not_lost<T, M>(replies: Seq<SyncReply<T, M>>, i: int)
    requires
        0 <= i < replies.len(),
        replies[i] is Merged,
        sync_step_after(SyncStep::<T, M>::LoadToken, replies.take(i)) is Synchronize,
        forall|j: int| 0 <= j < replies.len() ==> !(#[trigger] replies[j] is Locked),
    ensures
        ({
            let step = sync_step_after(SyncStep::<T, M>::LoadToken, replies);
            ||| merge_at(step) == Some(replies[i]->Merged_0)
            ||| step matches SyncStep::Stop(notice) && notice is Synced
        }),
    decreases replies.len(),
{
    let shorter = replies.drop_last();
    assert(!(replies.last() is Locked));
    if i == replies.len() - 1 {
        assert(shorter =~= replies.take(i));
    } else {
        assert(shorter.take(i) =~= replies.take(i));
        assert forall|j: int| 0 <= j < shorter.len() implies !(#[trigger] shorter[j] is Locked) by {
            assert(shorter[j] == replies[j]);
        }
        assert(shorter[i] == replies[i]);
        law_a_merge_is_not_lost(shorter, i);
    }
}

/// A round that fails before there is a merge stops there, and the user is told
/// which step failed, and why where the outside world gave a reason.
pub proof fn law_a_round_that_fails_is_told<T, M>(token: T, reason: String)
    ensures
        next_sync_step(SyncStep::<T, M>::LoadToken, SyncReply::Failed(reason)) == SyncStep::<
            T,
            M,
        >::Stop(Notice::LogInFirst),
        next_sync_step(SyncStep::<T, M>::Snapshot(token), SyncReply::Failed(reason))
            == SyncStep::<T, M>::Stop(Notice::UnlockToSync),
        next_sync_step(SyncStep::<T, M>::Connect(token), SyncReply::Failed(reason))
            == SyncStep::<T, M>::Stop(Notice::TransportFailed(reason)),
        next_sync_step(SyncStep::<T, M>::Synchronize, SyncReply::Failed(reason)) == SyncStep::<
            T,
            M,
        >::Stop(Notice::SyncFailed(reason)),
{
}

/// A round moves on only by an answer to its step, and is over once it stopped or
/// was dropped.
pub proof fn law_a_round_waits_for_its_answer<T, M>(step: SyncStep<T, M>, reply: SyncReply<T, M>)
    requires
        match step {
            SyncStep::LoadToken => !(reply is Token) && !(reply is Failed),
            SyncStep::Snapshot(_) | SyncStep::Connect(_) => !(reply is Done)
                && !(reply is Failed),
            SyncStep::Synchronize => !(reply is Merged) && !(reply is Failed),
            SyncStep::SaveIdentity(_) | SyncStep::Seal(_) | SyncStep::Write(_) => false,
            SyncStep::Store(_) => !(reply is Stored) && !(reply is Locked),
            SyncStep::Dropped | SyncStep::Stop(_) => true,
        },
    ensures
        next_sync_step(step, reply) == step,
{
}

} // verus!

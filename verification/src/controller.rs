//! The live state of the application: the sealed vault, the decrypted material
//! while it is open, the lifecycle, and the passcode being typed.

use crate::accounts::{position, with_counter, Account, VaultContents, VaultData};
use crate::app_state::{
    LifecycleState, Operation, OperationToken, Phase, Signal, VaultLifecycle,
};
use crate::notice::{Notice, Screen};
use crate::saving::{EnrolStep, SaveStep};
use crate::text::{byte_len, len_in_bytes, pop_char, sized_buffer, wipe};
use vstd::prelude::*;
use vstd::string::*;

verus! {

/// Bytes in a passcode; typing the last one submits it.
pub const PASSCODE_LENGTH: usize = 6;

/// Bytes that the passcode buffer takes before it would have to move, which
/// would leave a copy of the secret behind.
pub const ENTRY_CAPACITY: usize = 8;

/// Live application state. `F` is a sealed vault file, `K` the key that it is
/// sealed under; `S` and `R` are what an account and a vault hold beyond what is
/// decided on here.
pub struct AppState<F, S, R, K> {
    file: Option<F>,
    data: Option<VaultData<S, R>>,
    dek: Option<K>,
    lifecycle: VaultLifecycle,
    entry: String,
}

/// Mathematical application state.
pub struct AppModel<F, S, R, K> {
    pub file: Option<F>,
    pub data: Option<VaultContents<S, R>>,
    pub dek: Option<K>,
    pub lifecycle: LifecycleState,
    pub entry: Seq<char>,
}

/// What a key press did: the length now entered, and whether that completes the
/// passcode.
#[derive(Clone, Copy, Debug, PartialEq, Eq)]
pub struct KeyPress {
    pub entered: usize,
    pub submit: bool,
}

/// What to do with a submitted passcode.
#[derive(Clone, Debug, PartialEq, Eq)]
pub enum SubmitStep {
    /// Create a vault sealed under it.
    Create(OperationToken),
    /// Unlock the sealed vault with it.
    Unlock(OperationToken),
    /// Nothing; say why.
    Refused(Notice),
}

/// A submitted passcode, and what to do with it.
pub struct Submission {
    pub passcode: String,
    pub step: SubmitStep,
}

impl Submission {
    /// Whether `ended` is this submission with its passcode wiped.
    pub open spec fn ends_as(self, ended: Submission) -> bool {
        &&& ended.passcode@ == Seq::<char>::empty()
        &&& ended.step == self.step
    }

    /// End the submission: wipe its passcode.
    pub fn end(&mut self)
        ensures
            final(self).passcode@ == Seq::<char>::empty(),
            old(self).ends_as(*final(self)),
    {
        wipe(&mut self.passcode);
    }
}

/// How a create or unlock operation ended.
#[derive(Clone, Debug, PartialEq, Eq)]
pub enum SubmitOutcome {
    /// The vault is open.
    Opened(Notice),
    /// The vault is not open.
    Closed(Notice),
}

/// What the session timer says.
#[derive(Clone, Copy, Debug, PartialEq, Eq, Structural)]
pub enum SessionPoll {
    JustLocked,
    Active,
    Locked,
}

/// What a tick of the clock asks of the window.
#[derive(Clone, Copy, Debug, PartialEq, Eq, Structural)]
pub enum TickStep {
    /// Show the lock screen: the vault was locked.
    ShowLock,
    /// Show the codes and countdowns of this second.
    Refresh,
    Nothing,
}

/// A counter that moved in memory and is not written yet.
#[derive(Clone, Copy, Debug, PartialEq, Eq)]
pub struct SpentCode {
    pub previous: u64,
    pub counter: u64,
}

/// What an enrolment URI turned out to be.
pub enum DecodedUri<S> {
    /// A bulk export, which is not taken; the message says so.
    BulkExport(String),
    /// Not an account; the reason says why.
    Invalid(String),
    /// An account.
    Account(Account<S>),
}

/// What an enrolment URI turned out to be, where `bulk` is the message on a bulk
/// export if it is one, and `parsed` is what it reads as. A bulk export is told
/// apart first: whatever it would read as, it is no account and no bad URI.
pub fn decoded<S>(bulk: Option<String>, parsed: Result<Account<S>, String>) -> (uri: DecodedUri<S>)
    ensures
        uri == (match (bulk, parsed) {
            (Some(message), _) => DecodedUri::BulkExport(message),
            (None, Ok(account)) => DecodedUri::Account(account),
            (None, Err(reason)) => DecodedUri::Invalid(reason),
        }),
{
    match (bulk, parsed) {
        (Some(message), _) => DecodedUri::BulkExport(message),
        (None, Ok(account)) => DecodedUri::Account(account),
        (None, Err(reason)) => DecodedUri::Invalid(reason),
    }
}

/// What to do about a request for the next code.
#[derive(Clone, Debug, PartialEq, Eq)]
pub enum SpendStep {
    /// Seal and write the vault, then settle.
    Save(SpentCode),
    /// Nothing; say why.
    Refused(Notice),
    /// Nothing: there is no such account.
    Ignored,
}

impl<F, S, R, K> AppModel<F, S, R, K> {
    /// Whether the lifecycle has the vault open.
    pub open spec fn unlocked(self) -> bool {
        self.lifecycle.phase == Phase::Unlocked
    }

    /// Decrypted contents and the key are held exactly while the lifecycle is
    /// unlocked, and a vault being unlocked or open has a sealed file.
    pub open spec fn wf(self) -> bool {
        &&& self.lifecycle.wf()
        &&& self.data is Some == self.unlocked()
        &&& self.dek is Some == self.unlocked()
        &&& self.unlocked() ==> self.file is Some
        &&& self.lifecycle.phase == Phase::Unlocking ==> self.file is Some
    }

    /// The state at program start, with the sealed vault that was found.
    pub open spec fn starting(file: Option<F>) -> AppModel<F, S, R, K> {
        AppModel {
            file,
            data: None,
            dek: None,
            lifecycle: LifecycleState::initial().next(
                if file is Some {
                    Signal::InitializedVault
                } else {
                    Signal::InitializedEmpty
                },
            ),
            entry: Seq::empty(),
        }
    }

    /// The state without any secret, after `signal`.
    pub open spec fn emptied(self, signal: Signal) -> AppModel<F, S, R, K> {
        AppModel {
            file: self.file,
            data: None,
            dek: None,
            lifecycle: self.lifecycle.next(signal),
            entry: Seq::empty(),
        }
    }

    /// What the passcode buffer holds after `digit` was pressed.
    pub open spec fn typed(self, digit: Seq<char>) -> Seq<char> {
        if byte_len(self.entry) < PASSCODE_LENGTH {
            self.entry + digit
        } else {
            self.entry
        }
    }

    /// What submitting the passcode asks for.
    pub open spec fn submit_step(self) -> SubmitStep {
        if self.lifecycle.phase == Phase::Setup {
            match self.lifecycle.issues(Signal::BeginCreate) {
                Some(token) => SubmitStep::Create(token),
                None => SubmitStep::Refused(Notice::CreateUnavailable),
            }
        } else {
            match self.lifecycle.issues(Signal::BeginUnlock) {
                Some(token) => if self.file is Some {
                    SubmitStep::Unlock(token)
                } else {
                    SubmitStep::Refused(Notice::NoVault)
                },
                None => SubmitStep::Refused(Notice::UnlockUnavailable),
            }
        }
    }

    /// The lifecycle after submitting the passcode: the operation that it asks
    /// for is in flight, and an unlock without a sealed vault failed at once.
    pub open spec fn submit_lifecycle(self) -> LifecycleState {
        if self.lifecycle.phase == Phase::Setup {
            self.lifecycle.next(Signal::BeginCreate)
        } else {
            let begun = self.lifecycle.next(Signal::BeginUnlock);
            match self.lifecycle.issues(Signal::BeginUnlock) {
                Some(token) if self.file is None => begun.next(Signal::OperationFailed(token)),
                _ => begun,
            }
        }
    }

    /// The state after submitting the passcode: the buffer is empty.
    pub open spec fn submitted(self) -> AppModel<F, S, R, K> {
        AppModel { lifecycle: self.submit_lifecycle(), entry: Seq::empty(), ..self }
    }

    /// Whether `submission` is what submitting the passcode hands out: what it asks
    /// for, with the passcode where an operation needs it, and wiped where none was
    /// started.
    pub open spec fn hands_out(self, submission: Submission) -> bool {
        &&& submission.step == self.submit_step()
        &&& submission.passcode@ == if self.submit_step() is Refused {
            Seq::<char>::empty()
        } else {
            self.entry
        }
    }

    /// The state after `token` completed with this material.
    pub open spec fn opened(
        self,
        token: OperationToken,
        file: Option<F>,
        data: VaultContents<S, R>,
        dek: K,
    ) -> AppModel<F, S, R, K> {
        if self.lifecycle.can_complete(token) {
            AppModel {
                file,
                data: Some(data),
                dek: Some(dek),
                lifecycle: self.lifecycle.next(Signal::OperationSucceeded(token)),
                entry: self.entry,
            }
        } else {
            self
        }
    }

    /// The state after `token` failed.
    pub open spec fn failed(self, token: OperationToken) -> AppModel<F, S, R, K> {
        AppModel { lifecycle: self.lifecycle.next(Signal::OperationFailed(token)), ..self }
    }

    /// The state with these accounts in the open vault.
    pub open spec fn with_accounts(self, accounts: Seq<Account<S>>) -> AppModel<F, S, R, K> {
        AppModel { data: Some(VaultContents { accounts, rest: self.data->0.rest }), ..self }
    }

    /// The position of an id in the open vault.
    pub open spec fn account_at(self, id: Seq<char>) -> Option<int> {
        match self.data {
            Some(data) => position(data.accounts, id),
            None => None,
        }
    }

    /// The state with the counter of the account of this id set, if there is
    /// such an account.
    pub open spec fn counter_set(self, id: Seq<char>, counter: u64) -> AppModel<F, S, R, K> {
        match self.account_at(id) {
            Some(index) => self.with_accounts(
                with_counter(self.data->0.accounts, index, counter),
            ),
            None => self,
        }
    }

    /// What a request for the next code of an account leads to, where `advanced`
    /// is the counter's next value, if it has one.
    pub open spec fn spend_step(self, id: Seq<char>, advanced: Option<u64>) -> SpendStep {
        if self.dek is None {
            SpendStep::Refused(Notice::UnlockToAdvance)
        } else {
            match self.account_at(id) {
                None => SpendStep::Ignored,
                Some(index) => {
                    let account = self.data->0.accounts[index];
                    match advanced {
                        Some(counter) => SpendStep::Save(
                            SpentCode { previous: account.counter, counter },
                        ),
                        None => SpendStep::Refused(
                            if account.counter_based {
                                Notice::CounterExhausted
                            } else {
                                Notice::NotCounterBased
                            },
                        ),
                    }
                },
            }
        }
    }

    /// The state after that request.
    pub open spec fn spent(self, id: Seq<char>, advanced: Option<u64>) -> AppModel<F, S, R, K> {
        match self.spend_step(id, advanced) {
            SpendStep::Save(spent) => self.counter_set(id, spent.counter),
            _ => self,
        }
    }

    /// What settling a spent code leads to: it is spent, or, where it could not be
    /// written, its vault is sealed once more with the counter put back.
    pub open spec fn settle_step(spent: SpentCode, written: Result<(), String>) -> SaveStep {
        match written {
            Ok(_) => SaveStep::Stop(Notice::CodeSpent(spent.counter)),
            Err(reason) => SaveStep::SealAgain(Notice::CounterNotSaved(reason)),
        }
    }

    /// The state after settling a spent code.
    pub open spec fn settled(
        self,
        id: Seq<char>,
        spent: SpentCode,
        written: Result<(), String>,
    ) -> AppModel<F, S, R, K> {
        match written {
            Ok(_) => self,
            Err(_) => self.counter_set(id, spent.previous),
        }
    }
}

impl<F, S, R, K> View for AppState<F, S, R, K> {
    type V = AppModel<F, S, R, K>;

    closed spec fn view(&self) -> AppModel<F, S, R, K> {
        AppModel {
            file: self.file,
            data: match self.data {
                Some(data) => Some(data@),
                None => None,
            },
            dek: self.dek,
            lifecycle: self.lifecycle@,
            entry: self.entry@,
        }
    }
}

impl<F, S, R, K> AppState<F, S, R, K> {
    /// The state at program start, with the sealed vault that was found.
    pub fn new(file: Option<F>) -> (state: Self)
        ensures
            state@ == AppModel::<F, S, R, K>::starting(file),
            state@.wf(),
    {
        let mut lifecycle = VaultLifecycle::new();
        lifecycle.initialize(file.is_some());
        AppState { file, data: None, dek: None, lifecycle, entry: sized_buffer(ENTRY_CAPACITY) }
    }

    /// The screen that the program opens on.
    pub fn start_screen(&self) -> (screen: Screen)
        ensures
            screen == (if self@.lifecycle.phase == Phase::Setup {
                Screen::Setup
            } else {
                Screen::Lock
            }),
    {
        if self.lifecycle.phase() == Phase::Setup {
            Screen::Setup
        } else {
            Screen::Lock
        }
    }

    /// The screen behind the settings.
    pub fn screen_behind_settings(&self) -> (screen: Screen)
        ensures
            screen == (if self@.data is Some {
                Screen::Vault
            } else {
                Screen::Lock
            }),
    {
        if self.data.is_some() {
            Screen::Vault
        } else {
            Screen::Lock
        }
    }

    /// The phase of the vault.
    pub fn phase(&self) -> (phase: Phase)
        ensures
            phase == self@.lifecycle.phase,
    {
        self.lifecycle.phase()
    }

    /// The sealed vault.
    pub fn file(&self) -> (file: Option<&F>)
        ensures
            match file {
                Some(file) => self@.file == Some(*file),
                None => self@.file is None,
            },
    {
        self.file.as_ref()
    }

    /// The decrypted vault, while it is open.
    pub fn data(&self) -> (data: Option<&VaultData<S, R>>)
        ensures
            match data {
                Some(data) => self@.data == Some(data@),
                None => self@.data is None,
            },
    {
        self.data.as_ref()
    }

    /// The key of the vault, while it is open.
    pub fn dek(&self) -> (dek: Option<&K>)
        ensures
            match dek {
                Some(dek) => self@.dek == Some(*dek),
                None => self@.dek is None,
            },
    {
        self.dek.as_ref()
    }

    /// What sealing takes: the sealed vault and the key, exactly while the vault is
    /// open.
    pub fn seal_parts(&self) -> (parts: Option<(&F, &K)>)
        requires
            self@.wf(),
        ensures
            parts is Some == self@.unlocked(),
            parts matches Some((file, dek)) ==> self@.file == Some(*file) && self@.dek == Some(
                *dek,
            ),
    {
        match (&self.file, &self.dek) {
            (Some(file), Some(dek)) => Some((file, dek)),
            _ => None,
        }
    }

    /// Lock the vault: drop the decrypted material and wipe the passcode buffer.
    pub fn lock(&mut self)
        requires
            old(self)@.wf(),
        ensures
            final(self)@ == old(self)@.emptied(Signal::Lock),
            final(self)@.wf(),
    {
        self.lifecycle.lock();
        self.data = None;
        self.dek = None;
        wipe(&mut self.entry);
    }

    /// End the program: as `lock`, and for good.
    pub fn dispose(&mut self)
        requires
            old(self)@.wf(),
        ensures
            final(self)@ == old(self)@.emptied(Signal::Dispose),
            final(self)@.wf(),
    {
        self.lifecycle.dispose();
        self.data = None;
        self.dek = None;
        wipe(&mut self.entry);
    }

    /// Type a digit of the passcode. A full buffer takes no more.
    pub fn key_pressed(&mut self, digit: &str) -> (press: KeyPress)
        requires
            old(self)@.wf(),
        ensures
            final(self)@ == (AppModel { entry: old(self)@.typed(digit@), ..old(self)@ }),
            press.entered == byte_len(old(self)@.typed(digit@)),
            press.submit == (byte_len(old(self)@.typed(digit@)) == PASSCODE_LENGTH),
            final(self)@.wf(),
    {
        if len_in_bytes(self.entry.as_str()) < PASSCODE_LENGTH {
            self.entry.append(digit);
        }
        let entered: usize = len_in_bytes(self.entry.as_str());
        KeyPress { entered, submit: entered == PASSCODE_LENGTH }
    }

    /// Take the last digit back. Returns the length that is left.
    pub fn key_backspace(&mut self) -> (entered: usize)
        requires
            old(self)@.wf(),
        ensures
            final(self)@ == (AppModel {
                entry: if old(self)@.entry.len() == 0 {
                    old(self)@.entry
                } else {
                    old(self)@.entry.drop_last()
                },
                ..old(self)@
            }),
            entered == byte_len(final(self)@.entry),
            final(self)@.wf(),
    {
        pop_char(&mut self.entry);
        len_in_bytes(self.entry.as_str())
    }

    /// Submit the passcode: move it out of the buffer and start the operation
    /// that the lifecycle allows. Where there is none the passcode is wiped at once.
    pub fn begin_submit(&mut self) -> (submission: Submission)
        requires
            old(self)@.wf(),
        ensures
            old(self)@.hands_out(submission),
            final(self)@ == old(self)@.submitted(),
            final(self)@.wf(),
    {
        let mut passcode = String::new();
        std::mem::swap(&mut passcode, &mut self.entry);
        let step = if self.lifecycle.phase() == Phase::Setup {
            match self.lifecycle.begin_create() {
                Some(token) => SubmitStep::Create(token),
                None => SubmitStep::Refused(Notice::CreateUnavailable),
            }
        } else {
            match self.lifecycle.begin_unlock() {
                Some(token) => {
                    if self.file.is_some() {
                        SubmitStep::Unlock(token)
                    } else {
                        self.lifecycle.complete(token, false);
                        SubmitStep::Refused(Notice::NoVault)
                    }
                },
                None => SubmitStep::Refused(Notice::UnlockUnavailable),
            }
        };
        let mut submission = Submission { passcode, step };
        match &submission.step {
            SubmitStep::Refused(_) => submission.end(),
            _ => {},
        }
        submission
    }

    /// End a creation that `begin_submit` asked for, and wipe its passcode. Material
    /// that comes back after the operation was invalidated is dropped.
    pub fn finish_create(
        &mut self,
        token: OperationToken,
        submission: &mut Submission,
        created: Result<(F, VaultData<S, R>, K), String>,
    ) -> (outcome: SubmitOutcome)
        requires
            old(self)@.wf(),
        ensures
            match created {
                Ok((file, data, dek)) => {
                    &&& final(self)@ == old(self)@.opened(token, Some(file), data@, dek)
                    &&& outcome == if old(self)@.lifecycle.can_complete(token) {
                        SubmitOutcome::Opened(Notice::VaultCreated)
                    } else {
                        SubmitOutcome::Closed(Notice::CreateCancelled)
                    }
                },
                Err(reason) => {
                    &&& final(self)@ == old(self)@.failed(token)
                    &&& outcome == SubmitOutcome::Closed(Notice::CreateFailed(reason))
                },
            },
            old(submission).ends_as(*final(submission)),
            final(self)@.wf(),
    {
        submission.end();
        match created {
            Ok((file, data, dek)) => {
                if !self.lifecycle.complete(token, true) {
                    return SubmitOutcome::Closed(Notice::CreateCancelled);
                }
                self.file = Some(file);
                self.data = Some(data);
                self.dek = Some(dek);
                SubmitOutcome::Opened(Notice::VaultCreated)
            },
            Err(reason) => {
                self.lifecycle.complete(token, false);
                SubmitOutcome::Closed(Notice::CreateFailed(reason))
            },
        }
    }

    /// End an unlock that `begin_submit` asked for, and wipe its passcode: with the
    /// decrypted material, or without where the passcode was wrong.
    pub fn finish_unlock(
        &mut self,
        token: OperationToken,
        submission: &mut Submission,
        unlocked: Option<(VaultData<S, R>, K)>,
    ) -> (outcome: SubmitOutcome)
        requires
            old(self)@.wf(),
            token.operation == Operation::Unlock,
        ensures
            match unlocked {
                Some((data, dek)) => {
                    &&& final(self)@ == old(self)@.opened(token, old(self)@.file, data@, dek)
                    &&& outcome == if old(self)@.lifecycle.can_complete(token) {
                        SubmitOutcome::Opened(Notice::Nothing)
                    } else {
                        SubmitOutcome::Closed(Notice::UnlockCancelled)
                    }
                },
                None => {
                    &&& final(self)@ == old(self)@.failed(token)
                    &&& outcome == SubmitOutcome::Closed(Notice::WrongPasscode)
                },
            },
            old(submission).ends_as(*final(submission)),
            final(self)@.wf(),
    {
        submission.end();
        match unlocked {
            Some((data, dek)) => {
                if !self.lifecycle.complete(token, true) {
                    return SubmitOutcome::Closed(Notice::UnlockCancelled);
                }
                self.data = Some(data);
                self.dek = Some(dek);
                SubmitOutcome::Opened(Notice::Nothing)
            },
            None => {
                self.lifecycle.complete(token, false);
                SubmitOutcome::Closed(Notice::WrongPasscode)
            },
        }
    }

    /// Take over a vault file that was sealed anew.
    pub fn store_file(&mut self, file: F)
        requires
            old(self)@.wf(),
        ensures
            final(self)@ == (AppModel { file: Some(file), ..old(self)@ }),
            final(self)@.wf(),
    {
        self.file = Some(file);
    }

    /// Put an account into the open vault. Returns whether there is one.
    pub fn add_account(&mut self, account: Account<S>) -> (added: bool)
        requires
            old(self)@.wf(),
        ensures
            added == (old(self)@.data is Some),
            final(self)@ == (match old(self)@.data {
                Some(data) => old(self)@.with_accounts(data.accounts.push(account)),
                None => old(self)@,
            }),
            final(self)@.wf(),
    {
        match &mut self.data {
            Some(data) => {
                data.accounts.push(account);
                true
            },
            None => false,
        }
    }

    /// Enrol what a typed or scanned URI stands for. A vault that took an account
    /// in is sealed and written next.
    pub fn enrol(&mut self, uri: DecodedUri<S>) -> (step: EnrolStep)
        requires
            old(self)@.wf(),
        ensures
            match uri {
                DecodedUri::BulkExport(message) => {
                    &&& final(self)@ == old(self)@
                    &&& step == EnrolStep::Stop(Notice::Verbatim(message))
                },
                DecodedUri::Invalid(reason) => {
                    &&& final(self)@ == old(self)@
                    &&& step == EnrolStep::Stop(Notice::BadUri(reason))
                },
                DecodedUri::Account(account) => match old(self)@.data {
                    Some(data) => {
                        &&& final(self)@ == old(self)@.with_accounts(data.accounts.push(account))
                        &&& step == EnrolStep::Seal
                    },
                    None => {
                        &&& final(self)@ == old(self)@
                        &&& step == EnrolStep::Stop(Notice::UnlockToAdd)
                    },
                },
            },
            final(self)@.wf(),
    {
        match uri {
            DecodedUri::BulkExport(message) => EnrolStep::Stop(Notice::Verbatim(message)),
            DecodedUri::Invalid(reason) => EnrolStep::Stop(Notice::BadUri(reason)),
            DecodedUri::Account(account) => {
                if self.add_account(account) {
                    EnrolStep::Seal
                } else {
                    EnrolStep::Stop(Notice::UnlockToAdd)
                }
            },
        }
    }

    /// Move the counter of an account to `advanced`, its next value, in memory.
    /// The code on screen is spent once the vault is written.
    pub fn spend_code(&mut self, id: &str, advanced: Option<u64>) -> (step: SpendStep)
        requires
            old(self)@.wf(),
        ensures
            step == old(self)@.spend_step(id@, advanced),
            final(self)@ == old(self)@.spent(id@, advanced),
            final(self)@.wf(),
    {
        match &mut self.data {
            None => SpendStep::Refused(Notice::UnlockToAdvance),
            Some(data) => {
                match data.find(id) {
                    None => SpendStep::Ignored,
                    Some(index) => {
                        match advanced {
                            Some(counter) => {
                                let previous: u64 = data.accounts[index].counter;
                                data.accounts[index].counter = counter;
                                SpendStep::Save(SpentCode { previous, counter })
                            },
                            None => {
                                if data.accounts[index].counter_based {
                                    SpendStep::Refused(Notice::CounterExhausted)
                                } else {
                                    SpendStep::Refused(Notice::NotCounterBased)
                                }
                            },
                        }
                    },
                }
            },
        }
    }

    /// Settle a spent code once the vault was written, or not: a counter that
    /// could not be written is put back, so that the code on screen is never one
    /// that the vault does not hold.
    pub fn settle_code(
        &mut self,
        id: &str,
        spent: SpentCode,
        written: Result<(), String>,
    ) -> (step: SaveStep)
        requires
            old(self)@.wf(),
        ensures
            step == AppModel::<F, S, R, K>::settle_step(spent, written),
            final(self)@ == old(self)@.settled(id@, spent, written),
            final(self)@.wf(),
    {
        match written {
            Ok(_) => SaveStep::Stop(Notice::CodeSpent(spent.counter)),
            Err(reason) => {
                match &mut self.data {
                    None => {},
                    Some(data) => {
                        match data.find(id) {
                            None => {},
                            Some(index) => {
                                data.accounts[index].counter = spent.previous;
                            },
                        }
                    },
                }
                SaveStep::SealAgain(Notice::CounterNotSaved(reason))
            },
        }
    }

    /// Take over what a sync merged. Returns the number of accounts, or nothing
    /// where the vault was locked meanwhile and the merge was dropped.
    pub fn store_merged(&mut self, merged: VaultData<S, R>) -> (accounts: Option<usize>)
        requires
            old(self)@.wf(),
        ensures
            old(self)@.dek is Some ==> {
                &&& final(self)@ == (AppModel { data: Some(merged@), ..old(self)@ })
                &&& accounts == Some(merged.accounts.len())
            },
            old(self)@.dek is None ==> {
                &&& final(self)@ == old(self)@
                &&& accounts is None
            },
            final(self)@.wf(),
    {
        if self.dek.is_none() {
            return None;
        }
        let accounts: usize = merged.accounts.len();
        self.data = Some(merged);
        Some(accounts)
    }

    /// Follow the session timer: lock the vault when the session has just run
    /// out, and show fresh codes while it runs and the vault is on screen.
    pub fn tick(&mut self, poll: SessionPoll, screen_is_vault: bool) -> (step: TickStep)
        requires
            old(self)@.wf(),
        ensures
            step == (match poll {
                SessionPoll::JustLocked => TickStep::ShowLock,
                SessionPoll::Active if screen_is_vault => TickStep::Refresh,
                _ => TickStep::Nothing,
            }),
            final(self)@ == (if poll == SessionPoll::JustLocked {
                old(self)@.emptied(Signal::Lock)
            } else {
                old(self)@
            }),
            final(self)@.wf(),
    {
        match poll {
            SessionPoll::JustLocked => {
                self.lock();
                TickStep::ShowLock
            },
            SessionPoll::Active => {
                if screen_is_vault {
                    TickStep::Refresh
                } else {
                    TickStep::Nothing
                }
            },
            SessionPoll::Locked => TickStep::Nothing,
        }
    }
}

} // verus!

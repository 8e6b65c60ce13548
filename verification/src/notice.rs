//! The lines that the user is shown, and the screens that they stand on.

use crate::text::{decimal, decimal_text};
use vstd::prelude::*;
use vstd::string::*;

verus! {

/// A line for the user.
#[derive(Clone, Debug, PartialEq, Eq)]
pub enum Notice {
    /// No message.
    Nothing,
    /// A message that another part of the program worded.
    Verbatim(String),
    /// A code is on the clipboard.
    Copied,
    /// The user locked the vault.
    Locked,
    /// The session ran out and the vault was locked.
    AutoLocked,
    /// A further factor extended the session.
    SessionExtended,
    /// The session was not extended.
    SecondFactorNeeded,
    /// The lifecycle does not allow creating a vault now.
    CreateUnavailable,
    /// The vault was locked while it was being created.
    CreateCancelled,
    /// A new vault is open.
    VaultCreated,
    /// The vault could not be created.
    CreateFailed(String),
    /// The lifecycle does not allow unlocking now.
    UnlockUnavailable,
    /// There is no sealed vault to unlock.
    NoVault,
    /// The vault was locked while it was being unlocked.
    UnlockCancelled,
    /// The passcode does not open the vault.
    WrongPasscode,
    /// Accounts are added to an open vault only.
    UnlockToAdd,
    /// An account was added.
    AccountAdded,
    /// The enrolment URI was not understood.
    BadUri(String),
    /// Counters advance in an open vault only.
    UnlockToAdvance,
    /// The counter has no next value.
    CounterExhausted,
    /// The account's codes follow the clock.
    NotCounterBased,
    /// The counter moved on to the given value.
    CodeSpent(u64),
    /// The advanced counter could not be written.
    CounterNotSaved(String),
    /// A sign-in field is blank.
    EnterServerEmailPassword,
    /// The PIN is malformed or trivial.
    PinRule,
    /// The identity provider is not configured.
    SupabaseNotConfigured,
    /// The identity provider refused.
    SignInFailed(String),
    /// The sync server refused the device.
    EnrollFailed(String),
    /// The sync token could not be kept.
    TokenNotStored(String),
    /// The sealed session could not be written.
    SessionNotStored(String),
    /// The session could not be sealed under the PIN.
    PinNotSet(String),
    /// Signed in; a sync follows.
    SignedInSyncing,
    /// Signed in; a sync needs the passphrase.
    SignedInPassphraseNeeded,
    /// No sync server is known.
    EnterServerUrl,
    /// This device has no sealed session.
    NoPinSession,
    /// Too many PIN attempts; the seconds left to wait.
    TryAgainIn(u64),
    /// Too many failed PINs; the sealed session is gone.
    SessionWiped,
    /// The PIN does not open the sealed session.
    PinRejected(String),
    /// The identity provider refused the refresh token.
    SessionExpired(String),
    /// The PIN refreshed the session.
    SessionRefreshed,
    /// A log-in field is blank.
    EnterServerUsernamePassword,
    /// Logged in; a sync follows.
    AuthenticatedSyncing,
    /// The sync server refused the credentials.
    AuthFailed(String),
    /// The account password is blank.
    PasswordToSync,
    /// This device has no sync token.
    LogInFirst,
    /// Only an open vault is synced.
    UnlockToSync,
    /// The sync server could not be addressed.
    TransportFailed(String),
    /// The sync is done; the number of accounts now held.
    Synced(u64),
    /// The sync did not go through.
    SyncFailed(String),
}

impl Notice {
    /// The wording.
    pub open spec fn wording(self) -> Seq<char> {
        match self {
            Notice::Nothing => ""@,
            Notice::Verbatim(message) => message@,
            Notice::Copied => "Copied to clipboard"@,
            Notice::Locked => "Locked"@,
            Notice::AutoLocked => "Auto-locked"@,
            Notice::SessionExtended => "Session extended"@,
            Notice::SecondFactorNeeded => "Need a second factor to extend"@,
            Notice::CreateUnavailable => "Vault creation is not available in the current state"@,
            Notice::CreateCancelled => "Vault creation was cancelled by a lock"@,
            Notice::VaultCreated => "Vault created"@,
            Notice::CreateFailed(reason) => "Could not create vault: "@ + reason@,
            Notice::UnlockUnavailable => "Vault unlock is not available in the current state"@,
            Notice::NoVault => "No vault found"@,
            Notice::UnlockCancelled => "Vault unlock was cancelled by a lock"@,
            Notice::WrongPasscode => "Wrong passcode"@,
            Notice::UnlockToAdd => "Unlock the vault before adding accounts"@,
            Notice::AccountAdded => "Account added"@,
            Notice::BadUri(reason) => "Bad otpauth URI: "@ + reason@,
            Notice::UnlockToAdvance => "Unlock the vault before advancing a counter"@,
            Notice::CounterExhausted => "This account has reached its counter limit"@,
            Notice::NotCounterBased => "Only counter-based (HOTP) accounts have a next code"@,
            Notice::CodeSpent(number) => "Now showing code "@ + decimal_text(number as nat) + " — the previous one is spent"@,
            Notice::CounterNotSaved(reason) => "Could not save the new counter: "@ + reason@,
            Notice::EnterServerEmailPassword => "Enter server, email and password"@,
            Notice::PinRule => "PIN must be 6 digits and not a trivial sequence"@,
            Notice::SupabaseNotConfigured => "Supabase is not configured — set supabase_url and supabase_anon_key in config.json"@,
            Notice::SignInFailed(reason) => "Supabase sign-in failed: "@ + reason@,
            Notice::EnrollFailed(reason) => "Device enrollment failed: "@ + reason@,
            Notice::TokenNotStored(reason) => "Could not store token: "@ + reason@,
            Notice::SessionNotStored(reason) => "Could not store PIN session: "@ + reason@,
            Notice::PinNotSet(reason) => "PIN not set: "@ + reason@,
            Notice::SignedInSyncing => "Signed in with Supabase — syncing…"@,
            Notice::SignedInPassphraseNeeded => "Signed in. Enter your sync passphrase and press Sync now to sync the vault."@,
            Notice::EnterServerUrl => "Enter the sync server URL"@,
            Notice::NoPinSession => "No PIN session on this device — sign in with Supabase first"@,
            Notice::TryAgainIn(number) => "Too many attempts — try again in "@ + decimal_text(number as nat) + "s"@,
            Notice::SessionWiped => "Too many failed PIN attempts — session wiped; sign in with Supabase"@,
            Notice::PinRejected(reason) => "PIN rejected: "@ + reason@,
            Notice::SessionExpired(reason) => "Session expired ("@ + reason@ + ") — sign in with Supabase again"@,
            Notice::SessionRefreshed => "Session refreshed with PIN"@,
            Notice::EnterServerUsernamePassword => "Enter server, username and password"@,
            Notice::AuthenticatedSyncing => "Authenticated — syncing…"@,
            Notice::AuthFailed(reason) => "Auth failed: "@ + reason@,
            Notice::PasswordToSync => "Enter your account password to sync"@,
            Notice::LogInFirst => "Log in or register first"@,
            Notice::UnlockToSync => "Unlock the vault before syncing"@,
            Notice::TransportFailed(reason) => "Transport error: "@ + reason@,
            Notice::Synced(number) => "Synced — "@ + decimal_text(number as nat) + " accounts"@,
            Notice::SyncFailed(reason) => "Sync failed: "@ + reason@,
        }
    }

    /// The wording.
    pub fn text(&self) -> (text: String)
        ensures
            text@ == self.wording(),
    {
        match self {
            Notice::Nothing => "".to_owned(),
            Notice::Verbatim(message) => message.clone(),
            Notice::Copied => "Copied to clipboard".to_owned(),
            Notice::Locked => "Locked".to_owned(),
            Notice::AutoLocked => "Auto-locked".to_owned(),
            Notice::SessionExtended => "Session extended".to_owned(),
            Notice::SecondFactorNeeded => "Need a second factor to extend".to_owned(),
            Notice::CreateUnavailable => "Vault creation is not available in the current state".to_owned(),
            Notice::CreateCancelled => "Vault creation was cancelled by a lock".to_owned(),
            Notice::VaultCreated => "Vault created".to_owned(),
            Notice::CreateFailed(reason) => "Could not create vault: ".to_owned().concat(reason.as_str()),
            Notice::UnlockUnavailable => "Vault unlock is not available in the current state".to_owned(),
            Notice::NoVault => "No vault found".to_owned(),
            Notice::UnlockCancelled => "Vault unlock was cancelled by a lock".to_owned(),
            Notice::WrongPasscode => "Wrong passcode".to_owned(),
            Notice::UnlockToAdd => "Unlock the vault before adding accounts".to_owned(),
            Notice::AccountAdded => "Account added".to_owned(),
            Notice::BadUri(reason) => "Bad otpauth URI: ".to_owned().concat(reason.as_str()),
            Notice::UnlockToAdvance => "Unlock the vault before advancing a counter".to_owned(),
            Notice::CounterExhausted => "This account has reached its counter limit".to_owned(),
            Notice::NotCounterBased => "Only counter-based (HOTP) accounts have a next code".to_owned(),
            Notice::CodeSpent(number) => "Now showing code ".to_owned().concat(decimal(*number).as_str()).concat(" — the previous one is spent"),
            Notice::CounterNotSaved(reason) => "Could not save the new counter: ".to_owned().concat(reason.as_str()),
            Notice::EnterServerEmailPassword => "Enter server, email and password".to_owned(),
            Notice::PinRule => "PIN must be 6 digits and not a trivial sequence".to_owned(),
            Notice::SupabaseNotConfigured => "Supabase is not configured — set supabase_url and supabase_anon_key in config.json".to_owned(),
            Notice::SignInFailed(reason) => "Supabase sign-in failed: ".to_owned().concat(reason.as_str()),
            Notice::EnrollFailed(reason) => "Device enrollment failed: ".to_owned().concat(reason.as_str()),
            Notice::TokenNotStored(reason) => "Could not store token: ".to_owned().concat(reason.as_str()),
            Notice::SessionNotStored(reason) => "Could not store PIN session: ".to_owned().concat(reason.as_str()),
            Notice::PinNotSet(reason) => "PIN not set: ".to_owned().concat(reason.as_str()),
            Notice::SignedInSyncing => "Signed in with Supabase — syncing…".to_owned(),
            Notice::SignedInPassphraseNeeded => "Signed in. Enter your sync passphrase and press Sync now to sync the vault.".to_owned(),
            Notice::EnterServerUrl => "Enter the sync server URL".to_owned(),
            Notice::NoPinSession => "No PIN session on this device — sign in with Supabase first".to_owned(),
            Notice::TryAgainIn(number) => "Too many attempts — try again in ".to_owned().concat(decimal(*number).as_str()).concat("s"),
            Notice::SessionWiped => "Too many failed PIN attempts — session wiped; sign in with Supabase".to_owned(),
            Notice::PinRejected(reason) => "PIN rejected: ".to_owned().concat(reason.as_str()),
            Notice::SessionExpired(reason) => "Session expired (".to_owned().concat(reason.as_str()).concat(") — sign in with Supabase again"),
            Notice::SessionRefreshed => "Session refreshed with PIN".to_owned(),
            Notice::EnterServerUsernamePassword => "Enter server, username and password".to_owned(),
            Notice::AuthenticatedSyncing => "Authenticated — syncing…".to_owned(),
            Notice::AuthFailed(reason) => "Auth failed: ".to_owned().concat(reason.as_str()),
            Notice::PasswordToSync => "Enter your account password to sync".to_owned(),
            Notice::LogInFirst => "Log in or register first".to_owned(),
            Notice::UnlockToSync => "Unlock the vault before syncing".to_owned(),
            Notice::TransportFailed(reason) => "Transport error: ".to_owned().concat(reason.as_str()),
            Notice::Synced(number) => "Synced — ".to_owned().concat(decimal(*number).as_str()).concat(" accounts"),
            Notice::SyncFailed(reason) => "Sync failed: ".to_owned().concat(reason.as_str()),
        }
    }
}

/// What to say about a request to extend the session.
pub fn extension_notice(extended: bool) -> (notice: Notice)
    ensures
        notice == (if extended {
            Notice::SessionExtended
        } else {
            Notice::SecondFactorNeeded
        }),
{
    if extended {
        Notice::SessionExtended
    } else {
        Notice::SecondFactorNeeded
    }
}

/// A screen of the window.
#[derive(Clone, Copy, Debug, PartialEq, Eq, Structural)]
pub enum Screen {
    Setup,
    Lock,
    Vault,
    Settings,
}

impl Screen {
    /// The name that the window knows the screen by.
    pub open spec fn id(self) -> Seq<char> {
        match self {
            Screen::Setup => "setup"@,
            Screen::Lock => "lock"@,
            Screen::Vault => "vault"@,
            Screen::Settings => "settings"@,
        }
    }

    /// The name that the window knows the screen by.
    pub fn name(self) -> (name: &'static str)
        ensures
            name@ == self.id(),
    {
        match self {
            Screen::Setup => "setup",
            Screen::Lock => "lock",
            Screen::Vault => "vault",
            Screen::Settings => "settings",
        }
    }
}

/// A reason is told as it came, behind what failed; a message that was worded
/// elsewhere is told as it is.
pub proof fn law_a_reason_is_told_as_it_came(reason: String)
    ensures
        Notice::Verbatim(reason).wording() == reason@,
        Notice::CreateFailed(reason).wording() == "Could not create vault: "@ + reason@,
        Notice::BadUri(reason).wording() == "Bad otpauth URI: "@ + reason@,
        Notice::CounterNotSaved(reason).wording() == "Could not save the new counter: "@ + reason@,
        Notice::SignInFailed(reason).wording() == "Supabase sign-in failed: "@ + reason@,
        Notice::EnrollFailed(reason).wording() == "Device enrollment failed: "@ + reason@,
        Notice::TokenNotStored(reason).wording() == "Could not store token: "@ + reason@,
        Notice::SessionNotStored(reason).wording() == "Could not store PIN session: "@ + reason@,
        Notice::PinNotSet(reason).wording() == "PIN not set: "@ + reason@,
        Notice::PinRejected(reason).wording() == "PIN rejected: "@ + reason@,
        Notice::SessionExpired(reason).wording() == "Session expired ("@ + reason@ + ") — sign in with Supabase again"@,
        Notice::AuthFailed(reason).wording() == "Auth failed: "@ + reason@,
        Notice::TransportFailed(reason).wording() == "Transport error: "@ + reason@,
        Notice::SyncFailed(reason).wording() == "Sync failed: "@ + reason@,
{
}

/// A number is told in decimal: the code, the seconds, the accounts.
pub proof fn law_a_number_is_told_in_decimal(number: u64)
    ensures
        Notice::CodeSpent(number).wording() == "Now showing code "@ + decimal_text(number as nat) + " — the previous one is spent"@,
        Notice::TryAgainIn(number).wording() == "Too many attempts — try again in "@ + decimal_text(number as nat) + "s"@,
        Notice::Synced(number).wording() == "Synced — "@ + decimal_text(number as nat) + " accounts"@,
{
}

/// What the user is told of the vault and its session.
pub proof fn law_the_vault_speaks_plainly()
    ensures
        Notice::Nothing.wording() == ""@,
        Notice::Copied.wording() == "Copied to clipboard"@,
        Notice::Locked.wording() == "Locked"@,
        Notice::AutoLocked.wording() == "Auto-locked"@,
        Notice::SessionExtended.wording() == "Session extended"@,
        Notice::SecondFactorNeeded.wording() == "Need a second factor to extend"@,
        Notice::CreateUnavailable.wording() == "Vault creation is not available in the current state"@,
        Notice::CreateCancelled.wording() == "Vault creation was cancelled by a lock"@,
        Notice::VaultCreated.wording() == "Vault created"@,
        Notice::UnlockUnavailable.wording() == "Vault unlock is not available in the current state"@,
        Notice::NoVault.wording() == "No vault found"@,
        Notice::UnlockCancelled.wording() == "Vault unlock was cancelled by a lock"@,
        Notice::WrongPasscode.wording() == "Wrong passcode"@,
{
}

/// What the user is told of the accounts.
pub proof fn law_the_accounts_speak_plainly()
    ensures
        Notice::UnlockToAdd.wording() == "Unlock the vault before adding accounts"@,
        Notice::AccountAdded.wording() == "Account added"@,
        Notice::UnlockToAdvance.wording() == "Unlock the vault before advancing a counter"@,
        Notice::CounterExhausted.wording() == "This account has reached its counter limit"@,
        Notice::NotCounterBased.wording() == "Only counter-based (HOTP) accounts have a next code"@,
{
}

/// What the user is told of signing in and syncing.
pub proof fn law_the_servers_speak_plainly()
    ensures
        Notice::EnterServerEmailPassword.wording() == "Enter server, email and password"@,
        Notice::PinRule.wording() == "PIN must be 6 digits and not a trivial sequence"@,
        Notice::SupabaseNotConfigured.wording() == "Supabase is not configured — set supabase_url and supabase_anon_key in config.json"@,
        Notice::SignedInSyncing.wording() == "Signed in with Supabase — syncing…"@,
        Notice::SignedInPassphraseNeeded.wording() == "Signed in. Enter your sync passphrase and press Sync now to sync the vault."@,
        Notice::EnterServerUrl.wording() == "Enter the sync server URL"@,
        Notice::NoPinSession.wording() == "No PIN session on this device — sign in with Supabase first"@,
        Notice::SessionWiped.wording() == "Too many failed PIN attempts — session wiped; sign in with Supabase"@,
        Notice::SessionRefreshed.wording() == "Session refreshed with PIN"@,
        Notice::EnterServerUsernamePassword.wording() == "Enter server, username and password"@,
        Notice::AuthenticatedSyncing.wording() == "Authenticated — syncing…"@,
        Notice::PasswordToSync.wording() == "Enter your account password to sync"@,
        Notice::LogInFirst.wording() == "Log in or register first"@,
        Notice::UnlockToSync.wording() == "Unlock the vault before syncing"@,
{
}

/// The window knows each screen by a name of its own.
pub proof fn law_screens_have_names_of_their_own(a: Screen, b: Screen)
    ensures
        Screen::Setup.id() == "setup"@,
        Screen::Lock.id() == "lock"@,
        Screen::Vault.id() == "vault"@,
        Screen::Settings.id() == "settings"@,
        a.id() == b.id() ==> a == b,
{
    reveal_strlit("setup");
    reveal_strlit("lock");
    reveal_strlit("vault");
    reveal_strlit("settings");
    assert("setup"@.len() == 5 && "lock"@.len() == 4 && "vault"@.len() == 5 && "settings"@.len()
        == 8);
    assert("setup"@[0] != "vault"@[0]);
}

} // verus!

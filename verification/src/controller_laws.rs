//! What holds of the application state across several operations.

use crate::accounts::{
    law_counter_restored, law_position_ignores_counters, law_position_is_the_first_match,
    Account, VaultContents, VaultData,
};
use crate::app_state::{Operation, OperationToken, Phase, Signal};
use crate::controller::{
    AppModel, SpendStep, SpentCode, Submission, SubmitStep, PASSCODE_LENGTH,
};
use crate::notice::Notice;
use crate::saving::{
    create_step_after, law_a_created_vault_is_written_before_it_is_opened,
    law_a_failed_creation_writes_nothing, next_save_step, CreateReply, CreateStep, SaveStep,
};
use crate::text::byte_len;
use vstd::prelude::*;

verus! {

/// Decrypted contents and the key are owned if and only if the lifecycle is
/// unlocked.
pub proof fn law_material_is_held_exactly_while_unlocked<F, S, R, K>(state: AppModel<F, S, R, K>)
    requires
        state.wf(),
    ensures
        (state.data is Some && state.dek is Some) <==> state.lifecycle.phase == Phase::Unlocked,
        state.lifecycle.phase != Phase::Unlocked ==> state.data is None && state.dek is None,
{
}

/// The program starts without material: in setup without a vault file, locked
/// with one.
pub proof fn law_the_program_starts_closed<F, S, R, K>(file: Option<F>)
    ensures
        AppModel::<F, S, R, K>::starting(file).wf(),
        AppModel::<F, S, R, K>::starting(file).lifecycle.phase == (if file is Some {
            Phase::Locked
        } else {
            Phase::Setup
        }),
{
}

/// Locking and disposing drop the contents, the key and the typed passcode, from
/// every state.
pub proof fn law_locking_and_disposing_drop_every_secret<F, S, R, K>(state: AppModel<F, S, R, K>)
    requires
        state.wf(),
    ensures
        ({
            let locked = state.emptied(Signal::Lock);
            let disposed = state.emptied(Signal::Dispose);
            &&& locked.data is None && locked.dek is None && locked.entry.len() == 0
            &&& disposed.data is None && disposed.dek is None && disposed.entry.len() == 0
            &&& locked.lifecycle.phase != Phase::Unlocked
            &&& disposed.lifecycle.phase == Phase::Disposed
        }),
{
}

/// Whatever a submitted passcode leads to, the vault is not open before the
/// operation has completed.
pub proof fn law_submitting_does_not_open_the_vault<F, S, R, K>(state: AppModel<F, S, R, K>)
    requires
        state.wf(),
        state.lifecycle.phase != Phase::Unlocked,
    ensures
        state.submit_lifecycle().wf(),
        state.submit_lifecycle().phase != Phase::Unlocked,
{
}

/// Material that an operation brings back after a lock is dropped: the state
/// stays as the lock left it.
pub proof fn law_a_lock_cancels_the_operation_in_flight<F, S, R, K>(
    state: AppModel<F, S, R, K>,
    token: OperationToken,
    file: Option<F>,
    data: VaultContents<S, R>,
    dek: K,
)
    requires
        state.wf(),
        state.lifecycle.active == Some(token),
    ensures
        state.emptied(Signal::Lock).opened(token, file, data, dek) == state.emptied(Signal::Lock),
        state.emptied(Signal::Lock).failed(token) == state.emptied(Signal::Lock),
{
}

/// A failed operation leaves the vault in the phase that the passcode was
/// submitted in, without material.
pub proof fn law_a_failed_operation_falls_back<F, S, R, K>(
    state: AppModel<F, S, R, K>,
    token: OperationToken,
)
    requires
        state.wf(),
        state.submit_step() == SubmitStep::Create(token) || state.submit_step()
            == SubmitStep::Unlock(token),
    ensures
        ({
            let failed = state.submitted().failed(token);
            &&& failed.lifecycle.phase == state.lifecycle.phase
            &&& failed.data is None
            &&& failed.dek is None
            &&& failed.file == state.file
        }),
{
}

/// Whether a submission is over and left nothing behind: the buffer is empty, no
/// operation is in flight, and material is held exactly while the vault is open.
pub open spec fn is_settled<F, S, R, K>(state: AppModel<F, S, R, K>) -> bool {
    &&& state.entry == Seq::<char>::empty()
    &&& state.lifecycle.active is None
    &&& state.unlocked() == (state.data is Some && state.dek is Some)
    &&& state.wf()
}

/// Whatever a submitted passcode leads to, created, unlocked, wrong, failed or not
/// available, both the buffer and the passcode that was moved out of it are wiped
/// in the end, no operation is left in flight, and material is held exactly while
/// the vault is open. `submission` is what submitting handed out, and `ended` is
/// what the finishing call made of it.
pub proof fn law_every_submission_ends_clean<F, S, R, K>(
    state: AppModel<F, S, R, K>,
    submission: Submission,
    ended: Submission,
    file: F,
    data: VaultContents<S, R>,
    dek: K,
)
    requires
        state.wf(),
        state.lifecycle.active is None,
        state.hands_out(submission),
        submission.ends_as(ended),
    ensures
        ended.passcode@ == Seq::<char>::empty(),
        match submission.step {
            SubmitStep::Refused(_) => {
                &&& submission.passcode@ == Seq::<char>::empty()
                &&& is_settled(state.submitted())
            },
            SubmitStep::Create(token) => {
                &&& is_settled(state.submitted().opened(token, Some(file), data, dek))
                &&& state.submitted().opened(token, Some(file), data, dek).unlocked()
                &&& is_settled(state.submitted().failed(token))
                &&& !state.submitted().failed(token).unlocked()
            },
            SubmitStep::Unlock(token) => {
                &&& is_settled(state.submitted().opened(token, state.file, data, dek))
                &&& state.submitted().opened(token, state.file, data, dek).unlocked()
                &&& is_settled(state.submitted().failed(token))
                &&& !state.submitted().failed(token).unlocked()
            },
        },
{
}

/// A passcode submitted in setup: where a vault was created, exactly that vault was
/// written before it is opened, and then it, its contents and its key are held;
/// where creating failed nothing was written at any point `i` of the way, and the
/// state falls back to setup as it was.
pub proof fn law_a_creation_writes_what_it_opens<F, S, R, K>(
    state: AppModel<F, S, R, K>,
    token: OperationToken,
    replies: Seq<CreateReply<(F, VaultData<S, R>, K)>>,
    i: int,
)
    requires
        state.wf(),
        state.submit_step() == SubmitStep::Create(token),
        0 <= i <= replies.len(),
    ensures
        create_step_after(replies) matches CreateStep::Finish(vault) ==> {
            let opened = state.submitted().opened(token, Some(vault.0), vault.1@, vault.2);
            &&& exists|j: int|
                0 < j < replies.len() && #[trigger] create_step_after(replies.take(j))
                    == CreateStep::Write(vault)
            &&& opened.lifecycle.phase == Phase::Unlocked
            &&& opened.file == Some(vault.0)
            &&& opened.data == Some(vault.1@)
            &&& opened.dek == Some(vault.2)
        },
        create_step_after(replies) is Failed ==> {
            let failed = state.submitted().failed(token);
            &&& !(create_step_after(replies.take(i)) is Write)
            &&& failed.lifecycle.phase == Phase::Setup
            &&& failed.file == state.file
            &&& failed.data == state.data
            &&& failed.dek == state.dek
        },
{
    match create_step_after(replies) {
        CreateStep::Finish(vault) => {
            law_a_created_vault_is_written_before_it_is_opened(replies, vault);
        },
        CreateStep::Failed(reason) => {
            law_a_failed_creation_writes_nothing(replies, reason, i);
        },
        _ => {},
    }
}

/// A counter that could not be saved is rolled back and the vault sealed again:
/// where sealing or writing fails, the state after settling is the one before the
/// request, but for the sealed vault `file` that sealing may have replaced; so the
/// step that stands is to seal once more, and whatever comes of that the user is
/// told why the counter was not saved.
pub proof fn law_a_failed_save_spends_no_code<F, S, R, K>(
    state: AppModel<F, S, R, K>,
    id: Seq<char>,
    advanced: Option<u64>,
    file: Option<F>,
    failed: SaveStep,
    reason: String,
    sealed_again: Result<(), String>,
)
    requires
        state.wf(),
        state.spend_step(id, advanced) is Save,
        failed is Seal || failed is Write,
    ensures
        ({
            let spent = state.spend_step(id, advanced)->Save_0;
            let tried = AppModel { file, ..state.spent(id, advanced) };
            let written = Err::<(), String>(reason);
            let step = AppModel::<F, S, R, K>::settle_step(spent, written);
            &&& next_save_step(failed, written) == SaveStep::Settle(written)
            &&& tried.settled(id, spent, written) == (AppModel { file, ..state })
            &&& step == SaveStep::SealAgain(Notice::CounterNotSaved(reason))
            &&& next_save_step(step, sealed_again) == SaveStep::Stop(
                Notice::CounterNotSaved(reason),
            )
        }),
{
    let accounts = state.data->0.accounts;
    let index = state.account_at(id)->0;
    law_position_is_the_first_match(accounts, id);
    law_position_ignores_counters(accounts, id, index, advanced->0);
    law_counter_restored(accounts, index, advanced->0);
}

/// A request for a next code moves the counter of the account that it names,
/// and nothing else in the vault.
pub proof fn law_only_the_named_counter_moves<F, S, R, K>(
    state: AppModel<F, S, R, K>,
    id: Seq<char>,
    advanced: Option<u64>,
    i: int,
)
    requires
        state.wf(),
        state.data is Some,
        0 <= i < state.data->0.accounts.len(),
        state.account_at(id) != Some(i),
    ensures
        state.spent(id, advanced).data is Some,
        state.spent(id, advanced).data->0.accounts.len() == state.data->0.accounts.len(),
        state.spent(id, advanced).data->0.accounts[i] == state.data->0.accounts[i],
        state.spent(id, advanced).data->0.rest == state.data->0.rest,
{
    law_position_is_the_first_match(state.data->0.accounts, id);
}

proof fn lemma_byte_len_adds_up(a: Seq<char>, b: Seq<char>)
    ensures
        byte_len(a + b) == byte_len(a) + byte_len(b),
    decreases a.len(),
{
    if a.len() == 0 {
        assert(a + b =~= b);
    } else {
        assert((a + b).drop_first() =~= a.drop_first() + b);
        lemma_byte_len_adds_up(a.drop_first(), b);
    }
}

/// Typing single-byte digits fills the buffer up to the passcode length and
/// never beyond it.
pub proof fn law_typing_fills_the_buffer_up<F, S, R, K>(
    state: AppModel<F, S, R, K>,
    digit: Seq<char>,
)
    requires
        byte_len(state.entry) <= PASSCODE_LENGTH,
        byte_len(digit) == 1,
    ensures
        byte_len(state.entry) < PASSCODE_LENGTH ==> byte_len(state.typed(digit)) == byte_len(
            state.entry,
        ) + 1,
        byte_len(state.typed(digit)) <= PASSCODE_LENGTH,
{
    lemma_byte_len_adds_up(state.entry, digit);
}

/// Backspace takes back the digit that was typed last.
pub proof fn law_backspace_undoes_a_digit<F, S, R, K>(
    state: AppModel<F, S, R, K>,
    digit: Seq<char>,
)
    requires
        byte_len(state.entry) < PASSCODE_LENGTH,
        digit.len() == 1,
    ensures
        state.typed(digit).len() > 0,
        state.typed(digit).drop_last() == state.entry,
{
    assert(state.typed(digit).drop_last() =~= state.entry);
}

/// Whether `i` is the first account of this id in the open vault.
pub open spec fn is_first_of<F, S, R, K>(
    state: AppModel<F, S, R, K>,
    id: Seq<char>,
    i: int,
) -> bool {
    &&& state.data is Some
    &&& 0 <= i < state.data->0.accounts.len()
    &&& state.data->0.accounts[i].id@ == id
    &&& forall|j: int| 0 <= j < i ==> (#[trigger] state.data->0.accounts[j]).id@ != id
}

/// Whether two states differ at most in the accounts that they hold.
pub open spec fn same_but_for_accounts<F, S, R, K>(
    a: AppModel<F, S, R, K>,
    b: AppModel<F, S, R, K>,
) -> bool {
    &&& a.file == b.file
    &&& a.dek == b.dek
    &&& a.lifecycle == b.lifecycle
    &&& a.entry == b.entry
    &&& a.data is Some == b.data is Some
    &&& a.data is Some ==> a.data->0.rest == b.data->0.rest
}

/// A next code is always to be had where there is one: in an open vault, for the
/// first account of the id and a next value, whatever the counter stands at, the
/// step is to save, from the counter that it had to that value, and afterwards the
/// counter of that account, and nothing else, has that value.
pub proof fn law_a_next_code_moves_the_counter<F, S, R, K>(
    state: AppModel<F, S, R, K>,
    id: Seq<char>,
    i: int,
    counter: u64,
)
    requires
        state.wf(),
        is_first_of(state, id, i),
    ensures
        state.spend_step(id, Some(counter)) matches SpendStep::Save(spent) && spent.previous
            == state.data->0.accounts[i].counter && spent.counter == counter,
        same_but_for_accounts(state.spent(id, Some(counter)), state),
        state.spent(id, Some(counter)).data->0.accounts == state.data->0.accounts.update(
            i,
            Account { counter, ..state.data->0.accounts[i] },
        ),
{
    law_position_is_the_first_match(state.data->0.accounts, id);
}

/// A request for a next code is refused, with the reason and without any change,
/// exactly where there is none: the vault is not open, or the account has no next
/// value. It is ignored exactly where the open vault has no such account.
pub proof fn law_a_next_code_is_refused_only_where_there_is_none<F, S, R, K>(
    state: AppModel<F, S, R, K>,
    id: Seq<char>,
    i: int,
    advanced: Option<u64>,
)
    requires
        state.wf(),
    ensures
        state.data is None ==> state.spend_step(id, advanced) == SpendStep::Refused(
            Notice::UnlockToAdvance,
        ),
        is_first_of(state, id, i) ==> state.spend_step(id, None) == SpendStep::Refused(
            if state.data->0.accounts[i].counter_based {
                Notice::CounterExhausted
            } else {
                Notice::NotCounterBased
            },
        ),
        state.spend_step(id, advanced) is Ignored <==> state.data is Some && forall|j: int|
            0 <= j < state.data->0.accounts.len() ==> (#[trigger] state.data->0.accounts[j]).id@
                != id,
        !(state.spend_step(id, advanced) is Save) ==> state.spent(id, advanced) == state,
{
    if state.data is Some {
        law_position_is_the_first_match(state.data->0.accounts, id);
    }
}

/// Settling: a code whose vault was written is spent, the user is told its number
/// and nothing moves; one whose vault was not has the counter of its account put
/// back, and nothing else moves.
pub proof fn law_settling_keeps_or_puts_back<F, S, R, K>(
    state: AppModel<F, S, R, K>,
    id: Seq<char>,
    i: int,
    spent: SpentCode,
    reason: String,
)
    requires
        is_first_of(state, id, i),
    ensures
        AppModel::<F, S, R, K>::settle_step(spent, Ok(())) == SaveStep::Stop(
            Notice::CodeSpent(spent.counter),
        ),
        state.settled(id, spent, Ok(())) == state,
        AppModel::<F, S, R, K>::settle_step(spent, Err(reason)) == SaveStep::SealAgain(
            Notice::CounterNotSaved(reason),
        ),
        same_but_for_accounts(state.settled(id, spent, Err(reason)), state),
        state.settled(id, spent, Err(reason)).data->0.accounts == state.data->0.accounts.update(
            i,
            Account { counter: spent.previous, ..state.data->0.accounts[i] },
        ),
{
    law_position_is_the_first_match(state.data->0.accounts, id);
}

/// Where the account has gone meanwhile, or the vault was locked, settling moves
/// nothing.
pub proof fn law_settling_a_lost_account_moves_nothing<F, S, R, K>(
    state: AppModel<F, S, R, K>,
    id: Seq<char>,
    spent: SpentCode,
    written: Result<(), String>,
)
    requires
        state.data matches Some(data) ==> forall|j: int|
            0 <= j < data.accounts.len() ==> (#[trigger] data.accounts[j]).id@ != id,
    ensures
        state.settled(id, spent, written) == state,
{
    if state.data is Some {
        law_position_is_the_first_match(state.data->0.accounts, id);
    }
}

/// An account that is enrolled is the last of the list, behind the ones that were
/// there, and nothing else moves.
pub proof fn law_an_account_is_added_behind_the_others<F, S, R, K>(
    state: AppModel<F, S, R, K>,
    account: Account<S>,
)
    requires
        state.data is Some,
    ensures
        ({
            let before = state.data->0.accounts;
            let after = state.with_accounts(before.push(account));
            &&& same_but_for_accounts(after, state)
            &&& after.data->0.accounts.len() == before.len() + 1
            &&& after.data->0.accounts.last() == account
            &&& forall|i: int|
                0 <= i < before.len() ==> #[trigger] after.data->0.accounts[i] == before[i]
        }),
{
}

/// Any accounts can be put into the open vault, and nothing else moves.
pub proof fn law_only_the_accounts_are_replaced<F, S, R, K>(
    state: AppModel<F, S, R, K>,
    accounts: Seq<Account<S>>,
)
    requires
        state.data is Some,
    ensures
        same_but_for_accounts(state.with_accounts(accounts), state),
        state.with_accounts(accounts).data->0.accounts == accounts,
{
}

/// A key press appends what was pressed while the passcode is short, whatever it is,
/// and changes nothing once the passcode is complete.
pub proof fn law_a_key_is_appended_until_the_passcode_is_complete<F, S, R, K>(
    state: AppModel<F, S, R, K>,
    digit: Seq<char>,
)
    ensures
        byte_len(state.entry) < PASSCODE_LENGTH ==> state.typed(digit) == state.entry + digit,
        byte_len(state.entry) >= PASSCODE_LENGTH ==> state.typed(digit) == state.entry,
{
}

/// A submitted passcode starts what the vault needs: in setup a creation, and with a
/// sealed vault that is locked an unlock, under a token of the next generation and
/// with the passcode as it was typed. Without a generation left, without a sealed
/// vault and in any other phase it is refused, with the reason.
pub proof fn law_a_passcode_starts_what_the_vault_needs<F, S, R, K>(
    state: AppModel<F, S, R, K>,
    submission: Submission,
)
    requires
        state.wf(),
        state.hands_out(submission),
    ensures
        ({
            let left = state.lifecycle.generation < u64::MAX;
            match state.lifecycle.phase {
                Phase::Setup => if left {
                    submission.step matches SubmitStep::Create(token) && token.operation
                        == Operation::Create && token.generation == state.lifecycle.generation + 1
                } else {
                    submission.step == SubmitStep::Refused(Notice::CreateUnavailable)
                },
                Phase::Locked => if left && state.file is Some {
                    submission.step matches SubmitStep::Unlock(token) && token.operation
                        == Operation::Unlock && token.generation == state.lifecycle.generation + 1
                } else if left {
                    submission.step == SubmitStep::Refused(Notice::NoVault)
                } else {
                    submission.step == SubmitStep::Refused(Notice::UnlockUnavailable)
                },
                _ => submission.step == SubmitStep::Refused(Notice::UnlockUnavailable),
            }
        }),
        !(submission.step is Refused) ==> submission.passcode@ == state.entry,
        submission.step is Refused ==> submission.passcode@ == Seq::<char>::empty(),
{
}

/// Submitting empties the buffer and puts the operation that it starts in flight; a
/// refusal leaves the phase and whatever was in flight as they were. The sealed
/// vault and the open one stay as they are.
pub proof fn law_submitting_moves_only_buffer_and_lifecycle<F, S, R, K>(
    state: AppModel<F, S, R, K>,
)
    requires
        state.wf(),
    ensures
        ({
            let after = state.submitted();
            &&& after.file == state.file
            &&& after.data == state.data
            &&& after.dek == state.dek
            &&& after.entry == Seq::<char>::empty()
            &&& match state.submit_step() {
                SubmitStep::Create(token) => after.lifecycle.phase == Phase::Creating
                    && after.lifecycle.active == Some(token) && after.lifecycle.generation
                    == token.generation,
                SubmitStep::Unlock(token) => after.lifecycle.phase == Phase::Unlocking
                    && after.lifecycle.active == Some(token) && after.lifecycle.generation
                    == token.generation,
                SubmitStep::Refused(notice) => {
                    &&& after.lifecycle.phase == state.lifecycle.phase
                    &&& after.lifecycle.active == state.lifecycle.active
                    &&& notice == Notice::NoVault ==> after.lifecycle.generation
                        == state.lifecycle.generation + 1
                    &&& notice != Notice::NoVault ==> after.lifecycle == state.lifecycle
                },
            }
        }),
{
}

/// The operation in flight opens the vault with what it brings, and one that failed
/// leaves everything but the lifecycle; the material of any other is dropped, and
/// the buffer is not touched.
pub proof fn law_the_operation_in_flight_opens_the_vault<F, S, R, K>(
    state: AppModel<F, S, R, K>,
    token: OperationToken,
    file: Option<F>,
    data: VaultContents<S, R>,
    dek: K,
)
    requires
        state.wf(),
    ensures
        ({
            let opened = state.opened(token, file, data, dek);
            let failed = state.failed(token);
            &&& state.lifecycle.can_complete(token) <==> state.lifecycle.active == Some(token)
            &&& state.lifecycle.active == Some(token) ==> {
                &&& opened.lifecycle.phase == Phase::Unlocked
                &&& opened.lifecycle.generation == state.lifecycle.generation
                &&& opened.lifecycle.active is None
                &&& opened.file == file
                &&& opened.data == Some(data)
                &&& opened.dek == Some(dek)
                &&& opened.entry == state.entry
                &&& failed.lifecycle.phase == if token.operation == Operation::Create {
                    Phase::Setup
                } else {
                    Phase::Locked
                }
                &&& failed.lifecycle.generation == state.lifecycle.generation
                &&& failed.lifecycle.active is None
            }
            &&& state.lifecycle.active != Some(token) ==> opened == state && failed == state
            &&& failed.file == state.file
            &&& failed.data == state.data
            &&& failed.dek == state.dek
            &&& failed.entry == state.entry
        }),
{
}

/// Locking and disposing keep the sealed vault, and move the lifecycle on as they
/// would by themselves.
pub proof fn law_locking_and_disposing_keep_the_sealed_vault<F, S, R, K>(
    state: AppModel<F, S, R, K>,
)
    ensures
        state.emptied(Signal::Lock).file == state.file,
        state.emptied(Signal::Dispose).file == state.file,
        state.emptied(Signal::Lock).lifecycle == state.lifecycle.next(Signal::Lock),
        state.emptied(Signal::Dispose).lifecycle == state.lifecycle.next(Signal::Dispose),
{
}

/// The program starts with the sealed vault that was found, and with nothing typed,
/// nothing decrypted and nothing in flight.
pub proof fn law_the_program_starts_with_what_was_found<F, S, R, K>(file: Option<F>)
    ensures
        ({
            let state = AppModel::<F, S, R, K>::starting(file);
            &&& state.file == file
            &&& state.data is None
            &&& state.dek is None
            &&& state.entry == Seq::<char>::empty()
            &&& state.lifecycle.generation == 0
            &&& state.lifecycle.active is None
        }),
{
}

} // verus!

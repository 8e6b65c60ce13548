//! Sealing and writing a vault that is new or has changed: in which order, and
//! what follows when one of the two fails.

use crate::notice::Notice;
use vstd::prelude::*;

verus! {

/// What saving a spent code does next.
#[derive(Debug, PartialEq, Eq)]
pub enum SaveStep {
    /// Seal the open vault under the live key.
    Seal,
    /// Write the sealed vault.
    Write,
    /// Settle the spent code: the vault was written, or was not.
    Settle(Result<(), String>),
    /// Seal the open vault once more, so that the sealed vault in memory holds what
    /// was put back, then tell the user.
    SealAgain(Notice),
    /// Nothing more; tell the user.
    Stop(Notice),
}

/// The step after `step`, which ended in `outcome`. Sealing again is best effort;
/// settling says itself what follows.
pub open spec fn next_save_step(step: SaveStep, outcome: Result<(), String>) -> SaveStep {
    match (step, outcome) {
        (SaveStep::Seal, Ok(_)) => SaveStep::Write,
        (SaveStep::Seal, Err(reason)) => SaveStep::Settle(Err(reason)),
        (SaveStep::Write, outcome) => SaveStep::Settle(outcome),
        (SaveStep::SealAgain(notice), _) => SaveStep::Stop(notice),
        (step, _) => step,
    }
}

impl SaveStep {
    /// The first step of saving a spent code.
    pub fn start() -> (step: SaveStep)
        ensures
            step == SaveStep::Seal,
    {
        SaveStep::Seal
    }

    /// The step after this one, which ended in `outcome`.
    pub fn next(self, outcome: Result<(), String>) -> (next: SaveStep)
        ensures
            next == next_save_step(self, outcome),
    {
        match (self, outcome) {
            (SaveStep::Seal, Ok(_)) => SaveStep::Write,
            (SaveStep::Seal, Err(reason)) => SaveStep::Settle(Err(reason)),
            (SaveStep::Write, outcome) => SaveStep::Settle(outcome),
            (SaveStep::SealAgain(notice), _) => SaveStep::Stop(notice),
            (step, _) => step,
        }
    }
}

/// The step that stands after steps with these outcomes.
pub open spec fn save_step_after(outcomes: Seq<Result<(), String>>) -> SaveStep
    decreases outcomes.len(),
{
    if outcomes.len() == 0 {
        SaveStep::Seal
    } else {
        next_save_step(save_step_after(outcomes.drop_last()), outcomes.last())
    }
}

/// A code is settled as written exactly where the vault was sealed and then
/// written, and as not written for the reason of the first of the two that failed.
pub proof fn law_a_code_is_settled_as_it_was_saved(outcomes: Seq<Result<(), String>>)
    requires
        outcomes.len() >= 2,
    ensures
        save_step_after(outcomes) == SaveStep::Settle(
            if outcomes[0] is Err {
                outcomes[0]
            } else {
                outcomes[1]
            },
        ),
    decreases outcomes.len(),
{
    if outcomes.len() == 2 {
        reveal_with_fuel(save_step_after, 3);
    } else {
        law_a_code_is_settled_as_it_was_saved(outcomes.drop_last());
    }
}

/// What creating a vault does next. `V` is a created vault with its contents and
/// key, which is only handed on.
#[derive(Clone, Debug, PartialEq, Eq)]
pub enum CreateStep<V> {
    /// Create a vault sealed under the passcode.
    Create,
    /// Write the sealed vault, as far as that works.
    Write(V),
    /// Open what was created.
    Finish(V),
    /// Nothing was created, for this reason.
    Failed(String),
}

/// How a step of a creation ended.
#[derive(Clone, Debug, PartialEq, Eq)]
pub enum CreateReply<V> {
    Done,
    Created(V),
    Failed(String),
}

/// The step after `step`, which ended in `reply`. Writing is best effort; a reply
/// that does not answer the step leaves it standing.
pub open spec fn next_create_step<V>(step: CreateStep<V>, reply: CreateReply<V>) -> CreateStep<V> {
    match (step, reply) {
        (CreateStep::Create, CreateReply::Created(vault)) => CreateStep::Write(vault),
        (CreateStep::Create, CreateReply::Failed(reason)) => CreateStep::Failed(reason),
        (CreateStep::Write(vault), _) => CreateStep::Finish(vault),
        (step, _) => step,
    }
}

impl<V> CreateStep<V> {
    /// The first step of a creation.
    pub fn start() -> (step: CreateStep<V>)
        ensures
            step == CreateStep::<V>::Create,
    {
        CreateStep::Create
    }

    /// The step after this one, which ended in `reply`.
    pub fn next(self, reply: CreateReply<V>) -> (next: CreateStep<V>)
        ensures
            next == next_create_step(self, reply),
    {
        match (self, reply) {
            (CreateStep::Create, CreateReply::Created(vault)) => CreateStep::Write(vault),
            (CreateStep::Create, CreateReply::Failed(reason)) => CreateStep::Failed(reason),
            (CreateStep::Write(vault), _) => CreateStep::Finish(vault),
            (step, _) => step,
        }
    }
}

/// The step that stands after steps with these replies.
pub open spec fn create_step_after<V>(replies: Seq<CreateReply<V>>) -> CreateStep<V>
    decreases replies.len(),
{
    if replies.len() == 0 {
        CreateStep::Create
    } else {
        next_create_step(create_step_after(replies.drop_last()), replies.last())
    }
}

/// A created vault is written before it is opened: what stands to be opened was
/// created, and writing exactly that was the step before.
pub proof fn law_a_created_vault_is_written_before_it_is_opened<V>(
    replies: Seq<CreateReply<V>>,
    vault: V,
)
    requires
        create_step_after(replies) == CreateStep::Finish(vault),
    ensures
        replies.contains(CreateReply::Created(vault)),
        exists|i: int|
            0 < i < replies.len() && #[trigger] create_step_after(replies.take(i))
                == CreateStep::Write(vault) && create_step_after(replies.take(i + 1))
                == CreateStep::Finish(vault),
    decreases replies.len(),
{
    let n = replies.len() - 1;
    let shorter = replies.drop_last();
    assert(shorter =~= replies.take(n));
    if create_step_after(shorter) == CreateStep::Finish(vault) {
        law_a_created_vault_is_written_before_it_is_opened(shorter, vault);
        let i = choose|i: int|
            0 < i < shorter.len() && #[trigger] create_step_after(shorter.take(i))
                == CreateStep::Write(vault) && create_step_after(shorter.take(i + 1))
                == CreateStep::Finish(vault);
        assert(shorter.take(i) =~= replies.take(i));
        assert(shorter.take(i + 1) =~= replies.take(i + 1));
        let j = choose|j: int|
            0 <= j < shorter.len() && shorter[j] == CreateReply::Created(vault);
        assert(replies[j] == shorter[j]);
    } else {
        assert(create_step_after(replies.take(n)) == CreateStep::Write(vault));
        assert(replies.take(n + 1) =~= replies);
        assert(shorter.last() == CreateReply::Created(vault));
        assert(replies[n - 1] == shorter.last());
    }
}

/// Where creating failed nothing was written on the way, and nothing is opened.
pub proof fn law_a_failed_creation_writes_nothing<V>(
    replies: Seq<CreateReply<V>>,
    reason: String,
    i: int,
)
    requires
        create_step_after(replies) == CreateStep::<V>::Failed(reason),
        0 <= i <= replies.len(),
    ensures
        !(create_step_after(replies.take(i)) is Write),
        !(create_step_after(replies.take(i)) is Finish),
    decreases replies.len(),
{
    if i == replies.len() {
        assert(replies.take(i) =~= replies);
    } else {
        let shorter = replies.drop_last();
        assert(shorter.take(i) =~= replies.take(i));
        if create_step_after(shorter) is Failed {
            law_a_failed_creation_writes_nothing(shorter, reason, i);
        } else {
            lemma_a_creation_starts_at_create(shorter, i);
        }
    }
}

proof fn lemma_a_creation_starts_at_create<V>(replies: Seq<CreateReply<V>>, i: int)
    requires
        create_step_after(replies) is Create,
        0 <= i <= replies.len(),
    ensures
        create_step_after(replies.take(i)) is Create,
    decreases replies.len(),
{
    if i == replies.len() {
        assert(replies.take(i) =~= replies);
    } else {
        assert(replies.drop_last().take(i) =~= replies.take(i));
        lemma_a_creation_starts_at_create(replies.drop_last(), i);
    }
}

/// What enrolling an account does next.
#[derive(Clone, Debug, PartialEq, Eq)]
pub enum EnrolStep {
    /// Seal the open vault under the live key, as far as that works.
    Seal,
    /// Write the sealed vault, as far as that works.
    Write,
    /// Nothing more; tell the user.
    Stop(Notice),
}

/// The step after `step`.
pub open spec fn next_enrol_step(step: EnrolStep) -> EnrolStep {
    match step {
        EnrolStep::Seal => EnrolStep::Write,
        EnrolStep::Write => EnrolStep::Stop(Notice::AccountAdded),
        EnrolStep::Stop(notice) => EnrolStep::Stop(notice),
    }
}

impl EnrolStep {
    /// The step after this one, whether it went well or not.
    pub fn next(self) -> (next: EnrolStep)
        ensures
            next == next_enrol_step(self),
    {
        match self {
            EnrolStep::Seal => EnrolStep::Write,
            EnrolStep::Write => EnrolStep::Stop(Notice::AccountAdded),
            EnrolStep::Stop(notice) => EnrolStep::Stop(notice),
        }
    }
}

/// Saving a spent code, step by step: what was sealed is written, what could not be
/// sealed is not, and the code is settled as the write ended; sealing again ends in
/// what the user is told, whatever came of it; and a code to settle waits for that.
pub proof fn law_a_code_is_sealed_then_written(
    reason: String,
    outcome: Result<(), String>,
    settled: Result<(), String>,
    notice: Notice,
)
    ensures
        next_save_step(SaveStep::Seal, Ok(())) == SaveStep::Write,
        next_save_step(SaveStep::Seal, Err(reason)) == SaveStep::Settle(Err(reason)),
        next_save_step(SaveStep::Write, outcome) == SaveStep::Settle(outcome),
        next_save_step(SaveStep::SealAgain(notice), outcome) == SaveStep::Stop(notice),
        next_save_step(SaveStep::Settle(settled), outcome) == SaveStep::Settle(settled),
        next_save_step(SaveStep::Stop(notice), outcome) == SaveStep::Stop(notice),
{
}

/// A creation that goes well is one: the vault that was created is written and then
/// opened, written or not; one that fails says why; and nothing else moves it on.
pub proof fn law_a_creation_that_goes_well_opens_the_vault<V>(
    vault: V,
    written: CreateReply<V>,
    reason: String,
)
    ensures
        next_create_step(CreateStep::Create, CreateReply::Created(vault)) == CreateStep::Write(
            vault,
        ),
        next_create_step(CreateStep::Write(vault), written) == CreateStep::Finish(vault),
        next_create_step(CreateStep::<V>::Create, CreateReply::Failed(reason))
            == CreateStep::<V>::Failed(reason),
        next_create_step(CreateStep::<V>::Create, CreateReply::Done) == CreateStep::<V>::Create,
        next_create_step(CreateStep::Finish(vault), written) == CreateStep::Finish(vault),
        next_create_step(CreateStep::Failed(reason), written) == CreateStep::<V>::Failed(reason),
{
}

/// A vault that took an account in is sealed, then written, and then the user is
/// told that the account was added; what stopped stays so.
pub proof fn law_an_enrolment_is_sealed_then_written(notice: Notice)
    ensures
        next_enrol_step(EnrolStep::Seal) == EnrolStep::Write,
        next_enrol_step(EnrolStep::Write) == EnrolStep::Stop(Notice::AccountAdded),
        next_enrol_step(EnrolStep::Stop(notice)) == EnrolStep::Stop(notice),
{
}

} // verus!

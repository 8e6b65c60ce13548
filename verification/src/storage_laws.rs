//! What replacing a file step by step means for the file on disk.

use crate::storage::{next_write_step, WriteStep};
use vstd::prelude::*;

verus! {

/// A file as the system shows it: its bytes, whether its owner alone can read it,
/// and whether the disk holds it as shown.
pub struct FileImage {
    pub bytes: Seq<u8>,
    pub owner_only: bool,
    pub durable: bool,
}

/// The two files that replacing a file touches.
pub struct DiskImage {
    pub target: Option<FileImage>,
    pub temp: Option<FileImage>,
}

/// Whether two files read the same: the same bytes for the same readers.
pub open spec fn reads_as(a: Option<FileImage>, b: Option<FileImage>) -> bool {
    match (a, b) {
        (Some(a), Some(b)) => a.bytes == b.bytes && a.owner_only == b.owner_only,
        (None, None) => true,
        _ => false,
    }
}

/// What a step that returned may have done, on the reading of the file system
/// that these laws rest on. Opening empties the temporary file or creates it
/// empty; a write may stop anywhere; a flush makes the file durable; and a rename
/// moves the temporary file over the target as a whole. Every other step leaves
/// the target alone.
pub open spec fn may_lead_to(
    step: WriteStep,
    bytes: Seq<u8>,
    succeeded: bool,
    before: DiskImage,
    after: DiskImage,
) -> bool {
    match step {
        WriteStep::OpenTemp => {
            &&& after.target == before.target
            &&& after.temp == before.temp || (after.temp is Some && after.temp->0.bytes
                == Seq::<u8>::empty())
            &&& succeeded ==> after.temp is Some && after.temp->0.bytes == Seq::<u8>::empty()
        },
        WriteStep::RestrictTemp => {
            &&& after.target == before.target
            &&& after.temp is Some == before.temp is Some
            &&& before.temp is Some ==> after.temp->0.bytes == before.temp->0.bytes
            &&& before.temp is Some && succeeded ==> after.temp->0.owner_only
        },
        WriteStep::WriteTemp => {
            &&& after.target == before.target
            &&& after.temp is Some == before.temp is Some
            &&& before.temp is Some ==> after.temp->0.owner_only == before.temp->0.owner_only
            &&& before.temp is Some && succeeded ==> after.temp->0.bytes == before.temp->0.bytes
                + bytes
        },
        WriteStep::SyncTemp => {
            &&& after.target == before.target
            &&& reads_as(after.temp, before.temp)
            &&& before.temp is Some && succeeded ==> after.temp->0.durable
        },
        WriteStep::ReplaceTarget if succeeded => after.target == before.temp && after.temp is None,
        WriteStep::RemoveTemp => {
            &&& after.target == before.target
            &&& after.temp == if succeeded {
                None
            } else {
                before.temp
            }
        },
        _ => after == before,
    }
}

/// Whether a crash may bring `file` back as `found`: a durable file comes back as
/// it was, and any other as anything, or not at all.
pub open spec fn may_come_back_as(file: Option<FileImage>, found: Option<FileImage>) -> bool {
    (file is None || file->0.durable) ==> reads_as(found, file)
}

/// The target that a crash during `step` may leave. A rename under way has
/// happened or has not, and one that returned may be undone, since the directory
/// is not flushed.
pub open spec fn may_crash_with(
    step: WriteStep,
    old_target: Option<FileImage>,
    disk: DiskImage,
    found: Option<FileImage>,
) -> bool {
    ||| may_come_back_as(disk.target, found)
    ||| step == WriteStep::ReplaceTarget && may_come_back_as(disk.temp, found)
    ||| step == WriteStep::Done && may_come_back_as(old_target, found)
}

/// The step that stands after steps with these outcomes.
pub open spec fn step_after(unix: bool, outcomes: Seq<bool>) -> WriteStep
    decreases outcomes.len(),
{
    if outcomes.len() == 0 {
        WriteStep::OpenTemp
    } else {
        next_write_step(unix, step_after(unix, outcomes.drop_last()), outcomes.last())
    }
}

/// Whether the disk may have gone through `disks` while steps with these
/// outcomes replaced the target by `bytes`.
pub open spec fn execution(
    unix: bool,
    bytes: Seq<u8>,
    outcomes: Seq<bool>,
    disks: Seq<DiskImage>,
) -> bool {
    &&& disks.len() == outcomes.len() + 1
    &&& forall|i: int|
        0 <= i < outcomes.len() ==> may_lead_to(
            step_after(unix, #[trigger] outcomes.take(i)),
            bytes,
            outcomes[i],
            disks[i],
            disks[i + 1],
        )
}

/// Whether `target` reads as the file of old, or holds exactly `bytes`.
pub open spec fn old_or_new(
    old_target: Option<FileImage>,
    bytes: Seq<u8>,
    target: Option<FileImage>,
) -> bool {
    reads_as(target, old_target) || (target is Some && target->0.bytes == bytes)
}

/// Whether the temporary file tells nobody but its owner anything new: where
/// others can read it, it is empty or reads as it did before.
pub open spec fn temp_tells_nothing(
    old_temp: Option<FileImage>,
    temp: Option<FileImage>,
) -> bool {
    temp is Some && !temp->0.owner_only ==> {
        ||| temp->0.bytes == Seq::<u8>::empty()
        ||| old_temp is Some && temp->0.bytes == old_temp->0.bytes
    }
}

/// Whether the target tells nobody but its owner anything new: where others can
/// read it, it reads as it did before.
pub open spec fn target_tells_nothing(
    old_target: Option<FileImage>,
    target: Option<FileImage>,
) -> bool {
    target is Some && !target->0.owner_only ==> reads_as(target, old_target)
}

spec fn intact(
    unix: bool,
    bytes: Seq<u8>,
    step: WriteStep,
    old: DiskImage,
    disk: DiskImage,
) -> bool {
    &&& unix ==> temp_tells_nothing(old.temp, disk.temp)
    &&& match step {
        WriteStep::OpenTemp | WriteStep::RemoveTemp | WriteStep::Failed => disk.target
            == old.target,
        WriteStep::RestrictTemp | WriteStep::WriteTemp => {
            &&& disk.target == old.target
            &&& disk.temp is Some
            &&& disk.temp->0.bytes == Seq::<u8>::empty()
            &&& unix && step == WriteStep::WriteTemp ==> disk.temp->0.owner_only
        },
        WriteStep::SyncTemp | WriteStep::ReplaceTarget => {
            &&& disk.target == old.target
            &&& disk.temp is Some
            &&& disk.temp->0.bytes == bytes
            &&& unix ==> disk.temp->0.owner_only
            &&& step == WriteStep::ReplaceTarget ==> disk.temp->0.durable
        },
        WriteStep::Done => {
            &&& disk.target is Some
            &&& disk.target->0.bytes == bytes
            &&& disk.target->0.durable
            &&& disk.temp is None
            &&& unix ==> disk.target->0.owner_only
        },
    }
}

proof fn lemma_intact(unix: bool, bytes: Seq<u8>, outcomes: Seq<bool>, disks: Seq<DiskImage>)
    requires
        execution(unix, bytes, outcomes, disks),
    ensures
        intact(unix, bytes, step_after(unix, outcomes), disks[0], disks.last()),
    decreases outcomes.len(),
{
    if outcomes.len() > 0 {
        let n = outcomes.len() - 1;
        let shorter = outcomes.drop_last();
        assert(shorter =~= outcomes.take(n));
        assert forall|i: int| 0 <= i < shorter.len() implies may_lead_to(
            step_after(unix, #[trigger] shorter.take(i)),
            bytes,
            shorter[i],
            disks.drop_last()[i],
            disks.drop_last()[i + 1],
        ) by {
            assert(shorter.take(i) =~= outcomes.take(i));
        }
        lemma_intact(unix, bytes, shorter, disks.drop_last());
        assert(Seq::<u8>::empty() + bytes =~= bytes);
    }
}

/// The rename comes only after a flush that went well.
pub proof fn law_the_rename_follows_a_flush(unix: bool, outcomes: Seq<bool>)
    requires
        step_after(unix, outcomes) == WriteStep::ReplaceTarget,
    ensures
        outcomes.len() > 0,
        step_after(unix, outcomes.drop_last()) == WriteStep::SyncTemp,
        outcomes.last(),
{
}

/// Crash safety: at every moment of every attempt to replace a file, and in
/// whatever a crash in the middle of a step leaves, the target reads as the old
/// file or holds all the new bytes. It is never truncated or empty on the way.
/// This rests on the flush: only a file that is durable comes back as it was.
pub proof fn law_the_target_is_always_old_or_new(
    unix: bool,
    bytes: Seq<u8>,
    outcomes: Seq<bool>,
    disks: Seq<DiskImage>,
    found: Option<FileImage>,
)
    requires
        execution(unix, bytes, outcomes, disks),
        disks[0].target is Some ==> disks[0].target->0.durable,
        may_crash_with(step_after(unix, outcomes), disks[0].target, disks.last(), found),
    ensures
        old_or_new(disks[0].target, bytes, disks.last().target),
        old_or_new(disks[0].target, bytes, found),
{
    lemma_intact(unix, bytes, outcomes, disks);
}

/// An attempt that ends done has put exactly the new bytes in place and left no
/// temporary file behind, and one that ends failed has left the target as it was.
pub proof fn law_an_attempt_replaces_all_or_nothing(
    unix: bool,
    bytes: Seq<u8>,
    outcomes: Seq<bool>,
    disks: Seq<DiskImage>,
)
    requires
        execution(unix, bytes, outcomes, disks),
    ensures
        step_after(unix, outcomes) == WriteStep::Done ==> disks.last().target is Some
            && disks.last().target->0.bytes == bytes && disks.last().temp is None,
        step_after(unix, outcomes) == WriteStep::Failed ==> disks.last().target
            == disks[0].target,
{
    lemma_intact(unix, bytes, outcomes, disks);
}

/// A temporary file that could not be used is gone once its removal went well.
pub proof fn law_a_failed_attempt_cleans_up(
    unix: bool,
    bytes: Seq<u8>,
    outcomes: Seq<bool>,
    disks: Seq<DiskImage>,
)
    requires
        execution(unix, bytes, outcomes, disks),
        outcomes.len() > 0,
        step_after(unix, outcomes.drop_last()) == WriteStep::RemoveTemp,
        outcomes.last(),
    ensures
        step_after(unix, outcomes) == WriteStep::Failed,
        disks.last().temp is None,
{
    assert(outcomes.take(outcomes.len() - 1) =~= outcomes.drop_last());
}

/// Privacy, where files have permission bits: the new bytes are never even briefly
/// readable by others. From the write to the rename the temporary file is the
/// owner's alone; at every moment, after a failed write, flush or rename too,
/// whatever others can read of the two files holds nothing new; and nor does the
/// target that a crash leaves.
pub proof fn law_the_bytes_are_never_exposed(
    bytes: Seq<u8>,
    outcomes: Seq<bool>,
    disks: Seq<DiskImage>,
    found: Option<FileImage>,
)
    requires
        execution(true, bytes, outcomes, disks),
        disks[0].target is Some ==> disks[0].target->0.durable,
        may_crash_with(step_after(true, outcomes), disks[0].target, disks.last(), found),
    ensures
        ({
            let step = step_after(true, outcomes);
            step == WriteStep::WriteTemp || step == WriteStep::SyncTemp || step
                == WriteStep::ReplaceTarget ==> disks.last().temp is Some
                && disks.last().temp->0.owner_only
        }),
        step_after(true, outcomes) == WriteStep::Done ==> disks.last().target is Some
            && disks.last().target->0.owner_only,
        temp_tells_nothing(disks[0].temp, disks.last().temp),
        target_tells_nothing(disks[0].target, disks.last().target),
        target_tells_nothing(disks[0].target, found),
{
    lemma_intact(true, bytes, outcomes, disks);
}

/// Every attempt is over after at most five steps.
pub proof fn law_every_attempt_ends(unix: bool, outcomes: Seq<bool>)
    requires
        outcomes.len() >= 5,
    ensures
        step_after(unix, outcomes) == WriteStep::Done || step_after(unix, outcomes)
            == WriteStep::Failed,
    decreases outcomes.len(),
{
    if outcomes.len() == 5 {
        reveal_with_fuel(step_after, 6);
    } else {
        law_every_attempt_ends(unix, outcomes.drop_last());
    }
}

} // verus!

//! Staging an update for the next boot.
//!
//! An update is staged in a scratch directory and committed by one rename,
//! so that the armed path never holds part of an update; the boot flag is
//! unset before anything is touched and set only once the update is in
//! place.

use vstd::prelude::*;
use vstd::string::*;
use crate::archive::{
    checked, checked_stream, plausible, stream_after, stream_view, tar_members, xz_decoded,
    xz_decompress,
};
use crate::error::{unit_view, Error, ErrorKind, ErrorView};
use crate::host::{
    performed, HostReply, HostReplyView, HostRequest, HostRequestView, HostState, Tree,
    ARMED_PATH, FIRMWARE_DIR,
};
use crate::identity::{firmware_id, firmware_id_of};
use crate::release::{
    firmware_file, firmware_file_of, released, PayloadsView, ReleaseProgress, ReleaseRequest,
    ReleaseView, UPDATER_FILE,
};

verus! {

/// The failure on a machine that was not booted through UEFI.
pub open spec fn no_boot_environment() -> ErrorView {
    ErrorView { kind: ErrorKind::Precondition, detail: "must be run using UEFI boot"@ }
}

/// The failure to toggle the boot flag.
pub open spec fn flag_failed(detail: Seq<char>) -> ErrorView {
    ErrorView { kind: ErrorKind::Filesystem, detail }
}

/// The failure to remove the armed update.
pub open spec fn remove_failed(detail: Seq<char>) -> ErrorView {
    ErrorView {
        kind: ErrorKind::Filesystem,
        detail: "failed to remove "@ + ARMED_PATH@ + ": "@ + detail,
    }
}

/// The failure to make the scratch directory.
pub open spec fn scratch_failed(detail: Seq<char>) -> ErrorView {
    ErrorView {
        kind: ErrorKind::Filesystem,
        detail: "failed to create temporary directory: "@ + detail,
    }
}

/// The failure to extract the payload `file` into `into`.
pub open spec fn extract_failed(file: Seq<char>, into: Seq<char>, detail: Seq<char>) -> ErrorView {
    ErrorView {
        kind: ErrorKind::Extraction,
        detail: "failed to extract "@ + file + " to "@ + into + ": "@ + detail,
    }
}

/// The failure to rename the scratch directory to the armed path.
pub open spec fn move_failed(scratch: Seq<char>, detail: Seq<char>) -> ErrorView {
    ErrorView {
        kind: ErrorKind::Filesystem,
        detail: "failed to move "@ + scratch + " to "@ + ARMED_PATH@ + ": "@ + detail,
    }
}

/// The directory below `scratch` that takes the firmware payload.
pub open spec fn firmware_dir_of(scratch: Seq<char>) -> Seq<char> {
    scratch + "/"@ + FIRMWARE_DIR@
}

/// Whether `tar` is what the compressed archive `blob` holds, and can be
/// unpacked without a file landing outside the destination.
pub open spec fn ready(blob: Seq<u8>, tar: Seq<u8>) -> bool {
    xz_decoded(blob) == Some(tar) && checked(tar_members(tar)) is Ok
}

/// An update as it is staged: the two payloads as they were fetched, and
/// the stream that each of them holds.
pub struct Staged {
    /// The name of this machine's firmware payload.
    pub firmware_file: Seq<char>,
    pub payloads: PayloadsView,
    /// The stream unpacked into the staged directory.
    pub updater: Seq<u8>,
    /// The stream unpacked into the firmware directory below it.
    pub firmware: Seq<u8>,
}

impl Staged {
    /// Whether this is the update of the release `digest`: the payloads are
    /// those that its manifest lists, intact, and the streams are what they
    /// hold, checked.
    pub open spec fn of_release(self, digest: Seq<char>) -> bool {
        &&& released(digest, self.firmware_file, self.payloads.updater, self.payloads.firmware)
        &&& ready(self.payloads.updater, self.updater)
        &&& ready(self.payloads.firmware, self.firmware)
    }
}

/// How far staging has come.
pub enum ScheduleProgress {
    /// The boot environment is being checked.
    CheckingBoot,
    /// The machine's identity is being read.
    Identifying,
    /// The boot flag is being unset.
    Disarming { firmware_file: Seq<char> },
    /// The armed path is being cleared.
    Clearing { firmware_file: Seq<char> },
    /// The scratch directory is being made.
    Preparing { firmware_file: Seq<char> },
    /// The payloads are being read from the cache.
    Fetching { scratch: Seq<char>, release: ReleaseView },
    /// The updater is being unpacked.
    UnpackingUpdater {
        scratch: Seq<char>,
        firmware_file: Seq<char>,
        payloads: PayloadsView,
        updater: Seq<u8>,
    },
    /// The firmware is being unpacked.
    UnpackingFirmware { scratch: Seq<char>, staged: Staged },
    /// The scratch directory is being renamed to the armed path.
    Committing { scratch: Seq<char>, staged: Staged },
    /// Staging has failed with `error` and the scratch directory is being
    /// removed.
    Abandoning { scratch: Seq<char>, error: ErrorView },
    /// The boot flag is being set.
    Arming { staged: Staged },
    /// The update is armed.
    Armed { staged: Staged },
    /// Staging has failed. `unstaged` says that it failed between the
    /// clearing of the armed path and the commit.
    Failed { error: ErrorView, unstaged: bool },
}

/// The mathematical value of a [`Schedule`].
pub struct ScheduleView {
    /// The digest of the release's manifest.
    pub digest: Seq<char>,
    pub progress: ScheduleProgress,
}

impl ScheduleView {
    /// Staging that has just begun.
    pub open spec fn begin(digest: Seq<char>) -> ScheduleView {
        ScheduleView { digest, progress: ScheduleProgress::CheckingBoot }
    }

    /// The same staging at another point.
    pub open spec fn at(self, progress: ScheduleProgress) -> ScheduleView {
        ScheduleView { progress, ..self }
    }

    /// Staging that has failed with `error` before it changed anything for
    /// certain, or after the commit.
    pub open spec fn failed(self, error: ErrorView) -> ScheduleView {
        self.at(ScheduleProgress::Failed { error, unstaged: false })
    }

    /// Staging that gives up with `error` and has a scratch directory to
    /// remove.
    pub open spec fn abandon(self, scratch: Seq<char>, error: ErrorView) -> ScheduleView {
        self.at(ScheduleProgress::Abandoning { scratch, error })
    }

    /// What staging asks of the host, or `None` once it has ended.
    pub open spec fn pending(self) -> Option<HostRequestView> {
        match self.progress {
            ScheduleProgress::CheckingBoot => Some(HostRequestView::CheckBootEnvironment),
            ScheduleProgress::Identifying => Some(HostRequestView::ReadIdentity),
            ScheduleProgress::Disarming { .. } => Some(HostRequestView::UnsetBootFlag),
            ScheduleProgress::Clearing { .. } => Some(HostRequestView::RemoveArmed),
            ScheduleProgress::Preparing { .. } => Some(HostRequestView::CreateScratch),
            ScheduleProgress::Fetching { release, .. } => match release.pending() {
                Some(request) => Some(HostRequestView::Store(request)),
                None => None,
            },
            ScheduleProgress::UnpackingUpdater { scratch, updater, .. } => Some(
                HostRequestView::UnpackUpdater { tar: updater, into: scratch },
            ),
            ScheduleProgress::UnpackingFirmware { scratch, staged } => Some(
                HostRequestView::UnpackFirmware {
                    tar: staged.firmware,
                    into: firmware_dir_of(scratch),
                },
            ),
            ScheduleProgress::Committing { scratch, .. } => Some(
                HostRequestView::Commit { scratch },
            ),
            ScheduleProgress::Abandoning { scratch, .. } => Some(
                HostRequestView::RemoveScratch { scratch },
            ),
            ScheduleProgress::Arming { .. } => Some(HostRequestView::SetBootFlag),
            ScheduleProgress::Armed { .. } => None,
            ScheduleProgress::Failed { .. } => None,
        }
    }

    /// What staging has come to: success once the update is armed, the
    /// failure once it has failed.
    pub open spec fn outcome(self) -> Option<Result<(), ErrorView>> {
        match self.progress {
            ScheduleProgress::Armed { .. } => Some(Ok(())),
            ScheduleProgress::Failed { error, .. } => Some(Err(error)),
            _ => None,
        }
    }

    /// The archive that is decompressed when `reply` arrives, if one is: the
    /// updater once both payloads are there, the firmware once the updater
    /// is unpacked.
    pub open spec fn decompresses(self, reply: HostReplyView) -> Option<Seq<u8>> {
        match (self.progress, reply) {
            (ScheduleProgress::Fetching { release, .. }, HostReplyView::Store(reply)) => match release.next(
                reply,
            ).progress {
                ReleaseProgress::Done(Ok(payloads)) => Some(payloads.updater),
                _ => None,
            },
            (
                ScheduleProgress::UnpackingUpdater { payloads, .. },
                HostReplyView::Done(Ok(())),
            ) => Some(payloads.firmware),
            _ => None,
        }
    }

    /// Where staging stands once the resolution of the release has come to
    /// `release`, decompression of the updater having given `decoded`.
    pub open spec fn after_release(
        self,
        scratch: Seq<char>,
        release: ReleaseView,
        decoded: Result<Seq<u8>, Seq<char>>,
    ) -> ScheduleView {
        match release.progress {
            ReleaseProgress::Done(Err(e)) => self.abandon(scratch, e),
            ReleaseProgress::Done(Ok(payloads)) => match stream_after(decoded) {
                Err(e) => self.abandon(scratch, extract_failed(UPDATER_FILE@, scratch, e.detail)),
                Ok(updater) => self.at(
                    ScheduleProgress::UnpackingUpdater {
                        scratch,
                        firmware_file: release.firmware_file,
                        payloads,
                        updater,
                    },
                ),
            },
            _ => self.at(ScheduleProgress::Fetching { scratch, release }),
        }
    }

    /// Staging after the host's `reply`, where decompression, if the step
    /// has any, gave `decoded`. The steps follow one another as the variants
    /// of [`ScheduleProgress`] do; the first failure ends staging, by way of
    /// `Abandoning` where there is a scratch directory to remove. A reply to
    /// something that was not asked changes nothing.
    pub open spec fn next(
        self,
        reply: HostReplyView,
        decoded: Result<Seq<u8>, Seq<char>>,
    ) -> ScheduleView {
        match (self.progress, reply) {
            (ScheduleProgress::CheckingBoot, HostReplyView::BootEnvironment(present)) => if present {
                self.at(ScheduleProgress::Identifying)
            } else {
                self.failed(no_boot_environment())
            },
            (
                ScheduleProgress::Identifying,
                HostReplyView::Identity { bios_model, ec_project },
            ) => match firmware_id_of(bios_model, ec_project) {
                Ok(id) => self.at(
                    ScheduleProgress::Disarming { firmware_file: firmware_file_of(id) },
                ),
                Err(e) => self.failed(e),
            },
            (ScheduleProgress::Disarming { firmware_file }, HostReplyView::Done(r)) => match r {
                Ok(()) => self.at(ScheduleProgress::Clearing { firmware_file }),
                Err(detail) => self.failed(flag_failed(detail)),
            },
            (ScheduleProgress::Clearing { firmware_file }, HostReplyView::Done(r)) => match r {
                Ok(()) => self.at(ScheduleProgress::Preparing { firmware_file }),
                Err(detail) => self.failed(remove_failed(detail)),
            },
            (ScheduleProgress::Preparing { firmware_file }, HostReplyView::Scratch(r)) => match r {
                Ok(scratch) => self.at(
                    ScheduleProgress::Fetching {
                        scratch,
                        release: ReleaseView::begin(self.digest, firmware_file, false),
                    },
                ),
                Err(detail) => self.at(
                    ScheduleProgress::Failed { error: scratch_failed(detail), unstaged: true },
                ),
            },
            (ScheduleProgress::Fetching { scratch, release }, HostReplyView::Store(reply)) => self.after_release(
                scratch,
                release.next(reply),
                decoded,
            ),
            (
                ScheduleProgress::UnpackingUpdater { scratch, firmware_file, payloads, updater },
                HostReplyView::Done(r),
            ) => match r {
                Err(detail) => self.abandon(scratch, extract_failed(UPDATER_FILE@, scratch, detail)),
                Ok(()) => match stream_after(decoded) {
                    Err(e) => self.abandon(
                        scratch,
                        extract_failed(firmware_file, firmware_dir_of(scratch), e.detail),
                    ),
                    Ok(firmware) => self.at(
                        ScheduleProgress::UnpackingFirmware {
                            scratch,
                            staged: Staged { firmware_file, payloads, updater, firmware },
                        },
                    ),
                },
            },
            (
                ScheduleProgress::UnpackingFirmware { scratch, staged },
                HostReplyView::Done(r),
            ) => match r {
                Err(detail) => self.abandon(
                    scratch,
                    extract_failed(staged.firmware_file, firmware_dir_of(scratch), detail),
                ),
                Ok(()) => self.at(ScheduleProgress::Committing { scratch, staged }),
            },
            (ScheduleProgress::Committing { scratch, staged }, HostReplyView::Done(r)) => match r {
                Err(detail) => self.abandon(scratch, move_failed(scratch, detail)),
                Ok(()) => self.at(ScheduleProgress::Arming { staged }),
            },
            (ScheduleProgress::Abandoning { error, .. }, HostReplyView::Done(_)) => self.at(
                ScheduleProgress::Failed { error, unstaged: true },
            ),
            (ScheduleProgress::Arming { staged }, HostReplyView::Done(r)) => match r {
                Err(detail) => self.failed(flag_failed(detail)),
                Ok(()) => self.at(ScheduleProgress::Armed { staged }),
            },
            _ => self,
        }
    }

    /// Whether staging can be at `after` once `reply` has arrived: it is
    /// where [`ScheduleView::next`] puts it for what decompression can have
    /// given.
    pub open spec fn steps(self, reply: HostReplyView, after: ScheduleView) -> bool {
        exists|decoded: Result<Seq<u8>, Seq<char>>|
            self.admits(reply, decoded) && after == #[trigger] self.next(reply, decoded)
    }

    /// Whether decompression can have given `decoded` when `reply` arrived.
    pub open spec fn admits(self, reply: HostReplyView, decoded: Result<Seq<u8>, Seq<char>>) -> bool {
        self.decompresses(reply) matches Some(archive) ==> plausible(archive, decoded)
    }

    /// Whether everything that staging holds belongs to the release it was
    /// asked for.
    pub open spec fn sound(self) -> bool {
        match self.progress {
            ScheduleProgress::Fetching { release, .. } => {
                &&& release.sound()
                &&& release.root == self.digest
                &&& !release.remote
                &&& !(release.progress is Done)
            },
            ScheduleProgress::UnpackingUpdater { firmware_file, payloads, updater, .. } => {
                &&& released(self.digest, firmware_file, payloads.updater, payloads.firmware)
                &&& ready(payloads.updater, updater)
            },
            ScheduleProgress::UnpackingFirmware { staged, .. } => staged.of_release(self.digest),
            ScheduleProgress::Committing { staged, .. } => staged.of_release(self.digest),
            ScheduleProgress::Arming { staged } => staged.of_release(self.digest),
            ScheduleProgress::Armed { staged } => staged.of_release(self.digest),
            _ => true,
        }
    }

    /// Whether the host is as staging takes it to be.
    pub open spec fn agrees(self, host: HostState) -> bool {
        match self.progress {
            ScheduleProgress::CheckingBoot => true,
            ScheduleProgress::Identifying => true,
            ScheduleProgress::Disarming { .. } => true,
            ScheduleProgress::Clearing { .. } => !host.boot_flag,
            ScheduleProgress::Preparing { .. } => host.unstaged(),
            ScheduleProgress::Fetching { .. } => host.unstaged() && host.scratch == Some(
                Tree::empty(),
            ),
            ScheduleProgress::UnpackingUpdater { .. } => host.unstaged() && host.scratch == Some(
                Tree::empty(),
            ),
            ScheduleProgress::UnpackingFirmware { staged, .. } => host.unstaged() && host.scratch
                == Some(Tree { updater: Some(staged.updater), firmware: None }),
            ScheduleProgress::Committing { staged, .. } => host.unstaged() && host.scratch == Some(
                Tree::full(staged.updater, staged.firmware),
            ),
            ScheduleProgress::Abandoning { .. } => host.unstaged(),
            ScheduleProgress::Arming { staged } => !host.boot_flag && host.armed == Some(
                Tree::full(staged.updater, staged.firmware),
            ),
            ScheduleProgress::Armed { staged } => host.armed_with(staged.updater, staged.firmware),
            ScheduleProgress::Failed { unstaged, .. } => unstaged ==> host.unstaged(),
        }
    }
}

/// A point of a run: where staging stands, and how the host is.
pub struct Moment {
    pub schedule: ScheduleView,
    pub host: HostState,
}

/// Whether `after` can follow `before` on `reply`: staging has taken the
/// reply, and the host has done what staging had asked of it.
pub open spec fn follows(before: Moment, reply: HostReplyView, after: Moment) -> bool {
    &&& before.schedule.steps(reply, after.schedule)
    &&& match before.schedule.pending() {
        Some(request) => performed(before.host, request, reply, after.host),
        None => after.host == before.host,
    }
}

/// Whether `moments` are a run of staging the release `digest`, driven by
/// `replies`: it begins at the beginning, on any host, and each moment
/// follows the one before.
pub open spec fn is_run(digest: Seq<char>, moments: Seq<Moment>, replies: Seq<HostReplyView>) -> bool {
    &&& moments.len() == replies.len() + 1
    &&& moments[0].schedule == ScheduleView::begin(digest)
    &&& forall|i: int| 0 <= i < replies.len() ==> follows(moments[i], #[trigger] replies[i], moments[i + 1])
}

/// Whether staging has given up or failed with nothing staged.
pub open spec fn given_up(schedule: ScheduleView) -> bool {
    ||| schedule.progress is Abandoning
    ||| schedule.progress matches ScheduleProgress::Failed { unstaged: true, .. }
}

/// One step keeps staging sound and in agreement with the host.
pub proof fn step_keeps_agreement(before: Moment, reply: HostReplyView, after: Moment)
    requires
        before.schedule.sound(),
        before.schedule.agrees(before.host),
        follows(before, reply, after),
    ensures
        after.schedule.sound(),
        after.schedule.agrees(after.host),
        after.schedule.digest == before.schedule.digest,
        given_up(before.schedule) ==> given_up(after.schedule),
{
    let schedule = before.schedule;
    let decoded = choose|decoded: Result<Seq<u8>, Seq<char>>|
        schedule.admits(reply, decoded) && after.schedule == #[trigger] schedule.next(
            reply,
            decoded,
        );
    match (schedule.progress, reply) {
        (ScheduleProgress::Fetching { scratch, release }, HostReplyView::Store(reply)) => {
            crate::release::next_keeps_sound(release, reply);
        },
        _ => {},
    }
}

/// At every moment of a run, staging is sound and agrees with the host.
pub proof fn run_keeps_agreement(
    digest: Seq<char>,
    moments: Seq<Moment>,
    replies: Seq<HostReplyView>,
    at: int,
)
    requires
        is_run(digest, moments, replies),
        0 <= at < moments.len(),
    ensures
        moments[at].schedule.sound(),
        moments[at].schedule.agrees(moments[at].host),
        moments[at].schedule.digest == digest,
    decreases at,
{
    if at > 0 {
        run_keeps_agreement(digest, moments, replies, at - 1);
        assert(follows(moments[at - 1], replies[at - 1], moments[at - 1 + 1]));
        step_keeps_agreement(moments[at - 1], replies[at - 1], moments[at]);
    }
}

/// Once staging has ended well, the update of the release is armed: the
/// armed path holds what the updater and the firmware payload of that
/// release hold, each fetched intact and checked, and the boot flag is set.
pub proof fn armed_update_is_the_release(
    digest: Seq<char>,
    moments: Seq<Moment>,
    replies: Seq<HostReplyView>,
    at: int,
)
    requires
        is_run(digest, moments, replies),
        0 <= at < moments.len(),
        moments[at].schedule.outcome() == Some(Ok::<(), ErrorView>(())),
    ensures
        moments[at].schedule.progress matches ScheduleProgress::Armed { staged }
            && staged.of_release(digest) && moments[at].host.armed_with(
            staged.updater,
            staged.firmware,
        ),
{
    run_keeps_agreement(digest, moments, replies, at);
}

/// Once staging has given up, it stays so, and nothing is staged: from
/// then on the armed path is absent and the boot flag unset.
pub proof fn failed_staging_leaves_nothing(
    digest: Seq<char>,
    moments: Seq<Moment>,
    replies: Seq<HostReplyView>,
    at: int,
    later: int,
)
    requires
        is_run(digest, moments, replies),
        0 <= at <= later < moments.len(),
        given_up(moments[at].schedule),
    ensures
        given_up(moments[later].schedule),
        moments[later].host.unstaged(),
    decreases later - at,
{
    run_keeps_agreement(digest, moments, replies, later);
    if at < later {
        failed_staging_leaves_nothing(digest, moments, replies, at, later - 1);
        run_keeps_agreement(digest, moments, replies, later - 1);
        assert(follows(moments[later - 1], replies[later - 1], moments[later - 1 + 1]));
        step_keeps_agreement(moments[later - 1], replies[later - 1], moments[later]);
    }
}

/// Staging takes its payloads from local storage and from nowhere else:
/// of the cache it only ever asks to read, and it asks for no root pointer.
pub proof fn staging_reads_local_storage_only(
    digest: Seq<char>,
    moments: Seq<Moment>,
    replies: Seq<HostReplyView>,
    at: int,
)
    requires
        is_run(digest, moments, replies),
        0 <= at < moments.len(),
    ensures
        moments[at].schedule.pending() != Some(HostRequestView::FetchRootPointer),
        moments[at].schedule.pending() matches Some(HostRequestView::Store(request))
            ==> request is Read,
{
    run_keeps_agreement(digest, moments, replies, at);
}

/// The scratch directory that staging has in hand, if it has one.
pub open spec fn scratch_of(schedule: ScheduleView) -> Option<Seq<char>> {
    match schedule.progress {
        ScheduleProgress::Fetching { scratch, .. } => Some(scratch),
        ScheduleProgress::UnpackingUpdater { scratch, .. } => Some(scratch),
        ScheduleProgress::UnpackingFirmware { scratch, .. } => Some(scratch),
        ScheduleProgress::Committing { scratch, .. } => Some(scratch),
        _ => None,
    }
}

/// No failure leaves the scratch directory behind unasked: while staging
/// has one in hand it never fails outright. It goes on with the same
/// directory, or has committed it, or gives up, and then the next thing it
/// asks is the removal of that directory.
pub proof fn failure_removes_the_scratch_directory(
    schedule: ScheduleView,
    reply: HostReplyView,
    decoded: Result<Seq<u8>, Seq<char>>,
)
    requires
        scratch_of(schedule) is Some,
    ensures
        ({
            let after = schedule.next(reply, decoded);
            ||| scratch_of(after) == scratch_of(schedule)
            ||| after.progress is Arming && schedule.progress is Committing
            ||| after.progress is Abandoning && after.pending() == Some(
                HostRequestView::RemoveScratch { scratch: scratch_of(schedule)->Some_0 },
            )
        }),
{
}

/// Whether `request` changes what is on the boot volume.
pub open spec fn changes_volume(request: HostRequestView) -> bool {
    ||| request is RemoveArmed
    ||| request is CreateScratch
    ||| request is UnpackUpdater
    ||| request is UnpackFirmware
    ||| request is Commit
    ||| request is RemoveScratch
}

/// The boot volume is only changed while the boot flag is unset: whenever
/// staging asks for such a change, the flag has been unset and not been set
/// since.
pub proof fn volume_changes_only_while_disarmed(
    digest: Seq<char>,
    moments: Seq<Moment>,
    replies: Seq<HostReplyView>,
    at: int,
)
    requires
        is_run(digest, moments, replies),
        0 <= at < moments.len(),
        moments[at].schedule.pending() matches Some(request) && changes_volume(request),
    ensures
        !moments[at].host.boot_flag,
{
    run_keeps_agreement(digest, moments, replies, at);
}

/// Only a whole update is committed: whenever staging asks for the rename,
/// the scratch directory holds both payloads of the release, unpacked, and
/// the armed path is absent.
pub proof fn commit_moves_a_whole_update(
    digest: Seq<char>,
    moments: Seq<Moment>,
    replies: Seq<HostReplyView>,
    at: int,
)
    requires
        is_run(digest, moments, replies),
        0 <= at < moments.len(),
        moments[at].schedule.pending() matches Some(HostRequestView::Commit { .. }),
    ensures
        moments[at].schedule.progress matches ScheduleProgress::Committing { staged, .. }
            && staged.of_release(digest) && moments[at].host.scratch == Some(
            Tree::full(staged.updater, staged.firmware),
        ) && moments[at].host.armed is None,
{
    run_keeps_agreement(digest, moments, replies, at);
}

/// The boot flag is only set on a whole update: whenever staging asks for
/// it, the armed path holds both payloads of the release, and nothing else
/// is asked after it.
pub proof fn flag_is_set_only_on_a_whole_update(
    digest: Seq<char>,
    moments: Seq<Moment>,
    replies: Seq<HostReplyView>,
    at: int,
)
    requires
        is_run(digest, moments, replies),
        0 <= at < moments.len(),
        moments[at].schedule.pending() == Some(HostRequestView::SetBootFlag),
    ensures
        moments[at].schedule.progress matches ScheduleProgress::Arming { staged }
            && staged.of_release(digest) && moments[at].host.armed == Some(
            Tree::full(staged.updater, staged.firmware),
        ),
        forall|reply: HostReplyView, decoded: Result<Seq<u8>, Seq<char>>|
            #![trigger moments[at].schedule.next(reply, decoded)]
            moments[at].schedule.next(reply, decoded).pending() is None
                || moments[at].schedule.next(reply, decoded) == moments[at].schedule,
{
    run_keeps_agreement(digest, moments, replies, at);
}

/// A firmware payload that cannot be extracted makes staging give up:
/// whether the host fails to unpack it, or it cannot be decompressed or
/// holds a member that would leave the destination.
pub proof fn failed_extraction_gives_up(
    schedule: ScheduleView,
    reply: HostReplyView,
    decoded: Result<Seq<u8>, Seq<char>>,
)
    requires
        ({
            ||| schedule.progress is UnpackingFirmware && reply matches HostReplyView::Done(Err(_))
            ||| schedule.progress is UnpackingUpdater && reply == HostReplyView::Done(Ok(()))
                && stream_after(decoded) is Err
        }),
    ensures
        given_up(schedule.next(reply, decoded)),
        schedule.next(reply, decoded).progress matches ScheduleProgress::Abandoning { error, .. }
            && error.kind == ErrorKind::Extraction,
{
}

/// Without the boot environment staging fails at once, with a precondition
/// failure, and the host is as it was: nothing but the check was asked of
/// it.
pub proof fn missing_boot_environment_changes_nothing(
    digest: Seq<char>,
    moments: Seq<Moment>,
    replies: Seq<HostReplyView>,
    at: int,
)
    requires
        is_run(digest, moments, replies),
        1 <= at < moments.len(),
        replies[0] == HostReplyView::BootEnvironment(false),
    ensures
        moments[at].schedule.outcome() == Some(Err::<(), ErrorView>(no_boot_environment())),
        moments[at].schedule.pending() is None,
        moments[at].host == moments[0].host,
    decreases at,
{
    assert(follows(moments[at - 1], replies[at - 1], moments[at - 1 + 1]));
    if at > 1 {
        missing_boot_environment_changes_nothing(digest, moments, replies, at - 1);
    }
}

/// The failure to extract the payload `file` into `into`.
fn extract_failure(file: &str, into: &str, detail: &str) -> (e: Error)
    ensures
        e@ == extract_failed(file@, into@, detail@),
{
    let text = String::from_str("failed to extract ").concat(file).concat(" to ").concat(
        into,
    ).concat(": ").concat(detail);
    Error::new(ErrorKind::Extraction, text)
}

/// The failure to remove the armed update.
fn remove_failure(detail: &str) -> (e: Error)
    ensures
        e@ == remove_failed(detail@),
{
    let text = String::from_str("failed to remove ").concat(ARMED_PATH).concat(": ").concat(detail);
    Error::new(ErrorKind::Filesystem, text)
}

/// The failure to rename the scratch directory to the armed path.
fn move_failure(scratch: &str, detail: &str) -> (e: Error)
    ensures
        e@ == move_failed(scratch@, detail@),
{
    let text = String::from_str("failed to move ").concat(scratch).concat(" to ").concat(
        ARMED_PATH,
    ).concat(": ").concat(detail);
    Error::new(ErrorKind::Filesystem, text)
}

/// The failure to make the scratch directory.
fn scratch_failure(detail: &str) -> (e: Error)
    ensures
        e@ == scratch_failed(detail@),
{
    let text = String::from_str("failed to create temporary directory: ").concat(detail);
    Error::new(ErrorKind::Filesystem, text)
}

enum Stage {
    CheckingBoot,
    Identifying,
    Disarming { firmware_file: String },
    Clearing { firmware_file: String },
    Preparing { firmware_file: String },
    Fetching { scratch: String, firmware_file: String, release: ReleaseRequest },
    UnpackingUpdater {
        scratch: String,
        firmware_file: String,
        updater_blob: Ghost<Seq<u8>>,
        firmware_blob: Vec<u8>,
        updater: Vec<u8>,
    },
    UnpackingFirmware {
        scratch: String,
        firmware_file: String,
        into: String,
        staged: Ghost<Staged>,
        firmware: Vec<u8>,
    },
    Committing { scratch: String, staged: Ghost<Staged> },
    Abandoning { scratch: String, error: Error },
    Arming { staged: Ghost<Staged> },
    Armed { staged: Ghost<Staged> },
    Failed { error: Error, unstaged: Ghost<bool> },
}

impl Stage {
    spec fn progress(self) -> ScheduleProgress {
        match self {
            Stage::CheckingBoot => ScheduleProgress::CheckingBoot,
            Stage::Identifying => ScheduleProgress::Identifying,
            Stage::Disarming { firmware_file } => ScheduleProgress::Disarming {
                firmware_file: firmware_file@,
            },
            Stage::Clearing { firmware_file } => ScheduleProgress::Clearing {
                firmware_file: firmware_file@,
            },
            Stage::Preparing { firmware_file } => ScheduleProgress::Preparing {
                firmware_file: firmware_file@,
            },
            Stage::Fetching { scratch, firmware_file, release } => ScheduleProgress::Fetching {
                scratch: scratch@,
                release: release@,
            },
            Stage::UnpackingUpdater {
                scratch,
                firmware_file,
                updater_blob,
                firmware_blob,
                updater,
            } => ScheduleProgress::UnpackingUpdater {
                scratch: scratch@,
                firmware_file: firmware_file@,
                payloads: PayloadsView { updater: updater_blob@, firmware: firmware_blob@ },
                updater: updater@,
            },
            Stage::UnpackingFirmware { scratch, staged, .. } => ScheduleProgress::UnpackingFirmware {
                scratch: scratch@,
                staged: staged@,
            },
            Stage::Committing { scratch, staged } => ScheduleProgress::Committing {
                scratch: scratch@,
                staged: staged@,
            },
            Stage::Abandoning { scratch, error } => ScheduleProgress::Abandoning {
                scratch: scratch@,
                error: error@,
            },
            Stage::Arming { staged } => ScheduleProgress::Arming { staged: staged@ },
            Stage::Armed { staged } => ScheduleProgress::Armed { staged: staged@ },
            Stage::Failed { error, unstaged } => ScheduleProgress::Failed {
                error: error@,
                unstaged: unstaged@,
            },
        }
    }

    /// Whether what the stage keeps beside its view fits the view.
    spec fn kept_right(self) -> bool {
        match self {
            Stage::Fetching { firmware_file, release, .. } => release@.firmware_file
                == firmware_file@,
            Stage::UnpackingFirmware { scratch, firmware_file, into, staged, firmware } => {
                &&& staged@.firmware == firmware@
                &&& staged@.firmware_file == firmware_file@
                &&& into@ == firmware_dir_of(scratch@)
            },
            _ => true,
        }
    }
}

/// The staging of one update.
pub struct Schedule {
    digest: String,
    stage: Stage,
}

impl View for Schedule {
    type V = ScheduleView;

    closed spec fn view(&self) -> ScheduleView {
        ScheduleView { digest: self.digest@, progress: self.stage.progress() }
    }
}

impl Schedule {
    #[verifier::type_invariant]
    spec fn well_formed(self) -> bool {
        self@.sound() && self.stage.kept_right()
    }

    /// The staging of the release whose manifest has the digest `digest`.
    pub fn begin(digest: String) -> (schedule: Schedule)
        ensures
            schedule@ == ScheduleView::begin(digest@),
    {
        Schedule { digest, stage: Stage::CheckingBoot }
    }

    /// What to ask of the host next, or `None` once staging has ended.
    pub fn pending(&self) -> (request: Option<HostRequest<'_>>)
        ensures
            match request {
                Some(r) => self@.pending() == Some(r@),
                None => self@.pending() is None,
            },
            self@.sound(),
    {
        proof {
            use_type_invariant(self);
        }
        match &self.stage {
            Stage::CheckingBoot => Some(HostRequest::CheckBootEnvironment),
            Stage::Identifying => Some(HostRequest::ReadIdentity),
            Stage::Disarming { .. } => Some(HostRequest::UnsetBootFlag),
            Stage::Clearing { .. } => Some(HostRequest::RemoveArmed),
            Stage::Preparing { .. } => Some(HostRequest::CreateScratch),
            Stage::Fetching { release, .. } => match release.pending() {
                Some(request) => Some(HostRequest::Store(request)),
                None => None,
            },
            Stage::UnpackingUpdater { scratch, updater, .. } => Some(
                HostRequest::UnpackUpdater { tar: updater.as_slice(), into: scratch.as_str() },
            ),
            Stage::UnpackingFirmware { into, firmware, .. } => Some(
                HostRequest::UnpackFirmware { tar: firmware.as_slice(), into: into.as_str() },
            ),
            Stage::Committing { scratch, .. } => Some(
                HostRequest::Commit { scratch: scratch.as_str() },
            ),
            Stage::Abandoning { scratch, .. } => Some(
                HostRequest::RemoveScratch { scratch: scratch.as_str() },
            ),
            Stage::Arming { .. } => Some(HostRequest::SetBootFlag),
            Stage::Armed { .. } => None,
            Stage::Failed { .. } => None,
        }
    }

    /// Takes the host's reply.
    pub fn step(self, reply: HostReply) -> (schedule: Schedule)
        ensures
            self@.steps(reply@, schedule@),
            schedule@.sound(),
    {
        proof {
            use_type_invariant(&self);
        }
        let ghost before = self@;
        let ghost mut decoded: Result<Seq<u8>, Seq<char>> = Err(Seq::empty());
        let Schedule { digest, stage } = self;
        let stage = match (stage, reply) {
            (Stage::CheckingBoot, HostReply::BootEnvironment(present)) => {
                if present {
                    Stage::Identifying
                } else {
                    let detail = String::from_str("must be run using UEFI boot");
                    Stage::Failed {
                        error: Error::new(ErrorKind::Precondition, detail),
                        unstaged: Ghost(false),
                    }
                }
            },
            (Stage::Identifying, HostReply::Identity { bios_model, ec_project }) => {
                match firmware_id(bios_model, ec_project) {
                    Ok(id) => Stage::Disarming { firmware_file: firmware_file(id.as_str()) },
                    Err(error) => Stage::Failed { error, unstaged: Ghost(false) },
                }
            },
            (Stage::Disarming { firmware_file }, HostReply::Done(r)) => match r {
                Ok(()) => Stage::Clearing { firmware_file },
                Err(detail) => Stage::Failed {
                    error: Error::new(ErrorKind::Filesystem, detail),
                    unstaged: Ghost(false),
                },
            },
            (Stage::Clearing { firmware_file }, HostReply::Done(r)) => match r {
                Ok(()) => Stage::Preparing { firmware_file },
                Err(detail) => Stage::Failed {
                    error: remove_failure(detail.as_str()),
                    unstaged: Ghost(false),
                },
            },
            (Stage::Preparing { firmware_file }, HostReply::Scratch(r)) => match r {
                Ok(scratch) => {
                    let release = ReleaseRequest::begin(
                        digest.clone(),
                        firmware_file.clone(),
                        false,
                    );
                    Stage::Fetching { scratch, firmware_file, release }
                },
                Err(detail) => Stage::Failed {
                    error: scratch_failure(detail.as_str()),
                    unstaged: Ghost(true),
                },
            },
            (Stage::Fetching { scratch, firmware_file, release }, HostReply::Store(reply)) => {
                match release.step(reply).outcome() {
                    Err(release) => Stage::Fetching { scratch, firmware_file, release },
                    Ok(Err(error)) => Stage::Abandoning { scratch, error },
                    Ok(Ok(payloads)) => {
                        let unpacked = xz_decompress(payloads.updater.as_slice());
                        proof {
                            decoded = stream_view(unpacked);
                        }
                        match checked_stream(unpacked) {
                            Err(e) => {
                                let error = extract_failure(
                                    UPDATER_FILE,
                                    scratch.as_str(),
                                    e.detail.as_str(),
                                );
                                Stage::Abandoning { scratch, error }
                            },
                            Ok(updater) => Stage::UnpackingUpdater {
                                scratch,
                                firmware_file,
                                updater_blob: Ghost(payloads.updater@),
                                firmware_blob: payloads.firmware,
                                updater,
                            },
                        }
                    },
                }
            },
            (
                Stage::UnpackingUpdater {
                    scratch,
                    firmware_file,
                    updater_blob,
                    firmware_blob,
                    updater,
                },
                HostReply::Done(r),
            ) => match r {
                Err(detail) => {
                    let error = extract_failure(UPDATER_FILE, scratch.as_str(), detail.as_str());
                    Stage::Abandoning { scratch, error }
                },
                Ok(()) => {
                    let into = String::from_str(scratch.as_str()).concat("/").concat(FIRMWARE_DIR);
                    let unpacked = xz_decompress(firmware_blob.as_slice());
                    proof {
                        decoded = stream_view(unpacked);
                    }
                    match checked_stream(unpacked) {
                        Err(e) => {
                            let error = extract_failure(
                                firmware_file.as_str(),
                                into.as_str(),
                                e.detail.as_str(),
                            );
                            Stage::Abandoning { scratch, error }
                        },
                        Ok(firmware) => {
                            let ghost staged = Staged {
                                firmware_file: firmware_file@,
                                payloads: PayloadsView {
                                    updater: updater_blob@,
                                    firmware: firmware_blob@,
                                },
                                updater: updater@,
                                firmware: firmware@,
                            };
                            Stage::UnpackingFirmware {
                                scratch,
                                firmware_file,
                                into,
                                staged: Ghost(staged),
                                firmware,
                            }
                        },
                    }
                },
            },
            (
                Stage::UnpackingFirmware { scratch, firmware_file, into, staged, firmware },
                HostReply::Done(r),
            ) => match r {
                Err(detail) => {
                    let error = extract_failure(
                        firmware_file.as_str(),
                        into.as_str(),
                        detail.as_str(),
                    );
                    Stage::Abandoning { scratch, error }
                },
                Ok(()) => Stage::Committing { scratch, staged },
            },
            (Stage::Committing { scratch, staged }, HostReply::Done(r)) => match r {
                Err(detail) => {
                    let error = move_failure(scratch.as_str(), detail.as_str());
                    Stage::Abandoning { scratch, error }
                },
                Ok(()) => Stage::Arming { staged },
            },
            (Stage::Abandoning { scratch, error }, HostReply::Done(_)) => Stage::Failed {
                error,
                unstaged: Ghost(true),
            },
            (Stage::Arming { staged }, HostReply::Done(r)) => match r {
                Err(detail) => Stage::Failed {
                    error: Error::new(ErrorKind::Filesystem, detail),
                    unstaged: Ghost(false),
                },
                Ok(()) => Stage::Armed { staged },
            },
            (stage, _) => stage,
        };
        let schedule = Schedule { digest, stage };
        assert(before.admits(reply@, decoded) && schedule@ == before.next(reply@, decoded));
        schedule
    }

    /// How staging has ended, once it has. Until then, the staging itself.
    pub fn outcome(self) -> (answer: Result<Result<(), Error>, Schedule>)
        ensures
            match answer {
                Ok(r) => self@.outcome() == Some(unit_view(r)),
                Err(schedule) => schedule@ == self@ && self@.pending() is Some,
            },
    {
        proof {
            use_type_invariant(&self);
        }
        let Schedule { digest, stage } = self;
        match stage {
            Stage::Armed { .. } => Ok(Ok(())),
            Stage::Failed { error, .. } => Ok(Err(error)),
            stage => Err(Schedule { digest, stage }),
        }
    }
}

} // verus!

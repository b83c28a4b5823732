//! Downloading the current release: the root pointer names its manifest, the
//! cache fetches and verifies what the manifest lists, and the firmware
//! payload tells what has changed.

use vstd::prelude::*;
use vstd::string::*;
use crate::archive::{
    decoded_text, member_after, plausible, read_member, stream_view, tar_members, text_of,
    xz_decoded, xz_decompress, member_content,
};
use crate::error::{text_view, Error, ErrorKind, ErrorView};
use crate::host::{HostReply, HostReplyView, HostRequest, HostRequestView};
use crate::identity::{firmware_id, firmware_id_of};
use crate::release::{
    firmware_file, firmware_file_of, released, PayloadsView, ReleaseProgress, ReleaseRequest,
    ReleaseView,
};

verus! {

/// The member of a firmware payload that tells what has changed.
pub const CHANGELOG: &'static str = "./changelog.json";

/// The changelog of a firmware payload, where decompressing it gave
/// `decoded`: the member [`CHANGELOG`] of that stream, as text.
pub open spec fn changelog_after(decoded: Result<Seq<u8>, Seq<char>>) -> Result<
    Seq<char>,
    ErrorView,
> {
    match member_after(decoded, CHANGELOG@) {
        Ok(bytes) => decoded_text(bytes),
        Err(e) => Err(e),
    }
}

/// What a download announces, and where it has it from.
pub struct Announcement {
    /// The digest of the release's manifest, as the root pointer named it.
    pub digest: Seq<char>,
    /// The changelog of this machine's firmware.
    pub changelog: Seq<char>,
    /// The name of this machine's firmware payload.
    pub firmware_file: Seq<char>,
    /// The payloads as they were fetched.
    pub payloads: PayloadsView,
}

impl Announcement {
    /// Whether the announcement is true of the release `digest`: the
    /// payloads are those that its manifest lists, intact, and the changelog
    /// is what the firmware payload holds under [`CHANGELOG`].
    pub open spec fn of_release(self) -> bool {
        &&& released(self.digest, self.firmware_file, self.payloads.updater, self.payloads.firmware)
        &&& xz_decoded(self.payloads.firmware) matches Some(tar)
        &&& member_content(tar_members(tar), CHANGELOG@) matches Ok(bytes)
        &&& decoded_text(bytes) == Ok::<_, ErrorView>(self.changelog)
    }
}

/// How far a download has come.
pub enum DownloadProgress {
    /// The machine's identity is being read.
    Identifying,
    /// The root pointer is being fetched.
    Pointing { firmware_file: Seq<char> },
    /// The manifest and the payloads are being fetched.
    Fetching { release: ReleaseView },
    /// The release is in the cache.
    Announced { announcement: Announcement },
    /// The download has failed.
    Failed { error: ErrorView },
}

/// The mathematical value of a [`Download`].
pub struct DownloadView {
    pub progress: DownloadProgress,
}

impl DownloadView {
    /// A download that has just begun.
    pub open spec fn begin() -> DownloadView {
        DownloadView { progress: DownloadProgress::Identifying }
    }

    /// A download at `progress`.
    pub open spec fn at(progress: DownloadProgress) -> DownloadView {
        DownloadView { progress }
    }

    /// A download that has failed with `error`.
    pub open spec fn failed(error: ErrorView) -> DownloadView {
        DownloadView { progress: DownloadProgress::Failed { error } }
    }

    /// What the download asks of the host, or `None` once it has ended.
    pub open spec fn pending(self) -> Option<HostRequestView> {
        match self.progress {
            DownloadProgress::Identifying => Some(HostRequestView::ReadIdentity),
            DownloadProgress::Pointing { .. } => Some(HostRequestView::FetchRootPointer),
            DownloadProgress::Fetching { release } => match release.pending() {
                Some(request) => Some(HostRequestView::Store(request)),
                None => None,
            },
            DownloadProgress::Announced { .. } => None,
            DownloadProgress::Failed { .. } => None,
        }
    }

    /// What the download has come to: the digest of the release and the
    /// changelog, or the failure.
    pub open spec fn outcome(self) -> Option<Result<(Seq<char>, Seq<char>), ErrorView>> {
        match self.progress {
            DownloadProgress::Announced { announcement } => Some(
                Ok((announcement.digest, announcement.changelog)),
            ),
            DownloadProgress::Failed { error } => Some(Err(error)),
            _ => None,
        }
    }

    /// The archive that is decompressed when `reply` arrives, if one is: the
    /// firmware payload, once both payloads are there.
    pub open spec fn decompresses(self, reply: HostReplyView) -> Option<Seq<u8>> {
        match (self.progress, reply) {
            (DownloadProgress::Fetching { release }, HostReplyView::Store(reply)) => match release.next(
                reply,
            ).progress {
                ReleaseProgress::Done(Ok(payloads)) => Some(payloads.firmware),
                _ => None,
            },
            _ => None,
        }
    }

    /// Where the download stands once the resolution of the release has
    /// come to `release`, decompression of the firmware having given
    /// `decoded`.
    pub open spec fn after_release(
        release: ReleaseView,
        decoded: Result<Seq<u8>, Seq<char>>,
    ) -> DownloadView {
        match release.progress {
            ReleaseProgress::Done(Err(error)) => DownloadView::failed(error),
            ReleaseProgress::Done(Ok(payloads)) => match changelog_after(decoded) {
                Err(error) => DownloadView::failed(error),
                Ok(changelog) => DownloadView::at(
                    DownloadProgress::Announced {
                        announcement: Announcement {
                            digest: release.root,
                            changelog,
                            firmware_file: release.firmware_file,
                            payloads,
                        },
                    },
                ),
            },
            _ => DownloadView::at(DownloadProgress::Fetching { release }),
        }
    }

    /// The download after the host's `reply`, where decompression, if the
    /// step has any, gave `decoded`: the identity first, then the root
    /// pointer, then the release it names, with the remote source behind
    /// the cache. The first failure ends it. A reply to something that was
    /// not asked changes nothing.
    pub open spec fn next(
        self,
        reply: HostReplyView,
        decoded: Result<Seq<u8>, Seq<char>>,
    ) -> DownloadView {
        match (self.progress, reply) {
            (
                DownloadProgress::Identifying,
                HostReplyView::Identity { bios_model, ec_project },
            ) => match firmware_id_of(bios_model, ec_project) {
                Ok(id) => DownloadView::at(
                    DownloadProgress::Pointing { firmware_file: firmware_file_of(id) },
                ),
                Err(error) => DownloadView::failed(error),
            },
            (DownloadProgress::Pointing { firmware_file }, HostReplyView::RootPointer(r)) => match r {
                Ok(root) => DownloadView::at(
                    DownloadProgress::Fetching {
                        release: ReleaseView::begin(root, firmware_file, true),
                    },
                ),
                Err(detail) => DownloadView::failed(ErrorView { kind: ErrorKind::Trust, detail }),
            },
            (DownloadProgress::Fetching { release }, HostReplyView::Store(reply)) => DownloadView::after_release(
                release.next(reply),
                decoded,
            ),
            _ => self,
        }
    }

    /// Whether decompression can have given `decoded` when `reply` arrived.
    pub open spec fn admits(self, reply: HostReplyView, decoded: Result<Seq<u8>, Seq<char>>) -> bool {
        self.decompresses(reply) matches Some(archive) ==> plausible(archive, decoded)
    }

    /// Whether the download can be at `after` once `reply` has arrived.
    pub open spec fn steps(self, reply: HostReplyView, after: DownloadView) -> bool {
        exists|decoded: Result<Seq<u8>, Seq<char>>|
            self.admits(reply, decoded) && after == #[trigger] self.next(reply, decoded)
    }

    /// Whether everything that the download holds belongs to the release
    /// that the root pointer named.
    pub open spec fn sound(self) -> bool {
        match self.progress {
            DownloadProgress::Fetching { release } => {
                &&& release.sound()
                &&& release.remote
                &&& !(release.progress is Done)
            },
            DownloadProgress::Announced { announcement } => announcement.of_release(),
            _ => true,
        }
    }
}

/// Whether `moments` are a run of a download driven by `replies`.
pub open spec fn is_run(moments: Seq<DownloadView>, replies: Seq<HostReplyView>) -> bool {
    &&& moments.len() == replies.len() + 1
    &&& moments[0] == DownloadView::begin()
    &&& forall|i: int| 0 <= i < replies.len() ==> moments[i].steps(#[trigger] replies[i], moments[i + 1])
}

/// One step keeps a download sound.
pub proof fn step_keeps_sound(before: DownloadView, reply: HostReplyView, after: DownloadView)
    requires
        before.sound(),
        before.steps(reply, after),
    ensures
        after.sound(),
{
    match (before.progress, reply) {
        (DownloadProgress::Fetching { release }, HostReplyView::Store(reply)) => {
            crate::release::next_keeps_sound(release, reply);
        },
        _ => {},
    }
}

/// Whatever the host answers, a download announces a release only once its
/// manifest and both payloads have been fetched intact, and the changelog it
/// announces is the one in this machine's firmware payload.
pub proof fn announcement_is_the_release(
    moments: Seq<DownloadView>,
    replies: Seq<HostReplyView>,
    at: int,
)
    requires
        is_run(moments, replies),
        0 <= at < moments.len(),
    ensures
        moments[at].sound(),
        moments[at].progress matches DownloadProgress::Announced { announcement }
            ==> announcement.of_release(),
    decreases at,
{
    if at > 0 {
        announcement_is_the_release(moments, replies, at - 1);
        assert(moments[at - 1].steps(replies[at - 1], moments[at - 1 + 1]));
        step_keeps_sound(moments[at - 1], replies[at - 1], moments[at]);
    }
}

enum Stage {
    Identifying,
    Pointing { firmware_file: String },
    Fetching { root: String, wanted: Ghost<Seq<char>>, release: ReleaseRequest },
    Announced { digest: String, changelog: String, announcement: Ghost<Announcement> },
    Failed { error: Error },
}

impl Stage {
    spec fn progress(self) -> DownloadProgress {
        match self {
            Stage::Identifying => DownloadProgress::Identifying,
            Stage::Pointing { firmware_file } => DownloadProgress::Pointing {
                firmware_file: firmware_file@,
            },
            Stage::Fetching { release, .. } => DownloadProgress::Fetching { release: release@ },
            Stage::Announced { announcement, .. } => DownloadProgress::Announced {
                announcement: announcement@,
            },
            Stage::Failed { error } => DownloadProgress::Failed { error: error@ },
        }
    }

    /// Whether what the stage keeps beside its view fits the view.
    spec fn kept_right(self) -> bool {
        match self {
            Stage::Fetching { root, wanted, release } => release@.root == root@
                && release@.firmware_file == wanted@,
            Stage::Announced { digest, changelog, announcement } => announcement@.digest
                == digest@ && announcement@.changelog == changelog@,
            _ => true,
        }
    }
}

/// The view of a digest and a changelog, or of the failure to get them.
pub open spec fn announced_view(r: Result<(String, String), Error>) -> Result<
    (Seq<char>, Seq<char>),
    ErrorView,
> {
    match r {
        Ok((digest, changelog)) => Ok((digest@, changelog@)),
        Err(e) => Err(e@),
    }
}

/// The changelog in what decompressing a firmware payload returned.
pub fn changelog_in(decoded: Result<Vec<u8>, String>) -> (r: Result<String, Error>)
    ensures
        text_view(r) == changelog_after(stream_view(decoded)),
{
    match decoded {
        Err(detail) => Err(Error::new(ErrorKind::Extraction, detail)),
        Ok(tar) => match read_member(tar.as_slice(), CHANGELOG) {
            Err(e) => Err(e),
            Ok(bytes) => text_of(bytes),
        },
    }
}

/// The download of the current release.
pub struct Download {
    stage: Stage,
}

impl View for Download {
    type V = DownloadView;

    closed spec fn view(&self) -> DownloadView {
        DownloadView { progress: self.stage.progress() }
    }
}

impl Download {
    #[verifier::type_invariant]
    spec fn well_formed(self) -> bool {
        self@.sound() && self.stage.kept_right()
    }

    /// A download of whatever release the root pointer names.
    pub fn begin() -> (download: Download)
        ensures
            download@ == DownloadView::begin(),
    {
        Download { stage: Stage::Identifying }
    }

    /// What to ask of the host next, or `None` once the download has ended.
    pub fn pending(&self) -> (request: Option<HostRequest<'_>>)
        ensures
            match request {
                Some(r) => self@.pending() == Some(r@),
                None => self@.pending() is None,
            },
            self@.sound(),
    {
        proof {
            use_type_invariant(self);
        }
        match &self.stage {
            Stage::Identifying => Some(HostRequest::ReadIdentity),
            Stage::Pointing { .. } => Some(HostRequest::FetchRootPointer),
            Stage::Fetching { release, .. } => match release.pending() {
                Some(request) => Some(HostRequest::Store(request)),
                None => None,
            },
            Stage::Announced { .. } => None,
            Stage::Failed { .. } => None,
        }
    }

    /// Takes the host's reply.
    pub fn step(self, reply: HostReply) -> (download: Download)
        ensures
            self@.steps(reply@, download@),
            download@.sound(),
    {
        proof {
            use_type_invariant(&self);
        }
        let ghost before = self@;
        let ghost mut decoded: Result<Seq<u8>, Seq<char>> = Err(Seq::empty());
        let stage = match (self.stage, reply) {
            (Stage::Identifying, HostReply::Identity { bios_model, ec_project }) => {
                match firmware_id(bios_model, ec_project) {
                    Ok(id) => Stage::Pointing { firmware_file: firmware_file(id.as_str()) },
                    Err(error) => Stage::Failed { error },
                }
            },
            (Stage::Pointing { firmware_file }, HostReply::RootPointer(r)) => match r {
                Ok(root) => Stage::Fetching {
                    root: root.clone(),
                    wanted: Ghost(firmware_file@),
                    release: ReleaseRequest::begin(root, firmware_file, true),
                },
                Err(detail) => Stage::Failed { error: Error::new(ErrorKind::Trust, detail) },
            },
            (Stage::Fetching { root, wanted, release }, HostReply::Store(reply)) => {
                match release.step(reply).outcome() {
                    Err(release) => Stage::Fetching { root, wanted, release },
                    Ok(Err(error)) => Stage::Failed { error },
                    Ok(Ok(payloads)) => {
                        let unpacked = xz_decompress(payloads.firmware.as_slice());
                        proof {
                            decoded = stream_view(unpacked);
                        }
                        match changelog_in(unpacked) {
                            Err(error) => Stage::Failed { error },
                            Ok(changelog) => {
                                let ghost announcement = Announcement {
                                    digest: root@,
                                    changelog: changelog@,
                                    firmware_file: wanted@,
                                    payloads: payloads@,
                                };
                                Stage::Announced {
                                    digest: root,
                                    changelog,
                                    announcement: Ghost(announcement),
                                }
                            },
                        }
                    },
                }
            },
            (stage, _) => stage,
        };
        let download = Download { stage };
        assert(before.admits(reply@, decoded) && download@ == before.next(reply@, decoded));
        download
    }

    /// The digest of the release and the changelog of this machine's
    /// firmware, or the failure, once the download has ended. Until then,
    /// the download itself.
    pub fn outcome(self) -> (answer: Result<Result<(String, String), Error>, Download>)
        ensures
            match answer {
                Ok(r) => self@.outcome() == Some(announced_view(r)),
                Err(download) => download@ == self@ && self@.pending() is Some,
            },
    {
        proof {
            use_type_invariant(&self);
        }
        match self.stage {
            Stage::Announced { digest, changelog, .. } => Ok(Ok((digest, changelog))),
            Stage::Failed { error } => Ok(Err(error)),
            stage => Err(Download { stage }),
        }
    }
}

} // verus!

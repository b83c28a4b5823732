//! Resolving a release: from the digest of its manifest to the two payloads
//! that staging needs, each fetched through the content cache.

use vstd::prelude::*;
use vstd::string::*;
use crate::cache::{
    intact, ObjectRequest, ObjectRequestView, Progress, StoreReply, StoreReplyView, StoreRequest,
    StoreRequestView,
};
use crate::error::{Error, ErrorView};
use crate::manifest::{lookup_of, manifest_document, parsed, Manifest};

verus! {

/// The name under which every manifest lists the updater payload.
pub const UPDATER_FILE: &'static str = "system76-firmware-update.tar.xz";

/// What follows a firmware identifier in the name of its payload.
pub const PAYLOAD_SUFFIX: &'static str = ".tar.xz";

/// The name under which a manifest lists the firmware payload of the
/// machine `id`.
pub open spec fn firmware_file_of(id: Seq<char>) -> Seq<char> {
    id + PAYLOAD_SUFFIX@
}

/// The name under which a manifest lists the firmware payload of the
/// machine `id`.
pub fn firmware_file(id: &str) -> (name: String)
    ensures
        name@ == firmware_file_of(id@),
{
    String::from_str(id).concat(PAYLOAD_SUFFIX)
}

/// Whether `blob` is the file `name` of the release whose manifest is
/// `document`: the manifest lists the name, and the blob hashes to the
/// digest listed.
pub open spec fn listed(document: Seq<u8>, name: Seq<char>, blob: Seq<u8>) -> bool {
    &&& parsed(manifest_document(document)) matches Ok(manifest)
    &&& manifest.files.contains_key(name)
    &&& intact(manifest.files[name], blob)
}

/// Whether `updater` and `firmware` are the two payloads of the release
/// `root`: some document hashes to `root`, and as a manifest lists both.
pub open spec fn released(
    root: Seq<char>,
    firmware_file: Seq<char>,
    updater: Seq<u8>,
    firmware: Seq<u8>,
) -> bool {
    exists|document: Seq<u8>| #[trigger]
        intact(root, document) && listed(document, UPDATER_FILE@, updater) && listed(
            document,
            firmware_file,
            firmware,
        )
}

/// The two payloads of a release.
#[derive(Debug, PartialEq, Eq)]
pub struct Payloads {
    /// The updater, a compressed archive.
    pub updater: Vec<u8>,
    /// The firmware of this machine, a compressed archive.
    pub firmware: Vec<u8>,
}

/// The mathematical value of [`Payloads`].
pub struct PayloadsView {
    pub updater: Seq<u8>,
    pub firmware: Seq<u8>,
}

impl View for Payloads {
    type V = PayloadsView;

    open spec fn view(&self) -> PayloadsView {
        PayloadsView { updater: self.updater@, firmware: self.firmware@ }
    }
}

/// The view of payloads or the failure to get them.
pub open spec fn payloads_view(r: Result<Payloads, Error>) -> Result<PayloadsView, ErrorView> {
    match r {
        Ok(payloads) => Ok(payloads@),
        Err(e) => Err(e@),
    }
}

/// How far the resolution of a release has come.
pub enum ReleaseProgress {
    /// The manifest is being fetched.
    Manifest { request: ObjectRequestView },
    /// The manifest is `document`; the updater payload is being fetched.
    Updater { document: Seq<u8>, request: ObjectRequestView },
    /// The firmware payload is being fetched.
    Firmware { document: Seq<u8>, updater: Seq<u8>, request: ObjectRequestView },
    /// The resolution has ended.
    Done(Result<PayloadsView, ErrorView>),
}

/// The mathematical value of a [`ReleaseRequest`].
pub struct ReleaseView {
    /// The digest of the manifest.
    pub root: Seq<char>,
    /// The name of this machine's firmware payload.
    pub firmware_file: Seq<char>,
    /// Whether a remote source is configured.
    pub remote: bool,
    pub progress: ReleaseProgress,
}

impl ReleaseView {
    /// A resolution that has just begun.
    pub open spec fn begin(root: Seq<char>, firmware_file: Seq<char>, remote: bool) -> ReleaseView {
        ReleaseView {
            root,
            firmware_file,
            remote,
            progress: ReleaseProgress::Manifest { request: ObjectRequestView::begin(root, remote) },
        }
    }

    /// The same resolution at another point.
    pub open spec fn at(self, progress: ReleaseProgress) -> ReleaseView {
        ReleaseView { progress, ..self }
    }

    /// What the resolution asks of the host, or `None` once it has ended.
    pub open spec fn pending(self) -> Option<StoreRequestView> {
        match self.progress {
            ReleaseProgress::Manifest { request } => request.pending(),
            ReleaseProgress::Updater { request, .. } => request.pending(),
            ReleaseProgress::Firmware { request, .. } => request.pending(),
            ReleaseProgress::Done(_) => None,
        }
    }

    /// Where the resolution stands once the request for the manifest has
    /// come to `request`: an answer is parsed and the updater's name looked
    /// up in it.
    pub open spec fn after_manifest(self, request: ObjectRequestView) -> ReleaseView {
        match request.progress {
            Progress::Done(Err(e)) => self.at(ReleaseProgress::Done(Err(e))),
            Progress::Done(Ok(document)) => match parsed(manifest_document(document)) {
                Err(e) => self.at(ReleaseProgress::Done(Err(e))),
                Ok(manifest) => match lookup_of(manifest.files, UPDATER_FILE@) {
                    Err(e) => self.at(ReleaseProgress::Done(Err(e))),
                    Ok(digest) => self.at(
                        ReleaseProgress::Updater {
                            document,
                            request: ObjectRequestView::begin(digest, self.remote),
                        },
                    ),
                },
            },
            _ => self.at(ReleaseProgress::Manifest { request }),
        }
    }

    /// Where the resolution stands once the request for the updater has come
    /// to `request`: after an answer the firmware's name is looked up.
    pub open spec fn after_updater(
        self,
        document: Seq<u8>,
        request: ObjectRequestView,
    ) -> ReleaseView {
        match request.progress {
            Progress::Done(Err(e)) => self.at(ReleaseProgress::Done(Err(e))),
            Progress::Done(Ok(updater)) => match parsed(manifest_document(document)) {
                Err(e) => self.at(ReleaseProgress::Done(Err(e))),
                Ok(manifest) => match lookup_of(manifest.files, self.firmware_file) {
                    Err(e) => self.at(ReleaseProgress::Done(Err(e))),
                    Ok(digest) => self.at(
                        ReleaseProgress::Firmware {
                            document,
                            updater,
                            request: ObjectRequestView::begin(digest, self.remote),
                        },
                    ),
                },
            },
            _ => self.at(ReleaseProgress::Updater { document, request }),
        }
    }

    /// Where the resolution stands once the request for the firmware has
    /// come to `request`.
    pub open spec fn after_firmware(
        self,
        document: Seq<u8>,
        updater: Seq<u8>,
        request: ObjectRequestView,
    ) -> ReleaseView {
        match request.progress {
            Progress::Done(Err(e)) => self.at(ReleaseProgress::Done(Err(e))),
            Progress::Done(Ok(firmware)) => self.at(
                ReleaseProgress::Done(Ok(PayloadsView { updater, firmware })),
            ),
            _ => self.at(ReleaseProgress::Firmware { document, updater, request }),
        }
    }

    /// The resolution after the host's `reply`: the manifest first, then the
    /// updater, then the firmware, each through the cache, and the first
    /// failure ends it.
    pub open spec fn next(self, reply: StoreReplyView) -> ReleaseView {
        match self.progress {
            ReleaseProgress::Manifest { request } => self.after_manifest(request.next(reply)),
            ReleaseProgress::Updater { document, request } => self.after_updater(
                document,
                request.next(reply),
            ),
            ReleaseProgress::Firmware { document, updater, request } => self.after_firmware(
                document,
                updater,
                request.next(reply),
            ),
            ReleaseProgress::Done(_) => self,
        }
    }

    /// The resolution after each of `replies` in turn.
    pub open spec fn run(self, replies: Seq<StoreReplyView>) -> ReleaseView
        decreases replies.len(),
    {
        if replies.len() == 0 {
            self
        } else {
            self.run(replies.drop_last()).next(replies.last())
        }
    }

    /// Whether `request` is a live request of this resolution for `digest`.
    pub open spec fn asks(self, request: ObjectRequestView, digest: Seq<char>) -> bool {
        &&& request.sound()
        &&& request.digest == digest
        &&& request.remote == self.remote
        &&& !(request.progress is Done)
    }

    /// Whether everything that the resolution holds is what it was asked
    /// for: the document hashes to the root, each request is for the digest
    /// that the document lists, and each payload hashes to its digest.
    pub open spec fn sound(self) -> bool {
        match self.progress {
            ReleaseProgress::Manifest { request } => self.asks(request, self.root),
            ReleaseProgress::Updater { document, request } => {
                &&& intact(self.root, document)
                &&& parsed(manifest_document(document)) matches Ok(manifest)
                &&& manifest.files.contains_key(UPDATER_FILE@)
                &&& self.asks(request, manifest.files[UPDATER_FILE@])
            },
            ReleaseProgress::Firmware { document, updater, request } => {
                &&& intact(self.root, document)
                &&& listed(document, UPDATER_FILE@, updater)
                &&& parsed(manifest_document(document)) matches Ok(manifest)
                &&& manifest.files.contains_key(self.firmware_file)
                &&& self.asks(request, manifest.files[self.firmware_file])
            },
            ReleaseProgress::Done(Ok(payloads)) => released(
                self.root,
                self.firmware_file,
                payloads.updater,
                payloads.firmware,
            ),
            ReleaseProgress::Done(Err(_)) => true,
        }
    }
}

/// A reply keeps a sound resolution sound, and about the same release.
pub proof fn next_keeps_sound(release: ReleaseView, reply: StoreReplyView)
    requires
        release.sound(),
    ensures
        release.next(reply).sound(),
        release.next(reply).root == release.root,
        release.next(reply).firmware_file == release.firmware_file,
        release.next(reply).remote == release.remote,
{
    match release.progress {
        ReleaseProgress::Manifest { request } => {
            crate::cache::next_keeps_sound(request, reply);
        },
        ReleaseProgress::Updater { document, request } => {
            crate::cache::next_keeps_sound(request, reply);
        },
        ReleaseProgress::Firmware { document, updater, request } => {
            crate::cache::next_keeps_sound(request, reply);
            let after = request.next(reply);
            if let Progress::Done(Ok(firmware)) = after.progress {
                assert(intact(release.root, document) && listed(document, UPDATER_FILE@, updater)
                    && listed(document, release.firmware_file, firmware));
            }
        },
        ReleaseProgress::Done(_) => {},
    }
}

/// Whatever the host answers, a resolution ends well only with the payloads
/// of the release it was asked for: a manifest that hashes to the root, and
/// two payloads that hash to the digests which that manifest lists for the
/// updater and for this machine's firmware.
pub proof fn payloads_are_the_release(
    root: Seq<char>,
    firmware_file: Seq<char>,
    remote: bool,
    replies: Seq<StoreReplyView>,
)
    ensures
        ReleaseView::begin(root, firmware_file, remote).run(replies).sound(),
        ReleaseView::begin(root, firmware_file, remote).run(replies).root == root,
        ReleaseView::begin(root, firmware_file, remote).run(replies).firmware_file == firmware_file,
        ReleaseView::begin(root, firmware_file, remote).run(replies).remote == remote,
        ReleaseView::begin(root, firmware_file, remote).run(replies).progress
            matches ReleaseProgress::Done(Ok(payloads)) ==> released(
            root,
            firmware_file,
            payloads.updater,
            payloads.firmware,
        ),
    decreases replies.len(),
{
    if replies.len() > 0 {
        payloads_are_the_release(root, firmware_file, remote, replies.drop_last());
        next_keeps_sound(
            ReleaseView::begin(root, firmware_file, remote).run(replies.drop_last()),
            replies.last(),
        );
    }
}

enum Stage {
    Manifest { request: ObjectRequest },
    Updater { manifest: Manifest, document: Ghost<Seq<u8>>, request: ObjectRequest },
    Firmware { document: Ghost<Seq<u8>>, updater: Vec<u8>, request: ObjectRequest },
    Done(Result<Payloads, Error>),
}

impl Stage {
    spec fn progress(self) -> ReleaseProgress {
        match self {
            Stage::Manifest { request } => ReleaseProgress::Manifest { request: request@ },
            Stage::Updater { manifest, document, request } => ReleaseProgress::Updater {
                document: document@,
                request: request@,
            },
            Stage::Firmware { document, updater, request } => ReleaseProgress::Firmware {
                document: document@,
                updater: updater@,
                request: request@,
            },
            Stage::Done(r) => ReleaseProgress::Done(payloads_view(r)),
        }
    }

    spec fn parsed_right(self) -> bool {
        self matches Stage::Updater { manifest, document, .. } ==> parsed(manifest_document(document@))
            == Ok::<_, ErrorView>(manifest@)
    }
}

/// The resolution of one release.
pub struct ReleaseRequest {
    root: String,
    firmware_file: String,
    remote: bool,
    stage: Stage,
}

impl View for ReleaseRequest {
    type V = ReleaseView;

    closed spec fn view(&self) -> ReleaseView {
        ReleaseView {
            root: self.root@,
            firmware_file: self.firmware_file@,
            remote: self.remote,
            progress: self.stage.progress(),
        }
    }
}

impl ReleaseRequest {
    #[verifier::type_invariant]
    spec fn well_formed(self) -> bool {
        self@.sound() && self.stage.parsed_right()
    }

    /// The resolution of the release whose manifest has the digest `root`,
    /// for the machine whose firmware payload is named `firmware_file`;
    /// `remote` says whether a remote source can be asked for what local
    /// storage lacks.
    pub fn begin(root: String, firmware_file: String, remote: bool) -> (release: ReleaseRequest)
        ensures
            release@ == ReleaseView::begin(root@, firmware_file@, remote),
            release@.sound(),
    {
        let request = ObjectRequest::begin(root.clone(), remote);
        ReleaseRequest { root, firmware_file, remote, stage: Stage::Manifest { request } }
    }

    /// What to ask of the host next, or `None` once the resolution has
    /// ended.
    pub fn pending(&self) -> (request: Option<StoreRequest<'_>>)
        ensures
            match request {
                Some(r) => self@.pending() == Some(r@),
                None => self@.pending() is None,
            },
            self@.sound(),
    {
        proof {
            use_type_invariant(self);
        }
        match &self.stage {
            Stage::Manifest { request } => request.pending(),
            Stage::Updater { request, .. } => request.pending(),
            Stage::Firmware { request, .. } => request.pending(),
            Stage::Done(_) => None,
        }
    }

    /// Takes the host's reply.
    pub fn step(self, reply: StoreReply) -> (release: ReleaseRequest)
        ensures
            release@ == self@.next(reply@),
            release@.sound(),
    {
        proof {
            use_type_invariant(&self);
            next_keeps_sound(self@, reply@);
        }
        let ReleaseRequest { root, firmware_file, remote, stage } = self;
        let stage = match stage {
            Stage::Manifest { request } => match request.step(reply).outcome() {
                Err(request) => Stage::Manifest { request },
                Ok(Err(e)) => Stage::Done(Err(e)),
                Ok(Ok(document)) => match Manifest::parse(document.as_slice()) {
                    Err(e) => Stage::Done(Err(e)),
                    Ok(manifest) => match manifest.lookup(UPDATER_FILE) {
                        Err(e) => Stage::Done(Err(e)),
                        Ok(digest) => Stage::Updater {
                            manifest,
                            document: Ghost(document@),
                            request: ObjectRequest::begin(digest, remote),
                        },
                    },
                },
            },
            Stage::Updater { manifest, document, request } => match request.step(reply).outcome() {
                Err(request) => Stage::Updater { manifest, document, request },
                Ok(Err(e)) => Stage::Done(Err(e)),
                Ok(Ok(updater)) => match manifest.lookup(firmware_file.as_str()) {
                    Err(e) => Stage::Done(Err(e)),
                    Ok(digest) => Stage::Firmware {
                        document,
                        updater,
                        request: ObjectRequest::begin(digest, remote),
                    },
                },
            },
            Stage::Firmware { document, updater, request } => match request.step(reply).outcome() {
                Err(request) => Stage::Firmware { document, updater, request },
                Ok(Err(e)) => Stage::Done(Err(e)),
                Ok(Ok(firmware)) => Stage::Done(Ok(Payloads { updater, firmware })),
            },
            Stage::Done(r) => Stage::Done(r),
        };
        ReleaseRequest { root, firmware_file, remote, stage }
    }

    /// The payloads of the release, or the failure, once the resolution has
    /// ended. Until then, the resolution itself.
    pub fn outcome(self) -> (answer: Result<Result<Payloads, Error>, ReleaseRequest>)
        ensures
            match answer {
                Ok(r) => self@.progress == ReleaseProgress::Done(payloads_view(r)),
                Err(release) => release@ == self@ && self@.pending() is Some,
            },
            answer matches Ok(Ok(payloads)) ==> released(
                self@.root,
                self@.firmware_file,
                payloads.updater@,
                payloads.firmware@,
            ),
    {
        proof {
            use_type_invariant(&self);
        }
        let ReleaseRequest { root, firmware_file, remote, stage } = self;
        match stage {
            Stage::Done(r) => Ok(r),
            stage => Err(ReleaseRequest { root, firmware_file, remote, stage }),
        }
    }
}

} // verus!

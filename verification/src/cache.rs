//! The content cache: a blob is asked for by its digest and is only ever
//! handed out after its content has been hashed to that digest.
//!
//! The store itself (a directory, a remote source) is the host's. An
//! [`ObjectRequest`] decides what to ask of it next, and what to make of
//! each answer.

use vstd::prelude::*;
use vstd::string::*;
use crate::digest::{content_digest, object_digest};
use crate::error::{bytes_view, Error, ErrorKind, ErrorView};

verus! {

/// What an [`ObjectRequest`] asks of the host.
#[derive(Clone, Copy, Debug, PartialEq, Eq)]
pub enum StoreRequest<'a> {
    /// Read what local storage holds under `digest`.
    Read { digest: &'a str },
    /// Fetch the object `digest` from the remote source.
    Fetch { digest: &'a str },
    /// File `bytes` under `digest` in local storage, all of them or none.
    Write { digest: &'a str, bytes: &'a [u8] },
}

/// The mathematical value of a [`StoreRequest`].
pub enum StoreRequestView {
    Read { digest: Seq<char> },
    Fetch { digest: Seq<char> },
    Write { digest: Seq<char>, bytes: Seq<u8> },
}

impl<'a> View for StoreRequest<'a> {
    type V = StoreRequestView;

    open spec fn view(&self) -> StoreRequestView {
        match *self {
            StoreRequest::Read { digest } => StoreRequestView::Read { digest: digest@ },
            StoreRequest::Fetch { digest } => StoreRequestView::Fetch { digest: digest@ },
            StoreRequest::Write { digest, bytes } => StoreRequestView::Write {
                digest: digest@,
                bytes: bytes@,
            },
        }
    }
}

/// What the host answers to a [`StoreRequest`].
#[derive(Debug, PartialEq, Eq)]
pub enum StoreReply {
    /// To `Read`: the bytes found, or `None` where there is no such object.
    Read(Option<Vec<u8>>),
    /// To `Fetch`: the bytes received, or why there are none.
    Fetched(Result<Vec<u8>, String>),
    /// To `Write`: whether the object is now in local storage.
    Written(Result<(), String>),
}

/// The mathematical value of a [`StoreReply`].
pub enum StoreReplyView {
    Read(Option<Seq<u8>>),
    Fetched(Result<Seq<u8>, Seq<char>>),
    Written(Result<(), Seq<char>>),
}

impl View for StoreReply {
    type V = StoreReplyView;

    open spec fn view(&self) -> StoreReplyView {
        match *self {
            StoreReply::Read(Some(bytes)) => StoreReplyView::Read(Some(bytes@)),
            StoreReply::Read(None) => StoreReplyView::Read(None),
            StoreReply::Fetched(Ok(bytes)) => StoreReplyView::Fetched(Ok(bytes@)),
            StoreReply::Fetched(Err(detail)) => StoreReplyView::Fetched(Err(detail@)),
            StoreReply::Written(Ok(())) => StoreReplyView::Written(Ok(())),
            StoreReply::Written(Err(detail)) => StoreReplyView::Written(Err(detail@)),
        }
    }
}

/// How far a request has come.
pub enum Progress {
    /// Local storage has been asked.
    Reading,
    /// The remote source has been asked.
    Fetching,
    /// Local storage has been asked to keep the bytes that were fetched.
    Writing(Seq<u8>),
    /// The request is answered.
    Done(Result<Seq<u8>, ErrorView>),
}

/// The mathematical value of an [`ObjectRequest`].
pub struct ObjectRequestView {
    /// The digest that was asked for.
    pub digest: Seq<char>,
    /// Whether a remote source is configured.
    pub remote: bool,
    pub progress: Progress,
}

/// The failure for an object that local storage lacks, with no remote
/// source to turn to.
pub open spec fn absent(digest: Seq<char>) -> ErrorView {
    ErrorView { kind: ErrorKind::Integrity, detail: digest + " not found in cache"@ }
}

/// The failure for bytes that do not hash to the digest they came under.
pub open spec fn mismatch(digest: Seq<char>) -> ErrorView {
    ErrorView { kind: ErrorKind::Integrity, detail: digest + " does not match its content"@ }
}

/// Whether `bytes` hash to `digest`.
pub open spec fn intact(digest: Seq<char>, bytes: Seq<u8>) -> bool {
    object_digest(bytes) == Some(digest)
}

impl ObjectRequestView {
    /// A request that has just been made.
    pub open spec fn begin(digest: Seq<char>, remote: bool) -> ObjectRequestView {
        ObjectRequestView { digest, remote, progress: Progress::Reading }
    }

    /// The same request at another point.
    pub open spec fn at(self, progress: Progress) -> ObjectRequestView {
        ObjectRequestView { progress, ..self }
    }

    /// What the request asks of the host, or `None` once it is answered.
    pub open spec fn pending(self) -> Option<StoreRequestView> {
        match self.progress {
            Progress::Reading => Some(StoreRequestView::Read { digest: self.digest }),
            Progress::Fetching => Some(StoreRequestView::Fetch { digest: self.digest }),
            Progress::Writing(bytes) => Some(
                StoreRequestView::Write { digest: self.digest, bytes },
            ),
            Progress::Done(_) => None,
        }
    }

    /// The request after the host's `reply`. Local storage is asked first
    /// and the remote source only on a miss; bytes from either are hashed
    /// before anything else is done with them, and a mismatch ends the
    /// request. A reply to something that was not asked changes nothing.
    pub open spec fn next(self, reply: StoreReplyView) -> ObjectRequestView {
        match (self.progress, reply) {
            (Progress::Reading, StoreReplyView::Read(Some(bytes))) => if intact(
                self.digest,
                bytes,
            ) {
                self.at(Progress::Done(Ok(bytes)))
            } else {
                self.at(Progress::Done(Err(mismatch(self.digest))))
            },
            (Progress::Reading, StoreReplyView::Read(None)) => if self.remote {
                self.at(Progress::Fetching)
            } else {
                self.at(Progress::Done(Err(absent(self.digest))))
            },
            (Progress::Fetching, StoreReplyView::Fetched(Ok(bytes))) => if intact(
                self.digest,
                bytes,
            ) {
                self.at(Progress::Writing(bytes))
            } else {
                self.at(Progress::Done(Err(mismatch(self.digest))))
            },
            (Progress::Fetching, StoreReplyView::Fetched(Err(detail))) => self.at(
                Progress::Done(Err(ErrorView { kind: ErrorKind::Integrity, detail })),
            ),
            (Progress::Writing(bytes), StoreReplyView::Written(Ok(()))) => self.at(
                Progress::Done(Ok(bytes)),
            ),
            (Progress::Writing(_), StoreReplyView::Written(Err(detail))) => self.at(
                Progress::Done(Err(ErrorView { kind: ErrorKind::Filesystem, detail })),
            ),
            _ => self,
        }
    }

    /// The request after each of `replies` in turn.
    pub open spec fn run(self, replies: Seq<StoreReplyView>) -> ObjectRequestView
        decreases replies.len(),
    {
        if replies.len() == 0 {
            self
        } else {
            self.run(replies.drop_last()).next(replies.last())
        }
    }

    /// Whether the request is as it can have come to be: every byte string
    /// that it holds hashes to its digest, and it has turned to the remote
    /// source only if there is one.
    pub open spec fn sound(self) -> bool {
        match self.progress {
            Progress::Reading => true,
            Progress::Fetching => self.remote,
            Progress::Writing(bytes) => self.remote && intact(self.digest, bytes),
            Progress::Done(Ok(bytes)) => intact(self.digest, bytes),
            Progress::Done(Err(_)) => true,
        }
    }
}

/// A reply keeps a sound request sound.
pub proof fn next_keeps_sound(request: ObjectRequestView, reply: StoreReplyView)
    requires
        request.sound(),
    ensures
        request.next(reply).sound(),
        request.next(reply).digest == request.digest,
        request.next(reply).remote == request.remote,
{
}

/// Whatever the host answers, and in whatever order, a request for `digest`
/// is answered with bytes only if they hash to `digest`.
pub proof fn served_bytes_are_intact(
    digest: Seq<char>,
    remote: bool,
    replies: Seq<StoreReplyView>,
)
    ensures
        ObjectRequestView::begin(digest, remote).run(replies).sound(),
        ObjectRequestView::begin(digest, remote).run(replies).digest == digest,
        ObjectRequestView::begin(digest, remote).run(replies).remote == remote,
        ObjectRequestView::begin(digest, remote).run(replies).progress matches Progress::Done(
            Ok(bytes),
        ) ==> object_digest(bytes) == Some(digest),
    decreases replies.len(),
{
    if replies.len() > 0 {
        served_bytes_are_intact(digest, remote, replies.drop_last());
        next_keeps_sound(
            ObjectRequestView::begin(digest, remote).run(replies.drop_last()),
            replies.last(),
        );
    }
}

/// Whatever the host answers, local storage is only ever asked to keep
/// bytes that hash to the digest they are filed under.
pub proof fn stored_bytes_are_intact(digest: Seq<char>, remote: bool, replies: Seq<StoreReplyView>)
    ensures
        ObjectRequestView::begin(digest, remote).run(replies).pending()
            matches Some(StoreRequestView::Write { digest: filed, bytes }) ==> filed == digest
            && object_digest(bytes) == Some(digest),
{
    served_bytes_are_intact(digest, remote, replies);
}

/// Without a remote source nothing is fetched and nothing is stored: local
/// storage is read, and that is all that is ever asked.
pub proof fn local_request_only_reads(digest: Seq<char>, replies: Seq<StoreReplyView>)
    ensures
        ObjectRequestView::begin(digest, false).run(replies).pending() matches Some(request)
            ==> request == (StoreRequestView::Read { digest }),
{
    served_bytes_are_intact(digest, false, replies);
}

/// Stored bytes that no longer hash to their digest end the request with an
/// integrity failure: they are not served and the remote source is not
/// asked.
pub proof fn corrupt_object_is_refused(digest: Seq<char>, remote: bool, stored: Seq<u8>)
    requires
        object_digest(stored) != Some(digest),
    ensures
        ObjectRequestView::begin(digest, remote).next(StoreReplyView::Read(Some(stored))).progress
            == Progress::Done(Err(mismatch(digest))),
{
}

/// Fetched bytes that do not hash to the digest asked for end the request
/// with an integrity failure: they are neither stored nor served.
pub proof fn mismatched_fetch_is_refused(digest: Seq<char>, fetched: Seq<u8>)
    requires
        object_digest(fetched) != Some(digest),
    ensures
        ObjectRequestView::begin(digest, true).next(StoreReplyView::Read(None)).next(
            StoreReplyView::Fetched(Ok(fetched)),
        ).progress == Progress::Done(Err(mismatch(digest))),
{
}

/// An object that local storage holds intact is served as it is, without a
/// word to the remote source.
pub proof fn intact_object_is_served(digest: Seq<char>, remote: bool, stored: Seq<u8>)
    requires
        object_digest(stored) == Some(digest),
    ensures
        ObjectRequestView::begin(digest, remote).next(StoreReplyView::Read(Some(stored))).progress
            == Progress::Done(Ok(stored)),
{
}

/// An object that local storage lacks is served once the remote source has
/// delivered it intact and local storage has kept it.
pub proof fn fetched_object_is_served(digest: Seq<char>, fetched: Seq<u8>)
    requires
        object_digest(fetched) == Some(digest),
    ensures
        ObjectRequestView::begin(digest, true).next(StoreReplyView::Read(None)).next(
            StoreReplyView::Fetched(Ok(fetched)),
        ).pending() == Some(StoreRequestView::Write { digest, bytes: fetched }),
        ObjectRequestView::begin(digest, true).next(StoreReplyView::Read(None)).next(
            StoreReplyView::Fetched(Ok(fetched)),
        ).next(StoreReplyView::Written(Ok(()))).progress == Progress::Done(Ok(fetched)),
{
}

#[derive(Debug)]
enum Stage {
    Reading,
    Fetching,
    Writing(Vec<u8>),
    Done(Result<Vec<u8>, Error>),
}

impl Stage {
    spec fn progress(self) -> Progress {
        match self {
            Stage::Reading => Progress::Reading,
            Stage::Fetching => Progress::Fetching,
            Stage::Writing(bytes) => Progress::Writing(bytes@),
            Stage::Done(Ok(bytes)) => Progress::Done(Ok(bytes@)),
            Stage::Done(Err(e)) => Progress::Done(Err(e@)),
        }
    }
}

/// A request for the object with a given digest.
#[derive(Debug)]
pub struct ObjectRequest {
    digest: String,
    remote: bool,
    stage: Stage,
}

impl View for ObjectRequest {
    type V = ObjectRequestView;

    closed spec fn view(&self) -> ObjectRequestView {
        ObjectRequestView {
            digest: self.digest@,
            remote: self.remote,
            progress: self.stage.progress(),
        }
    }
}

/// Whether `bytes` hash to `digest`; bytes that cannot be hashed do not.
pub fn is_intact(digest: &String, bytes: &Vec<u8>) -> (ok: bool)
    ensures
        ok == intact(digest@, bytes@),
{
    match content_digest(bytes.as_slice()) {
        Some(actual) => actual == *digest,
        None => false,
    }
}

impl ObjectRequest {
    #[verifier::type_invariant]
    spec fn well_formed(self) -> bool {
        self@.sound()
    }

    /// A request for the object `digest`; `remote` says whether a remote
    /// source can be asked where local storage lacks it.
    pub fn begin(digest: String, remote: bool) -> (request: ObjectRequest)
        ensures
            request@ == ObjectRequestView::begin(digest@, remote),
    {
        ObjectRequest { digest, remote, stage: Stage::Reading }
    }

    /// What to ask of the host next, or `None` once the request is answered.
    pub fn pending(&self) -> (request: Option<StoreRequest<'_>>)
        ensures
            match request {
                Some(r) => self@.pending() == Some(r@),
                None => self@.pending() is None,
            },
    {
        match &self.stage {
            Stage::Reading => Some(StoreRequest::Read { digest: self.digest.as_str() }),
            Stage::Fetching => Some(StoreRequest::Fetch { digest: self.digest.as_str() }),
            Stage::Writing(bytes) => Some(
                StoreRequest::Write { digest: self.digest.as_str(), bytes: bytes.as_slice() },
            ),
            Stage::Done(_) => None,
        }
    }

    /// Takes the host's reply.
    pub fn step(self, reply: StoreReply) -> (request: ObjectRequest)
        ensures
            request@ == self@.next(reply@),
            request@.sound(),
    {
        proof {
            use_type_invariant(&self);
        }
        let ObjectRequest { digest, remote, stage } = self;
        let stage = match (stage, reply) {
            (Stage::Reading, StoreReply::Read(Some(bytes))) => {
                if is_intact(&digest, &bytes) {
                    Stage::Done(Ok(bytes))
                } else {
                    let detail = digest.clone().concat(" does not match its content");
                    Stage::Done(Err(Error::new(ErrorKind::Integrity, detail)))
                }
            },
            (Stage::Reading, StoreReply::Read(None)) => {
                if remote {
                    Stage::Fetching
                } else {
                    let detail = digest.clone().concat(" not found in cache");
                    Stage::Done(Err(Error::new(ErrorKind::Integrity, detail)))
                }
            },
            (Stage::Fetching, StoreReply::Fetched(Ok(bytes))) => {
                if is_intact(&digest, &bytes) {
                    Stage::Writing(bytes)
                } else {
                    let detail = digest.clone().concat(" does not match its content");
                    Stage::Done(Err(Error::new(ErrorKind::Integrity, detail)))
                }
            },
            (Stage::Fetching, StoreReply::Fetched(Err(detail))) => Stage::Done(
                Err(Error::new(ErrorKind::Integrity, detail)),
            ),
            (Stage::Writing(bytes), StoreReply::Written(Ok(()))) => Stage::Done(Ok(bytes)),
            (Stage::Writing(_), StoreReply::Written(Err(detail))) => Stage::Done(
                Err(Error::new(ErrorKind::Filesystem, detail)),
            ),
            (stage, _) => stage,
        };
        ObjectRequest { digest, remote, stage }
    }

    /// The answer, once there is one: the bytes, which hash to the digest
    /// asked for, or the failure. Until then, the request itself.
    pub fn outcome(self) -> (answer: Result<Result<Vec<u8>, Error>, ObjectRequest>)
        ensures
            match answer {
                Ok(r) => self@.progress == Progress::Done(bytes_view(r)),
                Err(request) => request@ == self@ && self@.pending() is Some,
            },
            answer matches Ok(Ok(bytes)) ==> object_digest(bytes@) == Some(self@.digest),
    {
        proof {
            use_type_invariant(&self);
        }
        let ObjectRequest { digest, remote, stage } = self;
        match stage {
            Stage::Done(r) => Ok(r),
            stage => Err(ObjectRequest { digest, remote, stage }),
        }
    }
}

} // verus!

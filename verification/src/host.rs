//! The host, as the operations see it: what they ask of it, what it
//! answers, and a model of the state that staging changes.

use vstd::prelude::*;
use crate::cache::{StoreReply, StoreReplyView, StoreRequest, StoreRequestView};
use crate::error::{done, maybe, told};

verus! {

/// The directory that holds an armed update; its presence alone says that an
/// update is pending.
pub const ARMED_PATH: &'static str = "/boot/efi/system76-firmware-update";

/// The directory in which the scratch directory is made, on the volume of
/// [`ARMED_PATH`] so that one rename can commit it.
pub const SCRATCH_PARENT: &'static str = "/boot/efi";

/// The prefix of the scratch directory's name.
pub const SCRATCH_PREFIX: &'static str = "system76-firmware-update";

/// The directory below the scratch directory that takes the firmware
/// payload.
pub const FIRMWARE_DIR: &'static str = "firmware";

/// The path that exists where the machine was booted through UEFI.
pub const BOOT_ENVIRONMENT: &'static str = "/sys/firmware/efi";

/// What an operation asks of the host.
#[derive(Clone, Copy, Debug, PartialEq, Eq)]
pub enum HostRequest<'a> {
    /// Say whether [`BOOT_ENVIRONMENT`] exists.
    CheckBootEnvironment,
    /// Read the BIOS model and the embedded controller's project name.
    ReadIdentity,
    /// Fetch the root pointer from the trusted source and authenticate it.
    FetchRootPointer,
    /// Unset the boot flag; no fault if it is not set.
    UnsetBootFlag,
    /// Remove [`ARMED_PATH`] and all below it; no fault if it is absent.
    RemoveArmed,
    /// Make a fresh directory in [`SCRATCH_PARENT`].
    CreateScratch,
    /// Serve the content cache.
    Store(StoreRequest<'a>),
    /// Unpack the tar stream `tar`, the updater, into the scratch directory
    /// `into`.
    UnpackUpdater { tar: &'a [u8], into: &'a str },
    /// Unpack the tar stream `tar`, the firmware, into `into`, the directory
    /// [`FIRMWARE_DIR`] of the scratch directory.
    UnpackFirmware { tar: &'a [u8], into: &'a str },
    /// Rename the scratch directory to [`ARMED_PATH`].
    Commit { scratch: &'a str },
    /// Remove the scratch directory and all below it.
    RemoveScratch { scratch: &'a str },
    /// Set the boot flag.
    SetBootFlag,
}

/// The mathematical value of a [`HostRequest`].
pub enum HostRequestView {
    CheckBootEnvironment,
    ReadIdentity,
    FetchRootPointer,
    UnsetBootFlag,
    RemoveArmed,
    CreateScratch,
    Store(StoreRequestView),
    UnpackUpdater { tar: Seq<u8>, into: Seq<char> },
    UnpackFirmware { tar: Seq<u8>, into: Seq<char> },
    Commit { scratch: Seq<char> },
    RemoveScratch { scratch: Seq<char> },
    SetBootFlag,
}

impl<'a> View for HostRequest<'a> {
    type V = HostRequestView;

    open spec fn view(&self) -> HostRequestView {
        match *self {
            HostRequest::CheckBootEnvironment => HostRequestView::CheckBootEnvironment,
            HostRequest::ReadIdentity => HostRequestView::ReadIdentity,
            HostRequest::FetchRootPointer => HostRequestView::FetchRootPointer,
            HostRequest::UnsetBootFlag => HostRequestView::UnsetBootFlag,
            HostRequest::RemoveArmed => HostRequestView::RemoveArmed,
            HostRequest::CreateScratch => HostRequestView::CreateScratch,
            HostRequest::Store(request) => HostRequestView::Store(request@),
            HostRequest::UnpackUpdater { tar, into } => HostRequestView::UnpackUpdater {
                tar: tar@,
                into: into@,
            },
            HostRequest::UnpackFirmware { tar, into } => HostRequestView::UnpackFirmware {
                tar: tar@,
                into: into@,
            },
            HostRequest::Commit { scratch } => HostRequestView::Commit { scratch: scratch@ },
            HostRequest::RemoveScratch { scratch } => HostRequestView::RemoveScratch {
                scratch: scratch@,
            },
            HostRequest::SetBootFlag => HostRequestView::SetBootFlag,
        }
    }
}

/// What the host answers.
#[derive(Debug, PartialEq, Eq)]
pub enum HostReply {
    /// To `CheckBootEnvironment`: whether it is there.
    BootEnvironment(bool),
    /// To `ReadIdentity`: the BIOS model or why it could not be read, and the
    /// controller's project name if there is a controller to read it from.
    Identity { bios_model: Result<String, String>, ec_project: Option<String> },
    /// To `FetchRootPointer`: the digest it names, or why there is none.
    RootPointer(Result<String, String>),
    /// To `CreateScratch`: the path of the directory made.
    Scratch(Result<String, String>),
    /// To `Store`: the store's reply.
    Store(StoreReply),
    /// To every other request: whether it was done.
    Done(Result<(), String>),
}

/// The mathematical value of a [`HostReply`].
pub enum HostReplyView {
    BootEnvironment(bool),
    Identity { bios_model: Result<Seq<char>, Seq<char>>, ec_project: Option<Seq<char>> },
    RootPointer(Result<Seq<char>, Seq<char>>),
    Scratch(Result<Seq<char>, Seq<char>>),
    Store(StoreReplyView),
    Done(Result<(), Seq<char>>),
}

impl View for HostReply {
    type V = HostReplyView;

    open spec fn view(&self) -> HostReplyView {
        match *self {
            HostReply::BootEnvironment(present) => HostReplyView::BootEnvironment(present),
            HostReply::Identity { bios_model, ec_project } => HostReplyView::Identity {
                bios_model: told(bios_model),
                ec_project: maybe(ec_project),
            },
            HostReply::RootPointer(r) => HostReplyView::RootPointer(told(r)),
            HostReply::Scratch(r) => HostReplyView::Scratch(told(r)),
            HostReply::Store(reply) => HostReplyView::Store(reply@),
            HostReply::Done(r) => HostReplyView::Done(done(r)),
        }
    }
}

/// What a staged directory holds: the tar stream unpacked into it, and the
/// one unpacked into [`FIRMWARE_DIR`] below it.
pub struct Tree {
    pub updater: Option<Seq<u8>>,
    pub firmware: Option<Seq<u8>>,
}

impl Tree {
    /// A directory that was just made.
    pub open spec fn empty() -> Tree {
        Tree { updater: None, firmware: None }
    }

    /// A directory that holds both payloads.
    pub open spec fn full(updater: Seq<u8>, firmware: Seq<u8>) -> Tree {
        Tree { updater: Some(updater), firmware: Some(firmware) }
    }
}

/// The part of the host that staging changes.
pub struct HostState {
    /// Whether the updater runs at the next boot.
    pub boot_flag: bool,
    /// What is at [`ARMED_PATH`], if it exists.
    pub armed: Option<Tree>,
    /// What the scratch directory holds, if there is one.
    pub scratch: Option<Tree>,
}

impl HostState {
    /// Whether no update is staged: nothing at [`ARMED_PATH`] and the boot
    /// flag unset.
    pub open spec fn unstaged(self) -> bool {
        self.armed is None && !self.boot_flag
    }

    /// Whether the update made of these two streams is armed: it is at
    /// [`ARMED_PATH`], whole, and the boot flag is set.
    pub open spec fn armed_with(self, updater: Seq<u8>, firmware: Seq<u8>) -> bool {
        self.armed == Some(Tree::full(updater, firmware)) && self.boot_flag
    }
}

/// What is assumed of the host: whether it can be in `after` once it has
/// been in `before`, has been asked `request` and has answered `reply`.
///
/// A request that succeeds does what it says and nothing else. One that
/// fails may have done part of it, but touches nothing that it is not
/// about; a failed rename changes nothing at all. An answer to something
/// that was not asked means that nothing was done.
pub open spec fn performed(
    before: HostState,
    request: HostRequestView,
    reply: HostReplyView,
    after: HostState,
) -> bool {
    match (request, reply) {
        (HostRequestView::UnsetBootFlag, HostReplyView::Done(Ok(()))) => after == HostState {
            boot_flag: false,
            ..before
        },
        (HostRequestView::UnsetBootFlag, HostReplyView::Done(Err(_))) => after.armed
            == before.armed && after.scratch == before.scratch,
        (HostRequestView::RemoveArmed, HostReplyView::Done(Ok(()))) => after == HostState {
            armed: None,
            ..before
        },
        (HostRequestView::RemoveArmed, HostReplyView::Done(Err(_))) => after.boot_flag
            == before.boot_flag && after.scratch == before.scratch,
        (HostRequestView::CreateScratch, HostReplyView::Scratch(Ok(_))) => after == HostState {
            scratch: Some(Tree::empty()),
            ..before
        },
        (HostRequestView::UnpackUpdater { tar, .. }, HostReplyView::Done(Ok(()))) => {
            &&& before.scratch matches Some(tree)
            &&& after == HostState { scratch: Some(Tree { updater: Some(tar), ..tree }), ..before }
        },
        (HostRequestView::UnpackUpdater { .. }, HostReplyView::Done(Err(_))) => after.boot_flag
            == before.boot_flag && after.armed == before.armed,
        (HostRequestView::UnpackFirmware { tar, .. }, HostReplyView::Done(Ok(()))) => {
            &&& before.scratch matches Some(tree)
            &&& after == HostState { scratch: Some(Tree { firmware: Some(tar), ..tree }), ..before }
        },
        (HostRequestView::UnpackFirmware { .. }, HostReplyView::Done(Err(_))) => after.boot_flag
            == before.boot_flag && after.armed == before.armed,
        (HostRequestView::Commit { .. }, HostReplyView::Done(Ok(()))) => after == HostState {
            armed: before.scratch,
            scratch: None,
            ..before
        },
        (HostRequestView::RemoveScratch { .. }, HostReplyView::Done(Ok(()))) => after
            == HostState { scratch: None, ..before },
        (HostRequestView::RemoveScratch { .. }, HostReplyView::Done(Err(_))) => after.boot_flag
            == before.boot_flag && after.armed == before.armed,
        (HostRequestView::SetBootFlag, HostReplyView::Done(Ok(()))) => after == HostState {
            boot_flag: true,
            ..before
        },
        (HostRequestView::SetBootFlag, HostReplyView::Done(Err(_))) => after.armed == before.armed
            && after.scratch == before.scratch,
        _ => after == before,
    }
}

} // verus!

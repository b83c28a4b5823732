//! Taking a staged update back: the boot flag is unset and the armed path
//! removed, each whatever became of the other.

use vstd::prelude::*;
use vstd::string::*;
use crate::error::{unit_view, Error, ErrorKind, ErrorView};
use crate::host::{
    performed, HostReply, HostReplyView, HostRequest, HostRequestView, HostState, ARMED_PATH,
};
use crate::schedule::{flag_failed, remove_failed};

verus! {

/// How far the taking back has come.
pub enum UnscheduleProgress {
    /// The boot flag is being unset.
    Disarming,
    /// The armed path is being removed; `disarmed` says how unsetting the
    /// boot flag went.
    Clearing { disarmed: Result<(), ErrorView> },
    /// Both steps have been taken.
    Done(Result<(), ErrorView>),
}

/// What is reported of the two steps: the first failure, if any.
pub open spec fn first_failure(disarmed: Result<(), ErrorView>, cleared: Result<(), ErrorView>) -> Result<
    (),
    ErrorView,
> {
    match disarmed {
        Err(e) => Err(e),
        Ok(()) => cleared,
    }
}

/// How unsetting the boot flag went.
pub open spec fn disarmed(r: Result<(), Seq<char>>) -> Result<(), ErrorView> {
    match r {
        Ok(()) => Ok(()),
        Err(detail) => Err(flag_failed(detail)),
    }
}

/// How removing the armed path went.
pub open spec fn cleared(r: Result<(), Seq<char>>) -> Result<(), ErrorView> {
    match r {
        Ok(()) => Ok(()),
        Err(detail) => Err(remove_failed(detail)),
    }
}

/// The mathematical value of an [`Unschedule`].
pub struct UnscheduleView {
    pub progress: UnscheduleProgress,
}

impl UnscheduleView {
    /// A taking back that has just begun.
    pub open spec fn begin() -> UnscheduleView {
        UnscheduleView { progress: UnscheduleProgress::Disarming }
    }

    /// What is asked of the host, or `None` once both steps have been taken.
    pub open spec fn pending(self) -> Option<HostRequestView> {
        match self.progress {
            UnscheduleProgress::Disarming => Some(HostRequestView::UnsetBootFlag),
            UnscheduleProgress::Clearing { .. } => Some(HostRequestView::RemoveArmed),
            UnscheduleProgress::Done(_) => None,
        }
    }

    /// The taking back after the host's `reply`. The second step is taken
    /// whatever became of the first; a reply to something that was not asked
    /// changes nothing.
    pub open spec fn next(self, reply: HostReplyView) -> UnscheduleView {
        match (self.progress, reply) {
            (UnscheduleProgress::Disarming, HostReplyView::Done(r)) => UnscheduleView {
                progress: UnscheduleProgress::Clearing { disarmed: disarmed(r) },
            },
            (UnscheduleProgress::Clearing { disarmed }, HostReplyView::Done(r)) => UnscheduleView {
                progress: UnscheduleProgress::Done(first_failure(disarmed, cleared(r))),
            },
            _ => self,
        }
    }
}

/// Where nothing is staged, taking back succeeds and leaves nothing staged:
/// a host that does both steps, as it can when there is nothing to do, ends
/// with the armed path absent and the boot flag unset. The same holds of
/// any other host that does both steps.
pub proof fn unschedule_leaves_nothing_staged(
    before: HostState,
    between: HostState,
    after: HostState,
)
    requires
        performed(
            before,
            UnscheduleView::begin().pending().unwrap(),
            HostReplyView::Done(Ok(())),
            between,
        ),
        performed(
            between,
            UnscheduleView::begin().next(HostReplyView::Done(Ok(()))).pending().unwrap(),
            HostReplyView::Done(Ok(())),
            after,
        ),
    ensures
        UnscheduleView::begin().next(HostReplyView::Done(Ok(()))).next(
            HostReplyView::Done(Ok(())),
        ).progress == UnscheduleProgress::Done(Ok(())),
        after.unstaged(),
        before.unstaged() ==> after.armed == before.armed && after.boot_flag == before.boot_flag,
{
}

/// Both steps are taken whatever the host answers to the first, and the
/// first failure is the one reported.
pub proof fn unschedule_takes_both_steps(first: Result<(), Seq<char>>, second: Result<(), Seq<char>>)
    ensures
        UnscheduleView::begin().next(HostReplyView::Done(first)).pending() == Some(
            HostRequestView::RemoveArmed,
        ),
        UnscheduleView::begin().next(HostReplyView::Done(first)).next(
            HostReplyView::Done(second),
        ).progress == UnscheduleProgress::Done(first_failure(disarmed(first), cleared(second))),
{
}

#[derive(Debug)]
enum Stage {
    Disarming,
    Clearing { disarmed: Result<(), Error> },
    Done(Result<(), Error>),
}

/// The taking back of whatever update is staged.
#[derive(Debug)]
pub struct Unschedule {
    stage: Stage,
}

impl View for Unschedule {
    type V = UnscheduleView;

    closed spec fn view(&self) -> UnscheduleView {
        UnscheduleView {
            progress: match self.stage {
                Stage::Disarming => UnscheduleProgress::Disarming,
                Stage::Clearing { disarmed } => UnscheduleProgress::Clearing {
                    disarmed: unit_view(disarmed),
                },
                Stage::Done(r) => UnscheduleProgress::Done(unit_view(r)),
            },
        }
    }
}

impl Unschedule {
    /// A taking back that has asked nothing yet.
    pub fn begin() -> (unschedule: Unschedule)
        ensures
            unschedule@ == UnscheduleView::begin(),
    {
        Unschedule { stage: Stage::Disarming }
    }

    /// What to ask of the host next, or `None` once both steps have been
    /// taken.
    pub fn pending(&self) -> (request: Option<HostRequest<'static>>)
        ensures
            match request {
                Some(r) => self@.pending() == Some(r@),
                None => self@.pending() is None,
            },
    {
        match &self.stage {
            Stage::Disarming => Some(HostRequest::UnsetBootFlag),
            Stage::Clearing { .. } => Some(HostRequest::RemoveArmed),
            Stage::Done(_) => None,
        }
    }

    /// Takes the host's reply.
    pub fn step(self, reply: HostReply) -> (unschedule: Unschedule)
        ensures
            unschedule@ == self@.next(reply@),
    {
        let stage = match (self.stage, reply) {
            (Stage::Disarming, HostReply::Done(r)) => Stage::Clearing {
                disarmed: match r {
                    Ok(()) => Ok(()),
                    Err(detail) => Err(Error::new(ErrorKind::Filesystem, detail)),
                },
            },
            (Stage::Clearing { disarmed }, HostReply::Done(r)) => Stage::Done(
                match disarmed {
                    Err(e) => Err(e),
                    Ok(()) => match r {
                        Ok(()) => Ok(()),
                        Err(detail) => {
                            let text = String::from_str("failed to remove ").concat(
                                ARMED_PATH,
                            ).concat(": ").concat(detail.as_str());
                            Err(Error::new(ErrorKind::Filesystem, text))
                        },
                    },
                },
            ),
            (stage, _) => stage,
        };
        Unschedule { stage }
    }

    /// How the taking back has ended, once it has. Until then, the taking
    /// back itself.
    pub fn outcome(self) -> (answer: Result<Result<(), Error>, Unschedule>)
        ensures
            match answer {
                Ok(r) => self@.progress == UnscheduleProgress::Done(unit_view(r)),
                Err(unschedule) => unschedule@ == self@ && self@.pending() is Some,
            },
    {
        match self.stage {
            Stage::Done(r) => Ok(r),
            stage => Err(Unschedule { stage }),
        }
    }
}

} // verus!

//! Uploads of a file.
//!
//! A [`FileUpload`] says at every moment what has to be done next; the caller
//! does it and reports the outcome with [`FileUpload::advance`]. A small file
//! goes to the server in one request. A large one goes in parts, several of them
//! at the same time; they are launched and awaited in the order of their
//! numbers.

use crate::download::reported_total;
use crate::error::{Drive9Error, ErrorView};
use crate::stream::{plan_reply, CompletePart, UploadPlanV2};
use crate::stream_model::{PartView, PlanView, UPLOAD_MAX_CONCURRENCY};
use vstd::prelude::*;

verus! {

broadcast use vstd::string::group_string_axioms;

/// How a file goes to the server.
#[derive(Debug, Clone, Copy, PartialEq, Eq, Structural)]
pub enum UploadRoute {
    /// In one request.
    Single,
    /// In parts.
    Multipart,
}

/// What has to be done next.
#[derive(Debug, Clone, Copy, PartialEq, Eq, Structural)]
pub enum UploadAction {
    /// Look whether the upload has been cancelled.
    Check,
    /// Tell the listener, if there is one, then look whether the upload has been
    /// cancelled.
    Report { transferred: u64, total: u64 },
    /// Send the whole file.
    Put,
    /// Ask the server for an upload plan, then look whether the upload has been
    /// cancelled.
    Initiate,
    /// Launch the upload of a part, then look whether the upload has been
    /// cancelled.
    StartPart { number: i32 },
    /// Wait until the upload of this part has ended, then look whether the
    /// upload has been cancelled.
    AwaitPart { number: i32 },
    /// Tell the server to put the parts together.
    Complete,
    /// Tell the server to drop the upload, whether or not that succeeds.
    Abort,
    /// Nothing is left to do.
    Finished,
}

/// What came of the last action.
#[derive(Debug)]
pub enum UploadEvent {
    Checked { cancelled: bool },
    Reported { cancelled: bool },
    PutDone(Result<(), Drive9Error>),
    Initiated { reply: Result<UploadPlanV2, Drive9Error>, cancelled: bool },
    PartStarted { cancelled: bool },
    /// The tag of the part and the number of its bytes, or why it failed.
    PartDone { outcome: Result<(String, u64), Drive9Error>, cancelled: bool },
    Completed(Result<(), Drive9Error>),
    AbortDone,
}

/// The content of an [`UploadEvent`].
pub enum UploadEventView {
    Checked { cancelled: bool },
    Reported { cancelled: bool },
    PutDone(Result<(), ErrorView>),
    Initiated { reply: Result<PlanView, ErrorView>, cancelled: bool },
    PartStarted { cancelled: bool },
    PartDone { outcome: Result<(Seq<char>, u64), ErrorView>, cancelled: bool },
    Completed(Result<(), ErrorView>),
    AbortDone,
}

/// The outcome of a request that answers nothing.
pub open spec fn unit_reply(reply: Result<(), Drive9Error>) -> Result<(), ErrorView> {
    match reply {
        Ok(_) => Ok(()),
        Err(error) => Err(error@),
    }
}

impl View for UploadEvent {
    type V = UploadEventView;

    open spec fn view(&self) -> UploadEventView {
        match *self {
            UploadEvent::Checked { cancelled } => UploadEventView::Checked { cancelled },
            UploadEvent::Reported { cancelled } => UploadEventView::Reported { cancelled },
            UploadEvent::PutDone(reply) => UploadEventView::PutDone(unit_reply(reply)),
            UploadEvent::Initiated { reply, cancelled } => UploadEventView::Initiated {
                reply: plan_reply(reply),
                cancelled,
            },
            UploadEvent::PartStarted { cancelled } => UploadEventView::PartStarted { cancelled },
            UploadEvent::PartDone { outcome, cancelled } => UploadEventView::PartDone {
                outcome: match outcome {
                    Ok((etag, bytes)) => Ok((etag@, bytes)),
                    Err(error) => Err(error@),
                },
                cancelled,
            },
            UploadEvent::Completed(reply) => UploadEventView::Completed(unit_reply(reply)),
            UploadEvent::AbortDone => UploadEventView::AbortDone,
        }
    }
}

/// Where an upload stands.
pub enum UploadPhaseView {
    Check,
    /// Nothing has been sent yet, and the listener is told so.
    ReportStart,
    Put,
    Initiate,
    /// Parts are on their way.
    Send,
    /// A part has landed, and the listener is told so.
    ReportPart,
    /// The server has the file, and the listener is told so.
    ReportEnd,
    /// The upload is over; `None` is success.
    Finished(Option<ErrorView>),
}

/// The state of an upload.
pub struct UploadState {
    pub route: UploadRoute,
    /// The size of the file.
    pub total: u64,
    /// What the server answered to the initiation of the upload.
    pub plan: Option<PlanView>,
    /// How many parts have been launched.
    pub started: int,
    /// How many of these have ended.
    pub settled: int,
    /// The parts that landed before anything went wrong.
    pub parts: Seq<PartView>,
    /// The bytes of these parts.
    pub transferred: u64,
    /// Why no further part is launched.
    pub stop: Option<ErrorView>,
    pub phase: UploadPhaseView,
}

impl UploadState {
    /// How many parts the plan has.
    pub open spec fn part_count(self) -> int {
        match self.plan {
            Some(plan) => if plan.total_parts > 0 {
                plan.total_parts as int
            } else {
                0
            },
            None => 0,
        }
    }

    /// What holds of every state that an upload can be in.
    pub open spec fn consistent(self) -> bool {
        &&& 0 <= self.settled <= self.started <= self.part_count()
        &&& self.started - self.settled <= UPLOAD_MAX_CONCURRENCY
        &&& self.stop is None ==> self.parts.len() == self.settled
        &&& forall|i: int|
            0 <= i < self.parts.len() ==> (#[trigger] self.parts[i]).number == i + 1
        &&& self.phase is Check || self.phase is Initiate ==> self.plan is None
        &&& self.phase is Send || self.phase is ReportPart ==> self.plan is Some
        &&& self.phase is ReportPart ==> self.stop is None && self.transferred < self.total
    }
}

/// The start of an upload.
pub open spec fn upload_start(size: i64, route: UploadRoute) -> UploadState {
    UploadState {
        route,
        total: reported_total(Some(size)),
        plan: None,
        started: 0,
        settled: 0,
        parts: Seq::empty(),
        transferred: 0,
        stop: None,
        phase: UploadPhaseView::Check,
    }
}

/// The upload is over.
pub open spec fn ended(s: UploadState, error: Option<ErrorView>) -> UploadState {
    UploadState { phase: UploadPhaseView::Finished(error), ..s }
}

/// Takes note of a cancellation, unless something went wrong before.
pub open spec fn noticed(s: UploadState, cancelled: bool) -> UploadState {
    if cancelled && s.stop is None {
        UploadState { stop: Some(ErrorView::Cancelled), ..s }
    } else {
        s
    }
}

/// Goes on with the parts.
pub open spec fn sending(s: UploadState) -> UploadState {
    UploadState { phase: UploadPhaseView::Send, ..s }
}

/// A part has ended. Unless something went wrong the part counts, and the
/// listener is told; but that all bytes have been transferred is for the end of
/// the upload to tell.
pub open spec fn settle(
    s: UploadState,
    outcome: Result<(Seq<char>, u64), ErrorView>,
    cancelled: bool,
) -> UploadState {
    let settled = UploadState { settled: s.settled + 1, ..s };
    match outcome {
        Ok((etag, bytes)) => if s.stop is Some || cancelled {
            sending(noticed(settled, cancelled))
        } else {
            let landed = UploadState {
                parts: s.parts.push(PartView { number: (s.settled + 1) as i32, etag }),
                transferred: (s.transferred + bytes) as u64,
                ..settled
            };
            if landed.transferred < landed.total {
                UploadState { phase: UploadPhaseView::ReportPart, ..landed }
            } else {
                sending(landed)
            }
        },
        Err(error) => if s.stop is Some {
            settled
        } else {
            UploadState { stop: Some(error), ..settled }
        },
    }
}

/// What has to be done in a state.
pub open spec fn upload_pending(s: UploadState) -> UploadAction {
    match s.phase {
        UploadPhaseView::Check => UploadAction::Check,
        UploadPhaseView::ReportStart => UploadAction::Report { transferred: 0, total: s.total },
        UploadPhaseView::Put => UploadAction::Put,
        UploadPhaseView::Initiate => UploadAction::Initiate,
        UploadPhaseView::Send => if s.stop is None && s.started < s.part_count() && s.started
            - s.settled < UPLOAD_MAX_CONCURRENCY {
            UploadAction::StartPart { number: (s.started + 1) as i32 }
        } else if s.settled < s.started {
            UploadAction::AwaitPart { number: (s.settled + 1) as i32 }
        } else if s.stop is Some {
            UploadAction::Abort
        } else {
            UploadAction::Complete
        },
        UploadPhaseView::ReportPart => UploadAction::Report {
            transferred: s.transferred,
            total: s.total,
        },
        UploadPhaseView::ReportEnd => UploadAction::Report { transferred: s.total, total: s.total },
        UploadPhaseView::Finished(_) => UploadAction::Finished,
    }
}

/// The state after an event. An event that does not answer the pending action
/// changes nothing.
pub open spec fn upload_next(s: UploadState, event: UploadEventView) -> UploadState {
    match (upload_pending(s), event) {
        (UploadAction::Check, UploadEventView::Checked { cancelled }) => if cancelled {
            ended(s, Some(ErrorView::Cancelled))
        } else {
            UploadState {
                phase: match s.route {
                    UploadRoute::Single => UploadPhaseView::ReportStart,
                    UploadRoute::Multipart => UploadPhaseView::Initiate,
                },
                ..s
            }
        },
        (UploadAction::Report { .. }, UploadEventView::Reported { cancelled }) => match s.phase {
            UploadPhaseView::ReportStart => if cancelled {
                ended(s, Some(ErrorView::Cancelled))
            } else {
                UploadState { phase: UploadPhaseView::Put, ..s }
            },
            UploadPhaseView::ReportPart => sending(noticed(s, cancelled)),
            _ => ended(s, None),
        },
        (UploadAction::Put, UploadEventView::PutDone(reply)) => match reply {
            Ok(_) => UploadState { phase: UploadPhaseView::ReportEnd, ..s },
            Err(error) => ended(s, Some(error)),
        },
        (UploadAction::Initiate, UploadEventView::Initiated { reply, cancelled }) => match reply {
            Ok(plan) => sending(noticed(UploadState { plan: Some(plan), ..s }, cancelled)),
            Err(error) => ended(s, Some(error)),
        },
        (UploadAction::StartPart { .. }, UploadEventView::PartStarted { cancelled }) => noticed(
            UploadState { started: s.started + 1, ..s },
            cancelled,
        ),
        (
            UploadAction::AwaitPart { .. },
            UploadEventView::PartDone { outcome, cancelled },
        ) => settle(s, outcome, cancelled),
        (UploadAction::Complete, UploadEventView::Completed(reply)) => match reply {
            Ok(_) => UploadState { phase: UploadPhaseView::ReportEnd, ..s },
            Err(error) => ended(s, Some(error)),
        },
        (UploadAction::Abort, UploadEventView::AbortDone) => ended(s, s.stop),
        _ => s,
    }
}

/// An event that can occur: the bytes of a file can be counted.
pub open spec fn upload_possible(s: UploadState, event: UploadEventView) -> bool {
    event matches UploadEventView::PartDone { outcome: Ok((_, bytes)), .. } ==> s.transferred
        + bytes <= u64::MAX
}

/// Where an upload stands.
#[derive(Debug)]
enum UploadPhase {
    Check,
    ReportStart,
    Put,
    Initiate,
    Send,
    ReportPart,
    ReportEnd,
    Finished(Option<Drive9Error>),
}

impl View for UploadPhase {
    type V = UploadPhaseView;

    closed spec fn view(&self) -> UploadPhaseView {
        match *self {
            UploadPhase::Check => UploadPhaseView::Check,
            UploadPhase::ReportStart => UploadPhaseView::ReportStart,
            UploadPhase::Put => UploadPhaseView::Put,
            UploadPhase::Initiate => UploadPhaseView::Initiate,
            UploadPhase::Send => UploadPhaseView::Send,
            UploadPhase::ReportPart => UploadPhaseView::ReportPart,
            UploadPhase::ReportEnd => UploadPhaseView::ReportEnd,
            UploadPhase::Finished(outcome) => UploadPhaseView::Finished(error_view(outcome)),
        }
    }
}

/// The content of an optional error.
pub open spec fn error_view(error: Option<Drive9Error>) -> Option<ErrorView> {
    match error {
        Some(error) => Some(error@),
        None => None,
    }
}

/// An upload of a local file.
#[derive(Debug)]
pub struct FileUpload {
    route: UploadRoute,
    total: u64,
    plan: Option<UploadPlanV2>,
    started: i32,
    settled: i32,
    parts: Vec<CompletePart>,
    transferred: u64,
    stop: Option<Drive9Error>,
    phase: UploadPhase,
}

impl View for FileUpload {
    type V = UploadState;

    closed spec fn view(&self) -> UploadState {
        UploadState {
            route: self.route,
            total: self.total,
            plan: match self.plan {
                Some(plan) => Some(plan@),
                None => None,
            },
            started: self.started as int,
            settled: self.settled as int,
            parts: self.parts@.map_values(|part: CompletePart| part@),
            transferred: self.transferred,
            stop: error_view(self.stop),
            phase: self.phase@,
        }
    }
}

impl FileUpload {
    /// An upload of `size` bytes by `route`.
    pub fn new(size: i64, route: UploadRoute) -> (upload: Self)
        ensures
            upload@ == upload_start(size, route),
            upload@.consistent(),
    {
        let upload = FileUpload {
            route,
            total: if size > 0 {
                size as u64
            } else {
                0
            },
            plan: None,
            started: 0,
            settled: 0,
            parts: Vec::new(),
            transferred: 0,
            stop: None,
            phase: UploadPhase::Check,
        };
        assert(upload@.parts =~= Seq::empty());
        upload
    }

    /// The plan that the server gave, once the upload has been initiated.
    pub fn plan(&self) -> (plan: Option<&UploadPlanV2>)
        ensures
            match self@.plan {
                Some(expected) => plan matches Some(given) && given@ == expected,
                None => plan is None,
            },
    {
        self.plan.as_ref()
    }

    /// The parts that have landed, in the order of their numbers.
    pub fn parts(&self) -> (parts: &Vec<CompletePart>)
        ensures
            parts@.map_values(|part: CompletePart| part@) == self@.parts,
    {
        &self.parts
    }

    /// What has to be done next.
    pub fn pending(&self) -> (action: UploadAction)
        requires
            self@.consistent(),
        ensures
            action == upload_pending(self@),
    {
        match &self.phase {
            UploadPhase::Check => UploadAction::Check,
            UploadPhase::ReportStart => UploadAction::Report { transferred: 0, total: self.total },
            UploadPhase::Put => UploadAction::Put,
            UploadPhase::Initiate => UploadAction::Initiate,
            UploadPhase::Send => {
                let total_parts: i32 = match &self.plan {
                    Some(plan) => plan.total_parts,
                    None => 0,
                };
                if self.stop.is_none() && self.started < total_parts && (self.started
                    - self.settled) < UPLOAD_MAX_CONCURRENCY as i32 {
                    UploadAction::StartPart { number: self.started + 1 }
                } else if self.settled < self.started {
                    UploadAction::AwaitPart { number: self.settled + 1 }
                } else if self.stop.is_some() {
                    UploadAction::Abort
                } else {
                    UploadAction::Complete
                }
            },
            UploadPhase::ReportPart => UploadAction::Report {
                transferred: self.transferred,
                total: self.total,
            },
            UploadPhase::ReportEnd => UploadAction::Report {
                transferred: self.total,
                total: self.total,
            },
            UploadPhase::Finished(_) => UploadAction::Finished,
        }
    }

    /// Takes note of a cancellation.
    fn notice(&mut self, cancelled: bool)
        ensures
            final(self)@ == noticed(old(self)@, cancelled),
    {
        if cancelled && self.stop.is_none() {
            self.stop = Some(Drive9Error::Cancelled);
        }
    }

    /// A part has ended.
    fn settle_part(&mut self, outcome: Result<(String, u64), Drive9Error>, cancelled: bool)
        requires
            old(self)@.consistent(),
            upload_pending(old(self)@) is AwaitPart,
            old(self)@.phase is Send,
            outcome matches Ok((_, bytes)) ==> old(self)@.transferred + bytes <= u64::MAX,
        ensures
            final(self)@ == settle(
                old(self)@,
                match outcome {
                    Ok((etag, bytes)) => Ok((etag@, bytes)),
                    Err(error) => Err(error@),
                },
                cancelled,
            ),
    {
        self.settled = self.settled + 1;
        match outcome {
            Ok((etag, bytes)) => {
                if self.stop.is_some() || cancelled {
                    self.notice(cancelled);
                } else {
                    let part = CompletePart { number: self.settled, etag };
                    self.parts.push(part);
                    self.transferred = self.transferred + bytes;
                    assert(self@.parts =~= old(self)@.parts.push(part@));
                    if self.transferred < self.total {
                        self.phase = UploadPhase::ReportPart;
                    }
                }
            },
            Err(error) => {
                if self.stop.is_none() {
                    self.stop = Some(error);
                }
            },
        }
    }

    /// The upload goes on after a request to the server, or is over.
    fn after_request(&mut self, reply: Result<(), Drive9Error>)
        ensures
            final(self)@ == match unit_reply(reply) {
                Ok(_) => UploadState { phase: UploadPhaseView::ReportEnd, ..old(self)@ },
                Err(error) => ended(old(self)@, Some(error)),
            },
    {
        self.phase = match reply {
            Ok(_) => UploadPhase::ReportEnd,
            Err(error) => UploadPhase::Finished(Some(error)),
        };
    }

    /// Takes up what came of the pending action.
    pub fn advance(&mut self, event: UploadEvent)
        requires
            old(self)@.consistent(),
            upload_possible(old(self)@, event@),
        ensures
            final(self)@ == upload_next(old(self)@, event@),
            final(self)@.consistent(),
    {
        match (self.pending(), event) {
            (UploadAction::Check, UploadEvent::Checked { cancelled }) => {
                self.phase = if cancelled {
                    UploadPhase::Finished(Some(Drive9Error::Cancelled))
                } else {
                    match self.route {
                        UploadRoute::Single => UploadPhase::ReportStart,
                        UploadRoute::Multipart => UploadPhase::Initiate,
                    }
                };
            },
            (UploadAction::Report { .. }, UploadEvent::Reported { cancelled }) => {
                match self.phase {
                    UploadPhase::ReportStart => {
                        self.phase = if cancelled {
                            UploadPhase::Finished(Some(Drive9Error::Cancelled))
                        } else {
                            UploadPhase::Put
                        };
                    },
                    UploadPhase::ReportPart => {
                        self.notice(cancelled);
                        self.phase = UploadPhase::Send;
                    },
                    _ => {
                        self.phase = UploadPhase::Finished(None);
                    },
                }
            },
            (UploadAction::Put, UploadEvent::PutDone(reply)) => {
                self.after_request(reply);
            },
            (UploadAction::Initiate, UploadEvent::Initiated { reply, cancelled }) => {
                match reply {
                    Ok(plan) => {
                        self.plan = Some(plan);
                        self.notice(cancelled);
                        self.phase = UploadPhase::Send;
                    },
                    Err(error) => {
                        self.phase = UploadPhase::Finished(Some(error));
                    },
                }
            },
            (UploadAction::StartPart { .. }, UploadEvent::PartStarted { cancelled }) => {
                self.started = self.started + 1;
                self.notice(cancelled);
            },
            (UploadAction::AwaitPart { .. }, UploadEvent::PartDone { outcome, cancelled }) => {
                self.settle_part(outcome, cancelled);
            },
            (UploadAction::Complete, UploadEvent::Completed(reply)) => {
                self.after_request(reply);
            },
            (UploadAction::Abort, UploadEvent::AbortDone) => {
                let stop = match &self.stop {
                    Some(error) => Some(error.clone()),
                    None => None,
                };
                self.phase = UploadPhase::Finished(stop);
            },
            _ => {},
        }
    }

    /// How the upload ended, once it has.
    pub fn outcome(&self) -> (outcome: Option<Result<(), Drive9Error>>)
        ensures
            match self@.phase {
                UploadPhaseView::Finished(None) => outcome matches Some(Ok(_)),
                UploadPhaseView::Finished(Some(expected)) => outcome matches Some(Err(error))
                    && error@ == expected,
                _ => outcome is None,
            },
    {
        match &self.phase {
            UploadPhase::Finished(None) => Some(Ok(())),
            UploadPhase::Finished(Some(error)) => Some(Err(error.clone())),
            _ => None,
        }
    }
}

} // verus!

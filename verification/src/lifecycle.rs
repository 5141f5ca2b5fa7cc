//! The lifecycle of one submission: confirm, log in, upload, then follow the
//! judgement.
//!
//! Like the poller that it contains, the lifecycle performs nothing itself.
//! Its driver performs the action that is pending and hands the outcome back
//! as an event.

use crate::poller::{
    config_is_valid, initial_poller, lemma_initial_well_formed, lemma_step_preserves_well_formed,
    pending_action_of, poll_message_of, poll_step, well_formed, Awaiting, PollAction, PollConfig,
    PollError, PollEvent, PollEventModel, PollState, PollStateModel, Poller, PollerModel,
    ProgressEvent, ProgressEventModel, COMPILE_ERROR_MESSAGE, UNJUDGED_MESSAGE,
};
use crate::session::{auth_message_of, login_outcome, login_result_of, AuthError};
use crate::transport::{Exchange, ExchangeModel};
use crate::text::{lowercase_of, to_lowercase, trim, trimmed};
use crate::upload::{
    read_upload_response, submit_message_of, upload_result_of, SubmitError, SubmitErrorModel,
    Submission, SubmissionModel,
};
use vstd::prelude::*;

verus! {

/// The answer that confirms a submission.
pub const CONFIRMATION: &'static str = "y";

/// Where a submission stands.
#[derive(Debug, Clone, Copy, PartialEq, Eq, Structural)]
pub enum Stage {
    /// The person has been asked whether to submit.
    Confirming,
    /// The login before the upload is under way.
    LoggingIn,
    /// The upload is under way.
    Uploading,
    /// The judgement is being polled.
    Polling,
    /// Over: the person declined.
    Declined,
    /// Over: the judgement has finished.
    Finished,
    /// Over: something went wrong.
    Failed,
}

/// Why a submission failed.
#[derive(Debug, Clone, PartialEq, Eq)]
pub enum Failure {
    /// The path of the solution file names no file.
    NoFileName,
    /// The answer to the confirmation prompt could not be read.
    InputUnreadable,
    /// The driver cancelled the submission.
    Cancelled,
    /// The login before the upload failed.
    Auth(AuthError),
    /// The upload failed.
    Submit(SubmitError),
    /// The poll ended without a verdict.
    Poll(PollError),
    /// The solution did not compile.
    CompileError,
    /// The poll is over, and the judgement is not.
    Unjudged,
}

/// The mathematical model of a [`Failure`].
pub enum FailureModel {
    NoFileName,
    InputUnreadable,
    Cancelled,
    Auth(AuthError),
    Submit(SubmitErrorModel),
    Poll(PollError),
    CompileError,
    Unjudged,
}

impl DeepView for Failure {
    type V = FailureModel;

    open spec fn deep_view(&self) -> FailureModel {
        match self {
            Failure::NoFileName => FailureModel::NoFileName,
            Failure::InputUnreadable => FailureModel::InputUnreadable,
            Failure::Cancelled => FailureModel::Cancelled,
            Failure::Auth(error) => FailureModel::Auth(*error),
            Failure::Submit(error) => FailureModel::Submit(error.deep_view()),
            Failure::Poll(error) => FailureModel::Poll(*error),
            Failure::CompileError => FailureModel::CompileError,
            Failure::Unjudged => FailureModel::Unjudged,
        }
    }
}

impl View for Failure {
    type V = FailureModel;

    open spec fn view(&self) -> FailureModel {
        self.deep_view()
    }
}

/// What the driver tells the lifecycle.
#[derive(Debug, Clone, PartialEq, Eq)]
pub enum Event {
    /// What the person answered to the confirmation prompt; `None` where
    /// the answer could not be read.
    Answer(Option<String>),
    /// How a login request ended.
    Login(Exchange),
    /// How the upload ended. A solution file that cannot be read counts as
    /// a request that failed.
    Upload(Exchange),
    /// How the request for the status document ended.
    Status(Exchange),
    /// The pause between two ticks is over.
    TickElapsed,
    /// The submission is to end now.
    Cancel,
}

/// The mathematical model of an [`Event`].
pub enum EventModel {
    Answer(Option<Seq<char>>),
    Login(ExchangeModel),
    Upload(ExchangeModel),
    Status(ExchangeModel),
    TickElapsed,
    Cancel,
}

impl DeepView for Event {
    type V = EventModel;

    open spec fn deep_view(&self) -> EventModel {
        match self {
            Event::Answer(answer) => EventModel::Answer(answer.deep_view()),
            Event::Login(exchange) => EventModel::Login(exchange.deep_view()),
            Event::Upload(exchange) => EventModel::Upload(exchange.deep_view()),
            Event::Status(exchange) => EventModel::Status(exchange.deep_view()),
            Event::TickElapsed => EventModel::TickElapsed,
            Event::Cancel => EventModel::Cancel,
        }
    }
}

impl View for Event {
    type V = EventModel;

    open spec fn view(&self) -> EventModel {
        self.deep_view()
    }
}

/// What the lifecycle asks of the driver.
#[derive(Debug, Clone, Copy, PartialEq, Eq, Structural)]
pub enum Action {
    /// Show the submission and ask whether to go on; answer with
    /// `Event::Answer`.
    Ask,
    /// Log in; answer with `Event::Login`.
    Authenticate,
    /// Read the solution file and send the upload form; answer with
    /// `Event::Upload`.
    Upload,
    /// Request the status document; answer with `Event::Status`.
    Fetch,
    /// Pause for so many milliseconds; answer with `Event::TickElapsed`.
    Sleep(u64),
    /// Nothing more: the submission is over.
    Finish,
}

/// What the lifecycle reports.
#[derive(Debug, Clone, PartialEq, Eq)]
pub enum Report {
    /// The upload succeeded; the service gave the submission this
    /// identifier.
    Submitted(String),
    /// The poller reports progress.
    Progress(ProgressEvent),
}

/// The mathematical model of a [`Report`].
pub enum ReportModel {
    Submitted(Seq<char>),
    Progress(ProgressEventModel),
}

impl DeepView for Report {
    type V = ReportModel;

    open spec fn deep_view(&self) -> ReportModel {
        match self {
            Report::Submitted(id) => ReportModel::Submitted(id@),
            Report::Progress(event) => ReportModel::Progress(event.deep_view()),
        }
    }
}

impl View for Report {
    type V = ReportModel;

    open spec fn view(&self) -> ReportModel {
        self.deep_view()
    }
}

/// One submission on its way.
#[derive(Debug, Clone, PartialEq, Eq)]
pub struct Lifecycle {
    /// What is submitted, with the identifier once the service gave one.
    pub submission: Submission,
    /// The name under which the solution file is uploaded.
    pub file_name: String,
    /// Where the submission stands.
    pub stage: Stage,
    /// The poller that follows the judgement.
    pub poller: Poller,
    /// Why the submission failed, where it did.
    pub failure: Option<Failure>,
}

/// The mathematical model of a [`Lifecycle`].
pub struct LifecycleModel {
    pub submission: SubmissionModel,
    pub file_name: Seq<char>,
    pub stage: Stage,
    pub poller: PollerModel,
    pub failure: Option<FailureModel>,
}

impl DeepView for Lifecycle {
    type V = LifecycleModel;

    open spec fn deep_view(&self) -> LifecycleModel {
        LifecycleModel {
            submission: self.submission.deep_view(),
            file_name: self.file_name@,
            stage: self.stage,
            poller: self.poller.deep_view(),
            failure: self.failure.deep_view(),
        }
    }
}

impl View for Lifecycle {
    type V = LifecycleModel;

    open spec fn view(&self) -> LifecycleModel {
        self.deep_view()
    }
}

/// What one turn of the lifecycle yields: the action now pending, and what
/// to report, in order.
#[derive(Debug, Clone, PartialEq, Eq)]
pub struct Turn {
    /// What the driver is to do next.
    pub action: Action,
    /// What to report of this turn.
    pub reports: Vec<Report>,
}

/// Whether an answer to the confirmation prompt confirms.
pub open spec fn is_confirmation(answer: Seq<char>) -> bool {
    lowercase_of(trimmed(answer)) == CONFIRMATION@
}

/// Whether a stage is one in which the submission is over.
pub open spec fn is_over(stage: Stage) -> bool {
    stage == Stage::Declined || stage == Stage::Finished || stage == Stage::Failed
}

/// A lifecycle at its start. Without a file name it has failed already;
/// confirmed beforehand it starts with the login, else with the question.
pub open spec fn initial_lifecycle(
    submission: SubmissionModel,
    file_name: Option<Seq<char>>,
    confirmed: bool,
    interval_ms: u64,
    max_ticks: Option<u64>,
) -> LifecycleModel {
    LifecycleModel {
        submission,
        file_name: match file_name {
            Some(name) => name,
            None => Seq::empty(),
        },
        stage: if file_name is None {
            Stage::Failed
        } else if confirmed {
            Stage::LoggingIn
        } else {
            Stage::Confirming
        },
        poller: initial_poller(interval_ms, max_ticks),
        failure: if file_name is None {
            Some(FailureModel::NoFileName)
        } else {
            None
        },
    }
}

/// The action that a lifecycle asks for.
pub open spec fn next_action_of(lifecycle: LifecycleModel) -> Action {
    match lifecycle.stage {
        Stage::Confirming => Action::Ask,
        Stage::LoggingIn => Action::Authenticate,
        Stage::Uploading => Action::Upload,
        Stage::Polling => match pending_action_of(lifecycle.poller) {
            PollAction::Authenticate => Action::Authenticate,
            PollAction::Fetch => Action::Fetch,
            PollAction::Sleep(millis) => Action::Sleep(millis),
            PollAction::Stop => Action::Finish,
            PollAction::Abort(_) => Action::Finish,
        },
        _ => Action::Finish,
    }
}

/// The lifecycle after it failed.
pub open spec fn failed(lifecycle: LifecycleModel, failure: FailureModel) -> LifecycleModel {
    LifecycleModel { stage: Stage::Failed, failure: Some(failure), ..lifecycle }
}

/// The submission with the identifier recorded, unless it has one already.
pub open spec fn identified(submission: SubmissionModel, id: Seq<char>) -> SubmissionModel {
    if submission.id is None {
        SubmissionModel { id: Some(id), ..submission }
    } else {
        submission
    }
}

/// The lifecycle after a step of its poller: it goes on polling while the
/// poller does, and is over once the poller is.
pub open spec fn after_poll(lifecycle: LifecycleModel, poller: PollerModel) -> LifecycleModel {
    let polled = LifecycleModel { poller, ..lifecycle };
    if poller.awaiting != Awaiting::Nothing {
        polled
    } else {
        match poller.halt {
            Some(error) => failed(polled, FailureModel::Poll(error)),
            None => match poller.state {
                PollStateModel::FinishedTerminal { .. } => LifecycleModel {
                    stage: Stage::Finished,
                    ..polled
                },
                PollStateModel::CompileErrorTerminal => failed(polled, FailureModel::CompileError),
                _ => failed(polled, FailureModel::Unjudged),
            },
        }
    }
}

/// The reports of the progress that a poller's step reported.
pub open spec fn progress_reports(events: Seq<ProgressEventModel>) -> Seq<ReportModel> {
    Seq::new(events.len(), |i: int| ReportModel::Progress(events[i]))
}

/// A polling lifecycle after an event for its poller, and what it reports.
pub open spec fn polled(lifecycle: LifecycleModel, event: PollEventModel) -> (
    LifecycleModel,
    Seq<ReportModel>,
) {
    let (poller, events) = poll_step(lifecycle.poller, event);
    (after_poll(lifecycle, poller), progress_reports(events))
}

/// A lifecycle after the answer to the confirmation prompt.
pub open spec fn answered(lifecycle: LifecycleModel, answer: Option<Seq<char>>) -> LifecycleModel {
    match answer {
        None => failed(lifecycle, FailureModel::InputUnreadable),
        Some(text) => if is_confirmation(text) {
            LifecycleModel { stage: Stage::LoggingIn, ..lifecycle }
        } else {
            LifecycleModel { stage: Stage::Declined, ..lifecycle }
        },
    }
}

/// A lifecycle after the answer to the login before the upload.
pub open spec fn logged_in(lifecycle: LifecycleModel, exchange: ExchangeModel) -> LifecycleModel {
    match login_result_of(exchange) {
        Ok(_) => LifecycleModel { stage: Stage::Uploading, ..lifecycle },
        Err(error) => failed(lifecycle, FailureModel::Auth(error)),
    }
}

/// A lifecycle after the answer to the upload, and what it reports.
pub open spec fn uploaded(lifecycle: LifecycleModel, exchange: ExchangeModel) -> (
    LifecycleModel,
    Seq<ReportModel>,
) {
    match upload_result_of(exchange, lifecycle.submission.problem) {
        Ok(id) => (
            LifecycleModel {
                submission: identified(lifecycle.submission, id),
                stage: Stage::Polling,
                ..lifecycle
            },
            seq![ReportModel::Submitted(id)],
        ),
        Err(error) => (failed(lifecycle, FailureModel::Submit(error)), Seq::empty()),
    }
}

/// One turn of the lifecycle: the lifecycle after `event`, and what it
/// reports. A lifecycle that is over stays as it is. A cancellation ends
/// any other. An event that the stage does not wait for changes nothing.
pub open spec fn advance_of(lifecycle: LifecycleModel, event: EventModel) -> (
    LifecycleModel,
    Seq<ReportModel>,
) {
    let stage = lifecycle.stage;
    let unchanged = (lifecycle, Seq::<ReportModel>::empty());
    if is_over(stage) {
        unchanged
    } else {
        match event {
            EventModel::Cancel => (failed(lifecycle, FailureModel::Cancelled), Seq::empty()),
            EventModel::Answer(answer) => if stage == Stage::Confirming {
                (answered(lifecycle, answer), Seq::empty())
            } else {
                unchanged
            },
            EventModel::Login(exchange) => if stage == Stage::LoggingIn {
                (logged_in(lifecycle, exchange), Seq::empty())
            } else if stage == Stage::Polling {
                polled(lifecycle, PollEventModel::Login(exchange))
            } else {
                unchanged
            },
            EventModel::Upload(exchange) => if stage == Stage::Uploading {
                uploaded(lifecycle, exchange)
            } else {
                unchanged
            },
            EventModel::Status(exchange) => if stage == Stage::Polling {
                polled(lifecycle, PollEventModel::Status(exchange))
            } else {
                unchanged
            },
            EventModel::TickElapsed => if stage == Stage::Polling {
                polled(lifecycle, PollEventModel::TickElapsed)
            } else {
                unchanged
            },
        }
    }
}

/// What a failure says to a person.
pub open spec fn failure_message_of(failure: FailureModel) -> Seq<char> {
    match failure {
        FailureModel::NoFileName => "failed to get file name"@,
        FailureModel::InputUnreadable => "failed to read input"@,
        FailureModel::Cancelled => "the submission was cancelled"@,
        FailureModel::Auth(error) => auth_message_of(error),
        FailureModel::Submit(error) => submit_message_of(error),
        FailureModel::Poll(error) => poll_message_of(error),
        FailureModel::CompileError => COMPILE_ERROR_MESSAGE@,
        FailureModel::Unjudged => UNJUDGED_MESSAGE@,
    }
}

impl Failure {
    /// What the failure says to a person.
    pub fn message(&self) -> (text: String)
        ensures
            text@ == failure_message_of(self.deep_view()),
    {
        match self {
            Failure::NoFileName => "failed to get file name".to_owned(),
            Failure::InputUnreadable => "failed to read input".to_owned(),
            Failure::Cancelled => "the submission was cancelled".to_owned(),
            Failure::Auth(error) => error.message(),
            Failure::Submit(error) => error.message(),
            Failure::Poll(error) => error.message(),
            Failure::CompileError => COMPILE_ERROR_MESSAGE.to_owned(),
            Failure::Unjudged => UNJUDGED_MESSAGE.to_owned(),
        }
    }
}

/// Tells whether an answer to the confirmation prompt confirms.
pub fn confirms(answer: &str) -> (confirmed: bool)
    ensures
        confirmed == is_confirmation(answer@),
{
    let normal = to_lowercase(trim(answer));
    let expected = CONFIRMATION.to_owned();
    normal == expected
}

/// Begins the submission of `submission`, whose solution file is uploaded
/// under `file_name`. `confirmed` says that the person is not to be asked.
pub fn submit(
    submission: Submission,
    file_name: Option<String>,
    confirmed: bool,
    config: PollConfig,
) -> (lifecycle: Lifecycle)
    ensures
        lifecycle.deep_view() == initial_lifecycle(
            submission.deep_view(),
            file_name.deep_view(),
            confirmed,
            config.interval(),
            config.ceiling(),
        ),
{
    let poller = Poller::start(config);
    match file_name {
        Some(name) => Lifecycle {
            submission,
            file_name: name,
            stage: if confirmed {
                Stage::LoggingIn
            } else {
                Stage::Confirming
            },
            poller,
            failure: None,
        },
        None => Lifecycle {
            submission,
            file_name: String::new(),
            stage: Stage::Failed,
            poller,
            failure: Some(Failure::NoFileName),
        },
    }
}

impl Lifecycle {
    /// The action that the lifecycle asks for.
    pub fn next_action(&self) -> (action: Action)
        ensures
            action == next_action_of(self.deep_view()),
    {
        match self.stage {
            Stage::Confirming => Action::Ask,
            Stage::LoggingIn => Action::Authenticate,
            Stage::Uploading => Action::Upload,
            Stage::Polling => match self.poller.pending_action() {
                PollAction::Authenticate => Action::Authenticate,
                PollAction::Fetch => Action::Fetch,
                PollAction::Sleep(millis) => Action::Sleep(millis),
                PollAction::Stop => Action::Finish,
                PollAction::Abort(_) => Action::Finish,
            },
            _ => Action::Finish,
        }
    }

    /// Tells whether the submission is over.
    pub fn is_over(&self) -> (over: bool)
        ensures
            over == is_over(self.deep_view().stage),
    {
        match self.stage {
            Stage::Declined => true,
            Stage::Finished => true,
            Stage::Failed => true,
            _ => false,
        }
    }

    /// What went wrong with the submission, if anything did.
    pub fn error_message(&self) -> (message: Option<String>)
        ensures
            message.deep_view() == match self.deep_view().failure {
                Some(failure) => Some(failure_message_of(failure)),
                None => None,
            },
    {
        match &self.failure {
            Some(failure) => Some(failure.message()),
            None => None,
        }
    }

    /// Ends the submission with a failure.
    fn fail(&mut self, failure: Failure)
        ensures
            final(self).deep_view() == failed(old(self).deep_view(), failure.deep_view()),
    {
        self.stage = Stage::Failed;
        self.failure = Some(failure);
    }

    /// Hands an event to the poller, and follows the poller where it ends.
    fn poll(&mut self, event: PollEvent) -> (reports: Vec<Report>)
        ensures
            (final(self).deep_view(), reports.deep_view()) == polled(
                old(self).deep_view(),
                event.deep_view(),
            ),
    {
        let step = self.poller.step(event);
        if self.poller.is_over() {
            match self.poller.halt {
                Some(error) => {
                    self.fail(Failure::Poll(error));
                },
                None => match &self.poller.state {
                    PollState::FinishedTerminal { .. } => {
                        self.stage = Stage::Finished;
                    },
                    PollState::CompileErrorTerminal => {
                        self.fail(Failure::CompileError);
                    },
                    _ => {
                        self.fail(Failure::Unjudged);
                    },
                },
            }
        }
        let ghost all = step.events.deep_view();
        let mut events = step.events;
        let mut reports: Vec<Report> = Vec::new();
        while events.len() > 0
            invariant
                reports.len() + events.len() == all.len(),
                forall|i: int|
                    0 <= i < reports.len() ==> (#[trigger] reports@[i]).deep_view()
                        == ReportModel::Progress(all[i]),
                forall|i: int|
                    0 <= i < events.len() ==> (#[trigger] events@[i]).deep_view() == all[reports.len()
                        + i],
            decreases events.len(),
        {
            let event = events.remove(0);
            reports.push(Report::Progress(event));
        }
        reports
    }

    /// One turn: takes in `event`, and answers with the action now pending
    /// and what to report.
    pub fn advance(&mut self, event: Event) -> (turn: Turn)
        ensures
            (final(self).deep_view(), turn.reports.deep_view()) == advance_of(
                old(self).deep_view(),
                event.deep_view(),
            ),
            turn.action == next_action_of(final(self).deep_view()),
    {
        let mut reports: Vec<Report> = Vec::new();
        if !self.is_over() {
            match event {
                Event::Cancel => {
                    self.fail(Failure::Cancelled);
                },
                Event::Answer(answer) => {
                    if let Stage::Confirming = self.stage {
                        match answer {
                            None => {
                                self.fail(Failure::InputUnreadable);
                            },
                            Some(text) => {
                                if confirms(text.as_str()) {
                                    self.stage = Stage::LoggingIn;
                                } else {
                                    self.stage = Stage::Declined;
                                }
                            },
                        }
                    }
                },
                Event::Login(exchange) => {
                    if let Stage::LoggingIn = self.stage {
                        match login_outcome(&exchange) {
                            Ok(_) => {
                                self.stage = Stage::Uploading;
                            },
                            Err(error) => {
                                self.fail(Failure::Auth(error));
                            },
                        }
                    } else if let Stage::Polling = self.stage {
                        reports = self.poll(PollEvent::Login(exchange));
                    }
                },
                Event::Upload(exchange) => {
                    if let Stage::Uploading = self.stage {
                        match read_upload_response(&exchange, self.submission.problem.as_str()) {
                            Ok(id) => {
                                reports.push(Report::Submitted(id.clone()));
                                self.submission.assign_id(id);
                                self.stage = Stage::Polling;
                            },
                            Err(error) => {
                                self.fail(Failure::Submit(error));
                            },
                        }
                    }
                },
                Event::Status(exchange) => {
                    if let Stage::Polling = self.stage {
                        reports = self.poll(PollEvent::Status(exchange));
                    }
                },
                Event::TickElapsed => {
                    if let Stage::Polling = self.stage {
                        reports = self.poll(PollEvent::TickElapsed);
                    }
                },
            }
        }
        Turn { action: self.next_action(), reports }
    }
}

/// What holds of every lifecycle that began with `submit`, for a submission
/// without an identifier, and was moved by `Lifecycle::advance` alone.
pub open spec fn lifecycle_well_formed(lifecycle: LifecycleModel) -> bool {
    let stage = lifecycle.stage;
    let poller = lifecycle.poller;
    &&& well_formed(poller)
    &&& lifecycle.failure is Some <==> stage == Stage::Failed
    &&& stage == Stage::Confirming || stage == Stage::LoggingIn || stage == Stage::Uploading ==> {
        &&& poller == initial_poller(poller.interval_ms, poller.max_ticks)
        &&& lifecycle.submission.id is None
    }
    &&& stage == Stage::Polling ==> poller.awaiting != Awaiting::Nothing && lifecycle.submission.id
        is Some
    &&& stage == Stage::Finished ==> poller.state is FinishedTerminal && lifecycle.submission.id
        is Some
    &&& lifecycle.failure matches Some(failure) ==> (failure is Poll || failure is CompileError
        ==> lifecycle.submission.id is Some) && !(failure is Unjudged)
}

/// A lifecycle begins well formed, and asks first for the confirmation,
/// or for the login where the person confirmed beforehand.
pub proof fn lemma_initial_lifecycle(
    submission: SubmissionModel,
    file_name: Option<Seq<char>>,
    confirmed: bool,
    interval_ms: u64,
    max_ticks: Option<u64>,
)
    requires
        submission.id is None,
        config_is_valid(interval_ms, max_ticks),
    ensures
        ({
            let begun = initial_lifecycle(submission, file_name, confirmed, interval_ms, max_ticks);
            &&& lifecycle_well_formed(begun)
            &&& next_action_of(begun) == if file_name is None {
                Action::Finish
            } else if confirmed {
                Action::Authenticate
            } else {
                Action::Ask
            }
        }),
{
    lemma_initial_well_formed(interval_ms, max_ticks);
}

/// A turn keeps a lifecycle well formed.
pub proof fn lemma_advance_preserves_well_formed(lifecycle: LifecycleModel, event: EventModel)
    requires
        lifecycle_well_formed(lifecycle),
    ensures
        lifecycle_well_formed(advance_of(lifecycle, event).0),
{
    if lifecycle.stage == Stage::Polling {
        match event {
            EventModel::Login(exchange) => {
                lemma_step_preserves_well_formed(lifecycle.poller, PollEventModel::Login(exchange));
            },
            EventModel::Status(exchange) => {
                lemma_step_preserves_well_formed(lifecycle.poller, PollEventModel::Status(exchange));
            },
            EventModel::TickElapsed => {
                lemma_step_preserves_well_formed(lifecycle.poller, PollEventModel::TickElapsed);
            },
            _ => {},
        }
    }
}

/// A lifecycle that is over stays as it is and reports nothing, whatever it
/// is told.
pub proof fn lemma_over_absorbs(lifecycle: LifecycleModel, event: EventModel)
    requires
        is_over(lifecycle.stage),
    ensures
        advance_of(lifecycle, event) == (lifecycle, Seq::<ReportModel>::empty()),
        next_action_of(lifecycle) == Action::Finish,
{
}

/// No turn changes what is submitted, and an identifier that the
/// submission has is never replaced: the only change that a turn makes to a
/// submission is to record the identifier of a successful upload.
pub proof fn lemma_submission_stands(lifecycle: LifecycleModel, event: EventModel)
    ensures
        ({
            let before = lifecycle.submission;
            let after = advance_of(lifecycle, event).0.submission;
            &&& after.problem == before.problem
            &&& after.language == before.language
            &&& after.main_class == before.main_class
            &&& after.file_path == before.file_path
            &&& before.id is Some ==> after.id == before.id
            &&& advance_of(lifecycle, event).0.file_name == lifecycle.file_name
        }),
{
}

/// The upload is asked for only in answer to a login that succeeded.
pub proof fn lemma_upload_follows_login(lifecycle: LifecycleModel, event: EventModel)
    requires
        lifecycle.stage != Stage::Uploading,
        advance_of(lifecycle, event).0.stage == Stage::Uploading,
    ensures
        lifecycle.stage == Stage::LoggingIn,
        event matches EventModel::Login(exchange) && login_result_of(exchange) is Ok,
{
}

/// The login before the upload is asked for only at the start, where the
/// person confirmed beforehand, or in answer to a confirmation.
pub proof fn lemma_login_follows_confirmation(lifecycle: LifecycleModel, event: EventModel)
    requires
        lifecycle.stage != Stage::LoggingIn,
        advance_of(lifecycle, event).0.stage == Stage::LoggingIn,
    ensures
        lifecycle.stage == Stage::Confirming,
        event matches EventModel::Answer(Some(text)) && is_confirmation(text),
{
}

/// Polling begins only in answer to an upload that succeeded, and then with
/// the identifier that the upload gave, which is reported.
pub proof fn lemma_polling_follows_upload(lifecycle: LifecycleModel, event: EventModel)
    requires
        lifecycle.stage != Stage::Polling,
        advance_of(lifecycle, event).0.stage == Stage::Polling,
    ensures
        lifecycle.stage == Stage::Uploading,
        event matches EventModel::Upload(exchange) && upload_result_of(
            exchange,
            lifecycle.submission.problem,
        ) matches Ok(id) && advance_of(lifecycle, event).1 == seq![ReportModel::Submitted(id)] && (
        lifecycle.submission.id is None ==> advance_of(lifecycle, event).0.submission.id == Some(
            id,
        )),
{
}

/// An answer that does not confirm ends the submission without a failure.
pub proof fn lemma_declined(lifecycle: LifecycleModel, answer: Seq<char>)
    requires
        lifecycle.stage == Stage::Confirming,
        !is_confirmation(answer),
    ensures
        advance_of(lifecycle, EventModel::Answer(Some(answer))) == (
            LifecycleModel { stage: Stage::Declined, ..lifecycle },
            Seq::<ReportModel>::empty(),
        ),
        next_action_of(advance_of(lifecycle, EventModel::Answer(Some(answer))).0)
            == Action::Finish,
{
}

/// While the judgement is polled, the lifecycle moves as its poller does
/// and asks for what its poller asks for.
pub proof fn lemma_polling_follows_poller(lifecycle: LifecycleModel, exchange: ExchangeModel)
    requires
        lifecycle.stage == Stage::Polling,
    ensures
        advance_of(lifecycle, EventModel::Login(exchange)).0.poller == poll_step(
            lifecycle.poller,
            PollEventModel::Login(exchange),
        ).0,
        advance_of(lifecycle, EventModel::Status(exchange)).0.poller == poll_step(
            lifecycle.poller,
            PollEventModel::Status(exchange),
        ).0,
        advance_of(lifecycle, EventModel::TickElapsed).0.poller == poll_step(
            lifecycle.poller,
            PollEventModel::TickElapsed,
        ).0,
        advance_of(lifecycle, EventModel::Status(exchange)).1 == progress_reports(
            poll_step(lifecycle.poller, PollEventModel::Status(exchange)).1,
        ),
{
}

} // verus!

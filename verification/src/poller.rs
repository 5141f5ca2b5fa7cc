//! The judgement poller: a state machine that is told what the transport
//! returned and answers with what to do next.
//!
//! One tick is: authenticate, fetch the status document, read it, and either
//! stop or wait and start over. The poller performs none of these itself.
//! Its driver performs the pending action and hands the outcome back as an
//! event.

use crate::document::{selected, ElementModel};
use crate::judgement::{
    parse_message_of, parse_status_document, status_document_of, status_kind_of, JudgementModel,
    JudgementStatus, ParseError, StatusDocument, StatusDocumentModel, StatusKind,
    COMPILE_ERROR_MARKER, STATUS_SELECTOR, TESTS_SELECTOR,
};
use crate::outcome::{
    count_accepted, count_rejected, first_failure, first_rejection, lemma_all_accepted_counts,
    lemma_counts_bounded, lemma_rejections_counted, lemma_single_rejection, marks, marks_of,
    outcome_of, outcomes_of, reason_of, tally, Mark, TestOutcomeModel, TITLE_ATTRIBUTE,
};
use crate::session::{auth_message_of, login_outcome, login_result_of, AuthError};
use crate::text::{decimal, decimal_of, is_substring, lowercase_of};
use crate::transport::{is_success, status_is_success, Exchange, ExchangeModel};
use vstd::prelude::*;
use vstd::string::StringExecFns;

verus! {

/// The time between two ticks, in milliseconds, where none is chosen.
pub const DEFAULT_INTERVAL_MS: u64 = 1000;

/// The longest time between two ticks that a configuration accepts.
pub const MAX_INTERVAL_MS: u64 = 60000;

/// What a compile error says to a person.
pub const COMPILE_ERROR_MESSAGE: &'static str = "kattis could not compile your code";

/// What a judgement that has not finished says to a person.
pub const UNJUDGED_MESSAGE: &'static str = "kattis has not judged the submission yet";

/// Whether a tick interval and a tick ceiling make a configuration: the
/// interval is not zero and not above the maximum, and a ceiling allows at
/// least one tick.
pub open spec fn config_is_valid(interval_ms: u64, max_ticks: Option<u64>) -> bool {
    &&& 0 < interval_ms <= MAX_INTERVAL_MS
    &&& max_ticks matches Some(ceiling) ==> ceiling >= 1
}

/// How a poller waits: the time between ticks and, optionally, how many
/// ticks it may take.
#[derive(Debug, Clone, Copy, PartialEq, Eq)]
pub struct PollConfig {
    interval_ms: u64,
    max_ticks: Option<u64>,
}

impl PollConfig {
    #[verifier::type_invariant]
    spec fn valid(self) -> bool {
        config_is_valid(self.interval_ms, self.max_ticks)
    }

    /// The time between two ticks, in milliseconds.
    pub closed spec fn interval(self) -> u64 {
        self.interval_ms
    }

    /// The number of ticks after which polling is given up, if there is one.
    pub closed spec fn ceiling(self) -> Option<u64> {
        self.max_ticks
    }

    /// A configuration with the given interval and ceiling, if they make
    /// one.
    pub fn new(interval_ms: u64, max_ticks: Option<u64>) -> (config: Option<PollConfig>)
        ensures
            config is Some <==> config_is_valid(interval_ms, max_ticks),
            config matches Some(made) ==> made.interval() == interval_ms && made.ceiling()
                == max_ticks,
    {
        let ceiling_ok = match max_ticks {
            Some(ceiling) => ceiling >= 1,
            None => true,
        };
        if 0 < interval_ms && interval_ms <= MAX_INTERVAL_MS && ceiling_ok {
            Some(PollConfig { interval_ms, max_ticks })
        } else {
            None
        }
    }

    /// The configuration with the default interval and no ceiling.
    pub fn unbounded() -> (config: PollConfig)
        ensures
            config.interval() == DEFAULT_INTERVAL_MS,
            config.ceiling() is None,
    {
        PollConfig { interval_ms: DEFAULT_INTERVAL_MS, max_ticks: None }
    }

    /// The time between two ticks, in milliseconds: never zero, never above
    /// the maximum.
    pub fn interval_ms(&self) -> (ms: u64)
        ensures
            ms == self.interval(),
            0 < ms <= MAX_INTERVAL_MS,
    {
        proof {
            use_type_invariant(self);
        }
        self.interval_ms
    }

    /// The number of ticks after which polling is given up, if there is one.
    pub fn max_ticks(&self) -> (ceiling: Option<u64>)
        ensures
            ceiling == self.ceiling(),
            ceiling matches Some(n) ==> n >= 1,
    {
        proof {
            use_type_invariant(self);
        }
        self.max_ticks
    }
}

impl Default for PollConfig {
    /// The configuration with the default interval and no ceiling.
    fn default() -> (config: PollConfig)
        ensures
            config.interval() == DEFAULT_INTERVAL_MS,
            config.ceiling() is None,
    {
        PollConfig::unbounded()
    }
}

/// Why a status document could not be had.
#[derive(Debug, Clone, Copy, PartialEq, Eq, Structural)]
pub enum FetchError {
    /// The request failed, or its response could not be read.
    Transport,
    /// The service answered with a status outside the success class.
    Status(u16),
}

/// Why polling ended without a verdict.
#[derive(Debug, Clone, Copy, PartialEq, Eq, Structural)]
pub enum PollError {
    /// Authentication failed.
    Auth(AuthError),
    /// The status document could not be fetched.
    Fetch(FetchError),
    /// The status document could not be read.
    Parse(ParseError),
    /// The tick ceiling was reached before a verdict.
    TimedOut,
    /// The driver cancelled the poll.
    Cancelled,
}

/// What a fetch error says to a person.
pub open spec fn fetch_message_of(error: FetchError) -> Seq<char> {
    match error {
        FetchError::Transport => "failed to read submission progress response from kattis"@,
        FetchError::Status(code) => "failed to fetch submission progress (http status code "@
            + decimal_of(code as nat) + ")"@,
    }
}

/// What the end of a poll without a verdict says to a person.
pub open spec fn poll_message_of(error: PollError) -> Seq<char> {
    match error {
        PollError::Auth(inner) => auth_message_of(inner),
        PollError::Fetch(inner) => fetch_message_of(inner),
        PollError::Parse(inner) => parse_message_of(inner),
        PollError::TimedOut => "gave up waiting for kattis to judge the submission"@,
        PollError::Cancelled => "stopped waiting for the judgement"@,
    }
}

impl FetchError {
    /// What the error says to a person.
    pub fn message(&self) -> (text: String)
        ensures
            text@ == fetch_message_of(*self),
    {
        match self {
            FetchError::Transport => "failed to read submission progress response from kattis".to_owned(),
            FetchError::Status(code) => {
                let mut text = "failed to fetch submission progress (http status code ".to_owned();
                text.append(decimal(*code).as_str());
                text.append(")");
                text
            },
        }
    }
}

impl PollError {
    /// What the error says to a person.
    pub fn message(&self) -> (text: String)
        ensures
            text@ == poll_message_of(*self),
    {
        match self {
            PollError::Auth(inner) => inner.message(),
            PollError::Fetch(inner) => inner.message(),
            PollError::Parse(inner) => inner.message(),
            PollError::TimedOut => "gave up waiting for kattis to judge the submission".to_owned(),
            PollError::Cancelled => "stopped waiting for the judgement".to_owned(),
        }
    }
}

/// What is known of the submission's judgement.
#[derive(Debug, Clone, PartialEq, Eq)]
pub enum PollState {
    /// Waiting to be judged.
    Queued,
    /// Being compiled.
    Compiling,
    /// Tests are running, none has failed, and some are unresolved.
    RunningTests { passed: usize, failed: usize, total: usize },
    /// Compilation failed. Terminal.
    CompileErrorTerminal,
    /// The verdict is in. Terminal. `reason` is the first failure reason, or
    /// `None` where every test was accepted.
    FinishedTerminal { passed: usize, failed: usize, total: usize, reason: Option<String> },
}

/// The mathematical model of a [`PollState`].
pub enum PollStateModel {
    Queued,
    Compiling,
    RunningTests { passed: nat, failed: nat, total: nat },
    CompileErrorTerminal,
    FinishedTerminal { passed: nat, failed: nat, total: nat, reason: Option<Seq<char>> },
}

impl DeepView for PollState {
    type V = PollStateModel;

    open spec fn deep_view(&self) -> PollStateModel {
        match self {
            PollState::Queued => PollStateModel::Queued,
            PollState::Compiling => PollStateModel::Compiling,
            PollState::RunningTests { passed, failed, total } => PollStateModel::RunningTests {
                passed: *passed as nat,
                failed: *failed as nat,
                total: *total as nat,
            },
            PollState::CompileErrorTerminal => PollStateModel::CompileErrorTerminal,
            PollState::FinishedTerminal {
                passed,
                failed,
                total,
                reason,
            } => PollStateModel::FinishedTerminal {
                passed: *passed as nat,
                failed: *failed as nat,
                total: *total as nat,
                reason: reason.deep_view(),
            },
        }
    }
}

impl View for PollState {
    type V = PollStateModel;

    open spec fn view(&self) -> PollStateModel {
        self.deep_view()
    }
}

/// The snapshot of a finished judgement: the counts, and the first failure
/// reason, which is `None` where every test was accepted.
#[derive(Debug, Clone, PartialEq, Eq)]
pub struct PollResult {
    /// Number of accepted tests.
    pub passed: usize,
    /// Number of rejected tests.
    pub failed: usize,
    /// Number of tests.
    pub total: usize,
    /// The reason of the first failure seen.
    pub reason: Option<String>,
}

/// The mathematical model of a [`PollResult`].
pub struct PollResultModel {
    pub passed: nat,
    pub failed: nat,
    pub total: nat,
    pub reason: Option<Seq<char>>,
}

impl DeepView for PollResult {
    type V = PollResultModel;

    open spec fn deep_view(&self) -> PollResultModel {
        PollResultModel {
            passed: self.passed as nat,
            failed: self.failed as nat,
            total: self.total as nat,
            reason: self.reason.deep_view(),
        }
    }
}

impl View for PollResult {
    type V = PollResultModel;

    open spec fn view(&self) -> PollResultModel {
        self.deep_view()
    }
}

/// What the poller waits for.
#[derive(Debug, Clone, Copy, PartialEq, Eq, Structural)]
pub enum Awaiting {
    /// The answer to a login request.
    Authentication,
    /// The answer to the request for the status document.
    Document,
    /// The end of the pause between two ticks.
    Tick,
    /// Nothing: the poll is over.
    Nothing,
}

/// What the driver tells the poller.
#[derive(Debug, Clone, PartialEq, Eq)]
pub enum PollEvent {
    /// How the login request ended.
    Login(Exchange),
    /// How the request for the status document ended.
    Status(Exchange),
    /// The pause between two ticks is over.
    TickElapsed,
    /// The poll is to end now.
    Cancel,
}

/// The mathematical model of a [`PollEvent`].
pub enum PollEventModel {
    Login(ExchangeModel),
    Status(ExchangeModel),
    TickElapsed,
    Cancel,
}

impl DeepView for PollEvent {
    type V = PollEventModel;

    open spec fn deep_view(&self) -> PollEventModel {
        match self {
            PollEvent::Login(exchange) => PollEventModel::Login(exchange.deep_view()),
            PollEvent::Status(exchange) => PollEventModel::Status(exchange.deep_view()),
            PollEvent::TickElapsed => PollEventModel::TickElapsed,
            PollEvent::Cancel => PollEventModel::Cancel,
        }
    }
}

impl View for PollEvent {
    type V = PollEventModel;

    open spec fn view(&self) -> PollEventModel {
        self.deep_view()
    }
}

/// What the poller asks of the driver.
#[derive(Debug, Clone, Copy, PartialEq, Eq, Structural)]
pub enum PollAction {
    /// Log in, and answer with `PollEvent::Login`. A driver for a service
    /// that needs no login answers with a successful exchange at once.
    Authenticate,
    /// Request the status document, and answer with `PollEvent::Status`.
    Fetch,
    /// Pause for so many milliseconds, and answer with
    /// `PollEvent::TickElapsed`.
    Sleep(u64),
    /// Stop: the poller's state is terminal.
    Stop,
    /// Stop: the poll ended without a verdict.
    Abort(PollError),
}

/// What the poller reports of its progress.
#[derive(Debug, Clone, PartialEq, Eq)]
pub enum ProgressEvent {
    /// The submission waits or compiles; the status text is passed on as
    /// found.
    Waiting(String),
    /// Tests are running: how many are resolved, how many there are, and one
    /// mark for each test, by position.
    Progress { resolved: usize, total: usize, marks: Vec<Mark> },
    /// The verdict is in.
    Terminal { passed: usize, failed: usize, total: usize, reason: Option<String> },
}

/// The mathematical model of a [`ProgressEvent`].
pub enum ProgressEventModel {
    Waiting(Seq<char>),
    Progress { resolved: nat, total: nat, marks: Seq<Mark> },
    Terminal { passed: nat, failed: nat, total: nat, reason: Option<Seq<char>> },
}

impl DeepView for ProgressEvent {
    type V = ProgressEventModel;

    open spec fn deep_view(&self) -> ProgressEventModel {
        match self {
            ProgressEvent::Waiting(text) => ProgressEventModel::Waiting(text@),
            ProgressEvent::Progress { resolved, total, marks } => ProgressEventModel::Progress {
                resolved: *resolved as nat,
                total: *total as nat,
                marks: marks@,
            },
            ProgressEvent::Terminal {
                passed,
                failed,
                total,
                reason,
            } => ProgressEventModel::Terminal {
                passed: *passed as nat,
                failed: *failed as nat,
                total: *total as nat,
                reason: reason.deep_view(),
            },
        }
    }
}

impl View for ProgressEvent {
    type V = ProgressEventModel;

    open spec fn view(&self) -> ProgressEventModel {
        self.deep_view()
    }
}

/// The poller: the last judgement seen, what it waits for, and the first
/// failure reason seen so far.
#[derive(Debug, Clone, PartialEq, Eq)]
pub struct Poller {
    /// How the poller waits.
    pub config: PollConfig,
    /// What is known of the judgement.
    pub state: PollState,
    /// What the poller waits for.
    pub awaiting: Awaiting,
    /// The reason of the first failure seen. Once set it is never replaced.
    pub first_failure: Option<String>,
    /// How many status documents have been read.
    pub ticks: u64,
    /// Why the poll ended, where it ended without a verdict.
    pub halt: Option<PollError>,
}

/// The mathematical model of a [`Poller`].
pub struct PollerModel {
    pub interval_ms: u64,
    pub max_ticks: Option<u64>,
    pub state: PollStateModel,
    pub awaiting: Awaiting,
    pub first_failure: Option<Seq<char>>,
    pub ticks: u64,
    pub halt: Option<PollError>,
}

impl DeepView for Poller {
    type V = PollerModel;

    open spec fn deep_view(&self) -> PollerModel {
        PollerModel {
            interval_ms: self.config.interval(),
            max_ticks: self.config.ceiling(),
            state: self.state.deep_view(),
            awaiting: self.awaiting,
            first_failure: self.first_failure.deep_view(),
            ticks: self.ticks,
            halt: self.halt,
        }
    }
}

impl View for Poller {
    type V = PollerModel;

    open spec fn view(&self) -> PollerModel {
        self.deep_view()
    }
}

/// What one step of the poller yields: the action now pending, and the
/// progress to report, in order.
#[derive(Debug, Clone, PartialEq, Eq)]
pub struct Step {
    /// What the driver is to do next.
    pub action: PollAction,
    /// What to report of this step.
    pub events: Vec<ProgressEvent>,
}

/// A poller at the start of its first tick.
pub open spec fn initial_poller(interval_ms: u64, max_ticks: Option<u64>) -> PollerModel {
    PollerModel {
        interval_ms,
        max_ticks,
        state: PollStateModel::Queued,
        awaiting: Awaiting::Authentication,
        first_failure: None,
        ticks: 0,
        halt: None,
    }
}

/// The action that a poller asks for.
pub open spec fn pending_action_of(poller: PollerModel) -> PollAction {
    match poller.awaiting {
        Awaiting::Authentication => PollAction::Authenticate,
        Awaiting::Document => PollAction::Fetch,
        Awaiting::Tick => PollAction::Sleep(poller.interval_ms),
        Awaiting::Nothing => match poller.halt {
            Some(error) => PollAction::Abort(error),
            None => PollAction::Stop,
        },
    }
}

/// The poller after it ended without a verdict. The judgement and the first
/// failure reason stand.
pub open spec fn halted(poller: PollerModel, error: PollError) -> PollerModel {
    PollerModel { awaiting: Awaiting::Nothing, halt: Some(error), ..poller }
}

/// The tick count after one more document, which stops at the largest
/// count.
pub open spec fn next_ticks(ticks: u64) -> u64 {
    if ticks < u64::MAX {
        (ticks + 1) as u64
    } else {
        ticks
    }
}

/// The poller after a tick without a verdict. It pauses, unless the tick
/// ceiling is reached.
pub open spec fn continued(poller: PollerModel) -> PollerModel {
    let counted = PollerModel { ticks: next_ticks(poller.ticks), ..poller };
    if counted.max_ticks matches Some(ceiling) && counted.ticks >= ceiling {
        halted(counted, PollError::TimedOut)
    } else {
        PollerModel { awaiting: Awaiting::Tick, ..counted }
    }
}

/// The first failure reason after a tick: the recorded one stands; where
/// none is recorded, the first rejection of this tick is.
pub open spec fn recorded_failure(prior: Option<Seq<char>>, outcomes: Seq<TestOutcomeModel>) -> Option<
    Seq<char>,
> {
    match prior {
        Some(reason) => Some(reason),
        None => first_rejection(outcomes),
    }
}

/// Whether polling stops after a tick with these outcomes: a failure is
/// recorded, or every test is resolved.
pub open spec fn is_final(register: Option<Seq<char>>, outcomes: Seq<TestOutcomeModel>) -> bool {
    register is Some || count_accepted(outcomes) + count_rejected(outcomes) == outcomes.len()
}

/// The poller after it read a status document, and what it reports.
pub open spec fn observed(poller: PollerModel, document: StatusDocumentModel) -> (
    PollerModel,
    Seq<ProgressEventModel>,
) {
    match document.judgement {
        JudgementModel::CompileError => (
            PollerModel {
                state: PollStateModel::CompileErrorTerminal,
                awaiting: Awaiting::Nothing,
                ticks: next_ticks(poller.ticks),
                ..poller
            },
            Seq::empty(),
        ),
        JudgementModel::Queued => (
            continued(PollerModel { state: PollStateModel::Queued, ..poller }),
            seq![ProgressEventModel::Waiting(document.status_text)],
        ),
        JudgementModel::Compiling => (
            continued(PollerModel { state: PollStateModel::Compiling, ..poller }),
            seq![ProgressEventModel::Waiting(document.status_text)],
        ),
        JudgementModel::Running(outcomes) => {
            let passed = count_accepted(outcomes);
            let failed = count_rejected(outcomes);
            let total = outcomes.len();
            let register = recorded_failure(poller.first_failure, outcomes);
            let progress = ProgressEventModel::Progress {
                resolved: passed + failed,
                total,
                marks: marks_of(outcomes),
            };
            if is_final(register, outcomes) {
                (
                    PollerModel {
                        state: PollStateModel::FinishedTerminal {
                            passed,
                            failed,
                            total,
                            reason: register,
                        },
                        awaiting: Awaiting::Nothing,
                        first_failure: register,
                        ticks: next_ticks(poller.ticks),
                        ..poller
                    },
                    seq![
                        progress,
                        ProgressEventModel::Terminal { passed, failed, total, reason: register },
                    ],
                )
            } else {
                (
                    continued(
                        PollerModel {
                            state: PollStateModel::RunningTests { passed, failed, total },
                            ..poller
                        },
                    ),
                    seq![progress],
                )
            }
        },
    }
}

/// The poller after the answer to its login request.
pub open spec fn after_login(poller: PollerModel, exchange: ExchangeModel) -> PollerModel {
    match login_result_of(exchange) {
        Ok(_) => PollerModel { awaiting: Awaiting::Document, ..poller },
        Err(error) => halted(poller, PollError::Auth(error)),
    }
}

/// The poller after the answer to its request for the status document, and
/// what it reports.
pub open spec fn after_document(poller: PollerModel, exchange: ExchangeModel) -> (
    PollerModel,
    Seq<ProgressEventModel>,
) {
    match exchange {
        ExchangeModel::Failed => (
            halted(poller, PollError::Fetch(FetchError::Transport)),
            Seq::empty(),
        ),
        ExchangeModel::Response { status, body } => if !status_is_success(status) {
            (halted(poller, PollError::Fetch(FetchError::Status(status))), Seq::empty())
        } else {
            match status_document_of(body) {
                Ok(document) => observed(poller, document),
                Err(error) => (halted(poller, PollError::Parse(error)), Seq::empty()),
            }
        },
    }
}

/// One step of the poller: the poller after `event`, and what it reports.
/// A poller that is over stays as it is. A cancellation ends any other
/// poller. An event that the poller does not wait for changes nothing.
pub open spec fn poll_step(poller: PollerModel, event: PollEventModel) -> (
    PollerModel,
    Seq<ProgressEventModel>,
) {
    if poller.awaiting == Awaiting::Nothing {
        (poller, Seq::empty())
    } else {
        match event {
            PollEventModel::Cancel => (halted(poller, PollError::Cancelled), Seq::empty()),
            PollEventModel::Login(exchange) => if poller.awaiting == Awaiting::Authentication {
                (after_login(poller, exchange), Seq::empty())
            } else {
                (poller, Seq::empty())
            },
            PollEventModel::Status(exchange) => if poller.awaiting == Awaiting::Document {
                after_document(poller, exchange)
            } else {
                (poller, Seq::empty())
            },
            PollEventModel::TickElapsed => if poller.awaiting == Awaiting::Tick {
                (PollerModel { awaiting: Awaiting::Authentication, ..poller }, Seq::empty())
            } else {
                (poller, Seq::empty())
            },
        }
    }
}

/// The result that a judgement state holds: that of a finished judgement,
/// none for every other state.
pub open spec fn result_of(state: PollStateModel) -> Option<PollResultModel> {
    match state {
        PollStateModel::FinishedTerminal { passed, failed, total, reason } => Some(
            PollResultModel { passed, failed, total, reason },
        ),
        _ => None,
    }
}

/// What went wrong with a poll, to a person: nothing where the judgement
/// finished, whether or not a test failed.
pub open spec fn error_message_of(poller: PollerModel) -> Option<Seq<char>> {
    match poller.halt {
        Some(error) => Some(poll_message_of(error)),
        None => match poller.state {
            PollStateModel::FinishedTerminal { .. } => None,
            PollStateModel::CompileErrorTerminal => Some(COMPILE_ERROR_MESSAGE@),
            _ => Some(UNJUDGED_MESSAGE@),
        },
    }
}

impl Poller {
    /// A poller at the start of its first tick.
    pub fn start(config: PollConfig) -> (poller: Poller)
        ensures
            poller.deep_view() == initial_poller(config.interval(), config.ceiling()),
    {
        Poller {
            config,
            state: PollState::Queued,
            awaiting: Awaiting::Authentication,
            first_failure: None,
            ticks: 0,
            halt: None,
        }
    }

    /// The action that the poller asks for.
    pub fn pending_action(&self) -> (action: PollAction)
        ensures
            action == pending_action_of(self.deep_view()),
    {
        match self.awaiting {
            Awaiting::Authentication => PollAction::Authenticate,
            Awaiting::Document => PollAction::Fetch,
            Awaiting::Tick => PollAction::Sleep(self.config.interval_ms()),
            Awaiting::Nothing => match self.halt {
                Some(error) => PollAction::Abort(error),
                None => PollAction::Stop,
            },
        }
    }

    /// Tells whether the poll is over.
    pub fn is_over(&self) -> (over: bool)
        ensures
            over == (self.deep_view().awaiting == Awaiting::Nothing),
    {
        match self.awaiting {
            Awaiting::Nothing => true,
            _ => false,
        }
    }

    /// The result of the judgement, once it has finished.
    pub fn result(&self) -> (result: Option<PollResult>)
        ensures
            result.deep_view() == result_of(self.deep_view().state),
    {
        match &self.state {
            PollState::FinishedTerminal { passed, failed, total, reason } => {
                let reason = match reason {
                    Some(text) => Some(text.clone()),
                    None => None,
                };
                Some(PollResult { passed: *passed, failed: *failed, total: *total, reason })
            },
            _ => None,
        }
    }

    /// What went wrong with the poll, if anything did.
    pub fn error_message(&self) -> (message: Option<String>)
        ensures
            message.deep_view() == error_message_of(self.deep_view()),
    {
        match self.halt {
            Some(error) => Some(error.message()),
            None => match &self.state {
                PollState::FinishedTerminal { .. } => None,
                PollState::CompileErrorTerminal => Some(COMPILE_ERROR_MESSAGE.to_owned()),
                _ => Some(UNJUDGED_MESSAGE.to_owned()),
            },
        }
    }

    /// Ends the poll without a verdict.
    fn halt_with(&mut self, error: PollError)
        ensures
            final(self).deep_view() == halted(old(self).deep_view(), error),
    {
        self.awaiting = Awaiting::Nothing;
        self.halt = Some(error);
    }

    /// Counts one more status document.
    fn count_tick(&mut self)
        ensures
            final(self).deep_view() == (PollerModel {
                ticks: next_ticks(old(self).ticks),
                ..old(self).deep_view()
            }),
    {
        if self.ticks < u64::MAX {
            self.ticks = self.ticks + 1;
        }
    }

    /// Goes on after a tick without a verdict.
    fn go_on(&mut self)
        ensures
            final(self).deep_view() == continued(old(self).deep_view()),
    {
        self.count_tick();
        let timed_out = match self.config.max_ticks() {
            Some(ceiling) => self.ticks >= ceiling,
            None => false,
        };
        if timed_out {
            self.halt_with(PollError::TimedOut);
        } else {
            self.awaiting = Awaiting::Tick;
        }
    }

    /// Takes in what a status document says, and reports on it.
    pub fn observe(&mut self, document: StatusDocument) -> (events: Vec<ProgressEvent>)
        ensures
            (final(self).deep_view(), events.deep_view()) == observed(
                old(self).deep_view(),
                document.deep_view(),
            ),
    {
        let mut events: Vec<ProgressEvent> = Vec::new();
        match document.judgement {
            JudgementStatus::CompileError => {
                self.state = PollState::CompileErrorTerminal;
                self.awaiting = Awaiting::Nothing;
                self.count_tick();
            },
            JudgementStatus::Queued => {
                self.state = PollState::Queued;
                self.go_on();
                events.push(ProgressEvent::Waiting(document.status_text));
            },
            JudgementStatus::Compiling => {
                self.state = PollState::Compiling;
                self.go_on();
                events.push(ProgressEvent::Waiting(document.status_text));
            },
            JudgementStatus::Running(outcomes) => {
                let seen = outcomes.as_slice();
                proof {
                    lemma_counts_bounded(seen.deep_view());
                }
                let counts = tally(seen);
                let resolved: usize = counts.passed + counts.failed;
                let register = match &self.first_failure {
                    Some(reason) => Some(reason.clone()),
                    None => first_failure(seen),
                };
                events.push(
                    ProgressEvent::Progress { resolved, total: counts.total, marks: marks(seen) },
                );
                if register.is_some() || resolved == counts.total {
                    let reason = match &register {
                        Some(text) => Some(text.clone()),
                        None => None,
                    };
                    let reported = match &register {
                        Some(text) => Some(text.clone()),
                        None => None,
                    };
                    events.push(
                        ProgressEvent::Terminal {
                            passed: counts.passed,
                            failed: counts.failed,
                            total: counts.total,
                            reason: reported,
                        },
                    );
                    self.state = PollState::FinishedTerminal {
                        passed: counts.passed,
                        failed: counts.failed,
                        total: counts.total,
                        reason,
                    };
                    self.awaiting = Awaiting::Nothing;
                    self.first_failure = register;
                    self.count_tick();
                } else {
                    self.state = PollState::RunningTests {
                        passed: counts.passed,
                        failed: counts.failed,
                        total: counts.total,
                    };
                    self.go_on();
                }
            },
        }
        events
    }

    /// Takes in the answer to the login request.
    fn on_login(&mut self, exchange: &Exchange)
        ensures
            final(self).deep_view() == after_login(old(self).deep_view(), exchange.deep_view()),
    {
        match login_outcome(exchange) {
            Ok(_) => {
                self.awaiting = Awaiting::Document;
            },
            Err(error) => {
                self.halt_with(PollError::Auth(error));
            },
        }
    }

    /// Takes in the answer to the request for the status document.
    fn on_document(&mut self, exchange: Exchange) -> (events: Vec<ProgressEvent>)
        ensures
            (final(self).deep_view(), events.deep_view()) == after_document(
                old(self).deep_view(),
                exchange.deep_view(),
            ),
    {
        match exchange {
            Exchange::Failed => {
                self.halt_with(PollError::Fetch(FetchError::Transport));
                Vec::new()
            },
            Exchange::Response { status, body } => {
                if !is_success(status) {
                    self.halt_with(PollError::Fetch(FetchError::Status(status)));
                    Vec::new()
                } else {
                    match parse_status_document(body.as_str()) {
                        Ok(document) => self.observe(document),
                        Err(error) => {
                            self.halt_with(PollError::Parse(error));
                            Vec::new()
                        },
                    }
                }
            },
        }
    }

    /// One step: takes in `event`, and answers with the action now pending
    /// and the progress to report.
    pub fn step(&mut self, event: PollEvent) -> (step: Step)
        ensures
            (final(self).deep_view(), step.events.deep_view()) == poll_step(
                old(self).deep_view(),
                event.deep_view(),
            ),
            step.action == pending_action_of(final(self).deep_view()),
    {
        let mut events: Vec<ProgressEvent> = Vec::new();
        if !self.is_over() {
            match event {
                PollEvent::Cancel => {
                    self.halt_with(PollError::Cancelled);
                },
                PollEvent::Login(exchange) => {
                    if let Awaiting::Authentication = self.awaiting {
                        self.on_login(&exchange);
                    }
                },
                PollEvent::Status(exchange) => {
                    if let Awaiting::Document = self.awaiting {
                        events = self.on_document(exchange);
                    }
                },
                PollEvent::TickElapsed => {
                    if let Awaiting::Tick = self.awaiting {
                        self.awaiting = Awaiting::Authentication;
                    }
                },
            }
        }
        Step { action: self.pending_action(), events }
    }
}

/// Whether a judgement state is terminal.
pub open spec fn is_terminal(state: PollStateModel) -> bool {
    state is CompileErrorTerminal || state is FinishedTerminal
}

/// What holds of every poller that started with `Poller::start` and was
/// moved by `Poller::step` alone.
pub open spec fn well_formed(poller: PollerModel) -> bool {
    &&& config_is_valid(poller.interval_ms, poller.max_ticks)
    &&& is_terminal(poller.state) ==> poller.awaiting == Awaiting::Nothing && poller.halt is None
    &&& poller.halt is Some ==> poller.awaiting == Awaiting::Nothing
    &&& poller.awaiting == Awaiting::Nothing ==> poller.halt is Some || is_terminal(poller.state)
    &&& poller.first_failure is Some ==> poller.state is FinishedTerminal
    &&& poller.max_ticks matches Some(ceiling) ==> poller.ticks <= ceiling && (poller.awaiting
        != Awaiting::Nothing ==> poller.ticks < ceiling)
    &&& poller.state matches PollStateModel::RunningTests { passed, failed, total } ==> failed == 0
        && passed < total
    &&& poller.state matches PollStateModel::FinishedTerminal { passed, failed, total, reason }
        ==> {
        &&& reason == poller.first_failure
        &&& passed + failed <= total
        &&& reason is None ==> failed == 0 && passed == total
        &&& reason is Some ==> failed >= 1
    }
}

/// A poller starts well formed.
pub proof fn lemma_initial_well_formed(interval_ms: u64, max_ticks: Option<u64>)
    requires
        config_is_valid(interval_ms, max_ticks),
    ensures
        well_formed(initial_poller(interval_ms, max_ticks)),
        pending_action_of(initial_poller(interval_ms, max_ticks)) == PollAction::Authenticate,
{
}

/// A step keeps a poller well formed, and never changes its configuration.
pub proof fn lemma_step_preserves_well_formed(poller: PollerModel, event: PollEventModel)
    requires
        well_formed(poller),
    ensures
        well_formed(poll_step(poller, event).0),
        poll_step(poller, event).0.interval_ms == poller.interval_ms,
        poll_step(poller, event).0.max_ticks == poller.max_ticks,
{
    if let PollEventModel::Status(ExchangeModel::Response { status, body }) = event {
        if let Ok(document) = status_document_of(body) {
            if let JudgementModel::Running(outcomes) = document.judgement {
                lemma_counts_bounded(outcomes);
                lemma_rejections_counted(outcomes);
            }
        }
    }
}

/// A poller that is over stays as it is and reports nothing, whatever it is
/// told.
pub proof fn lemma_over_is_final(poller: PollerModel, event: PollEventModel)
    requires
        poller.awaiting == Awaiting::Nothing,
    ensures
        poll_step(poller, event) == (poller, Seq::<ProgressEventModel>::empty()),
{
}

/// A cancellation ends a poll that is not over, and alters nothing that was
/// seen: the judgement, the first failure reason and the tick count stand.
pub proof fn lemma_cancel_keeps_state(poller: PollerModel)
    requires
        poller.awaiting != Awaiting::Nothing,
    ensures
        poll_step(poller, PollEventModel::Cancel) == (
            PollerModel {
                awaiting: Awaiting::Nothing,
                halt: Some(PollError::Cancelled),
                ..poller
            },
            Seq::<ProgressEventModel>::empty(),
        ),
        pending_action_of(poll_step(poller, PollEventModel::Cancel).0) == PollAction::Abort(
            PollError::Cancelled,
        ),
{
}

/// A poller with a tick ceiling reads no more documents than the ceiling
/// allows: once it has read that many, it is over.
pub proof fn lemma_ceiling_ends_poll(poller: PollerModel, event: PollEventModel)
    requires
        well_formed(poller),
        poller.max_ticks is Some,
    ensures
        poll_step(poller, event).0.ticks <= poller.max_ticks->0,
        poll_step(poller, event).0.ticks == poller.max_ticks->0 ==> poll_step(
            poller,
            event,
        ).0.awaiting == Awaiting::Nothing,
{
    lemma_step_preserves_well_formed(poller, event);
}

/// A step reports the end of the judgement exactly when it moves the poller
/// into the finished state, and then as the last thing it reports.
pub proof fn lemma_terminal_reported(poller: PollerModel, event: PollEventModel)
    requires
        well_formed(poller),
    ensures
        ({
            let (after, events) = poll_step(poller, event);
            let finishes = !(poller.state is FinishedTerminal) && after.state is FinishedTerminal;
            &&& events.len() <= 2
            &&& finishes <==> events.len() == 2
            &&& finishes ==> result_of(after.state) == Some(
                PollResultModel {
                    passed: events[1]->Terminal_passed,
                    failed: events[1]->Terminal_failed,
                    total: events[1]->Terminal_total,
                    reason: events[1]->Terminal_reason,
                },
            ) && events[1] is Terminal && events[0] is Progress
            &&& forall|i: int| 0 <= i < events.len() && events[i] is Terminal ==> finishes && i == 1
        }),
{
}

/// A recorded first failure reason stands: no step replaces or removes it,
/// whatever later documents say.
pub proof fn lemma_first_failure_stands(poller: PollerModel, event: PollEventModel)
    requires
        poller.first_failure is Some,
    ensures
        poll_step(poller, event).0.first_failure == poller.first_failure,
{
}

/// A recorded first failure reason is what a later tick records too,
/// whichever tests it shows as rejected.
pub proof fn lemma_recorded_failure_stands(reason: Seq<char>, outcomes: Seq<TestOutcomeModel>)
    ensures
        recorded_failure(Some(reason), outcomes) == Some(reason),
{
}

/// The poller asks for the status document only in answer to a login that
/// succeeded: every fetch is preceded by an authentication of its own.
pub proof fn lemma_fetch_follows_login(poller: PollerModel, event: PollEventModel)
    requires
        poller.awaiting != Awaiting::Document,
        poll_step(poller, event).0.awaiting == Awaiting::Document,
    ensures
        poller.awaiting == Awaiting::Authentication,
        event matches PollEventModel::Login(exchange) && login_result_of(exchange) is Ok,
{
}

/// A successful login never ends the poll, and neither does a second one
/// right after it: the poller then asks for the status document.
pub proof fn lemma_login_twice(poller: PollerModel, first: ExchangeModel, second: ExchangeModel)
    requires
        poller.awaiting == Awaiting::Authentication,
        login_result_of(first) is Ok,
        login_result_of(second) is Ok,
    ensures
        poll_step(poller, PollEventModel::Login(first)).0 == (PollerModel {
            awaiting: Awaiting::Document,
            ..poller
        }),
        poll_step(
            poll_step(poller, PollEventModel::Login(first)).0,
            PollEventModel::Login(second),
        ).0 == poll_step(poller, PollEventModel::Login(first)).0,
{
}

/// A poller that waits for the status document and gets one whose status
/// field holds the compile error marker, in any case, ends in the compile
/// error state and reports nothing. The test-case region has no part in
/// this.
pub proof fn lemma_compile_error_stops(poller: PollerModel, status: u16, body: Seq<char>)
    requires
        poller.awaiting == Awaiting::Document,
        status_is_success(status),
        selected(body, STATUS_SELECTOR@, TITLE_ATTRIBUTE@) matches Some(fields) && fields.len() > 0
            && is_substring(COMPILE_ERROR_MARKER@, lowercase_of(fields[0].text)),
    ensures
        poll_step(poller, PollEventModel::Status(ExchangeModel::Response { status, body })) == (
            PollerModel {
                state: PollStateModel::CompileErrorTerminal,
                awaiting: Awaiting::Nothing,
                ticks: next_ticks(poller.ticks),
                ..poller
            },
            Seq::<ProgressEventModel>::empty(),
        ),
{
}

/// A poller without a recorded failure that reads test elements of which
/// exactly one, at position `k`, is rejected and all others are accepted,
/// records the reason that the title of the element at `k` gives, and ends
/// with one failure and all others passed.
pub proof fn lemma_single_rejection_recorded(
    poller: PollerModel,
    status_text: Seq<char>,
    elements: Seq<ElementModel>,
    k: int,
)
    requires
        poller.first_failure is None,
        0 <= k < elements.len(),
        outcome_of(elements[k]) is Rejected,
        forall|j: int|
            0 <= j < elements.len() && j != k ==> outcome_of(#[trigger] elements[j]) is Accepted,
    ensures
        ({
            let document = StatusDocumentModel {
                status_text,
                judgement: JudgementModel::Running(outcomes_of(elements)),
            };
            let reason = Some(reason_of(elements[k].attribute));
            let after = observed(poller, document).0;
            &&& after.first_failure == reason
            &&& after.awaiting == Awaiting::Nothing
            &&& after.state == (PollStateModel::FinishedTerminal {
                passed: (elements.len() - 1) as nat,
                failed: 1,
                total: elements.len(),
                reason,
            })
        }),
{
    lemma_single_rejection(elements, k);
}

/// A poller without a recorded failure that waits for the status document
/// and gets one whose status is neither a compile error nor a wait, and
/// whose test-case region holds exactly one rejected element, at position
/// `k`, and accepted elements otherwise, records the reason that the title
/// of the element at `k` gives and ends the poll with it.
pub proof fn lemma_single_rejection_polled(
    poller: PollerModel,
    status: u16,
    body: Seq<char>,
    k: int,
)
    requires
        poller.awaiting == Awaiting::Document,
        poller.first_failure is None,
        status_is_success(status),
        selected(body, STATUS_SELECTOR@, TITLE_ATTRIBUTE@) matches Some(fields) && fields.len() > 0
            && status_kind_of(fields[0].text) == StatusKind::Testing,
        selected(body, TESTS_SELECTOR@, TITLE_ATTRIBUTE@) matches Some(elements) && 0 <= k
            < elements.len() && outcome_of(elements[k]) is Rejected && forall|j: int|
            0 <= j < elements.len() && j != k ==> outcome_of(#[trigger] elements[j]) is Accepted,
    ensures
        ({
            let elements = selected(body, TESTS_SELECTOR@, TITLE_ATTRIBUTE@)->0;
            let reason = Some(reason_of(elements[k].attribute));
            let after = poll_step(
                poller,
                PollEventModel::Status(ExchangeModel::Response { status, body }),
            ).0;
            &&& after.first_failure == reason
            &&& after.awaiting == Awaiting::Nothing
            &&& after.halt == poller.halt
            &&& after.state == (PollStateModel::FinishedTerminal {
                passed: (elements.len() - 1) as nat,
                failed: 1,
                total: elements.len(),
                reason,
            })
        }),
{
    let fields = selected(body, STATUS_SELECTOR@, TITLE_ATTRIBUTE@)->0;
    let elements = selected(body, TESTS_SELECTOR@, TITLE_ATTRIBUTE@)->0;
    lemma_single_rejection_recorded(poller, fields[0].text, elements, k);
}

/// A poller without a recorded failure that reads tests that are all
/// accepted ends with all of them passed and no failure reason.
pub proof fn lemma_all_accepted_finishes(
    poller: PollerModel,
    status_text: Seq<char>,
    outcomes: Seq<TestOutcomeModel>,
)
    requires
        poller.first_failure is None,
        forall|j: int| 0 <= j < outcomes.len() ==> #[trigger] outcomes[j] is Accepted,
    ensures
        ({
            let document = StatusDocumentModel {
                status_text,
                judgement: JudgementModel::Running(outcomes),
            };
            let after = observed(poller, document).0;
            &&& after.first_failure is None
            &&& after.awaiting == Awaiting::Nothing
            &&& after.state == (PollStateModel::FinishedTerminal {
                passed: outcomes.len(),
                failed: 0,
                total: outcomes.len(),
                reason: None,
            })
        }),
{
    lemma_all_accepted_counts(outcomes);
}

} // verus!

use kattis_submit::lifecycle::{
    confirms, submit, Action, Event, Failure, Lifecycle, Report, Stage, Turn,
};
use kattis_submit::poller::{
    Awaiting, FetchError, PollConfig, PollError, PollResult, PollState, ProgressEvent,
};
use kattis_submit::session::AuthError;
use kattis_submit::transport::Exchange;
use kattis_submit::upload::{SubmitError, Submission};
use kattis_submit::outcome::Mark;

fn page(status: &str, tests: &str) -> String {
    format!(
        "<html><body><table><tr><td class=\"status\">{}</td></tr></table>\
         <div class=\"testcases\">{}</div></body></html>",
        status, tests
    )
}

fn ok(body: &str) -> Exchange {
    Exchange::Response { status: 200, body: body.to_string() }
}

fn submission() -> Submission {
    Submission::new(
        "hello".to_string(),
        "Python 3".to_string(),
        None,
        "work/hello.py".to_string(),
    )
}

fn begin(confirmed: bool) -> Lifecycle {
    submit(submission(), Some("hello.py".to_string()), confirmed, PollConfig::unbounded())
}

fn quiet(action: Action) -> Turn {
    Turn { action, reports: vec![] }
}

/// Plays the driver: answers every request with success, and every request
/// for the status document with the next prepared document.
fn drive(lifecycle: &mut Lifecycle, upload: Exchange, documents: &[String]) -> (Vec<Action>, Vec<Report>) {
    let mut actions = Vec::new();
    let mut reports = Vec::new();
    let mut fetched = 0;
    let mut action = lifecycle.next_action();
    loop {
        actions.push(action);
        let event = match action {
            Action::Ask => Event::Answer(Some("y\n".to_string())),
            Action::Authenticate => Event::Login(ok("")),
            Action::Upload => Event::Upload(upload.clone()),
            Action::Fetch => {
                fetched += 1;
                Event::Status(ok(&documents[fetched - 1]))
            }
            Action::Sleep(_) => Event::TickElapsed,
            Action::Finish => return (actions, reports),
        };
        let turn = lifecycle.advance(event);
        reports.extend(turn.reports);
        action = turn.action;
    }
}

#[test]
fn a_submission_begins_with_the_question() {
    let lifecycle = begin(false);
    assert_eq!(lifecycle.stage, Stage::Confirming);
    assert_eq!(lifecycle.next_action(), Action::Ask);
    assert_eq!(lifecycle.file_name, "hello.py");
    assert_eq!(lifecycle.submission, submission());
    assert_eq!(lifecycle.failure, None);
    assert_eq!(lifecycle.poller.awaiting, Awaiting::Authentication);
    assert!(!lifecycle.is_over());
}

#[test]
fn a_submission_confirmed_beforehand_begins_with_the_login() {
    let lifecycle = begin(true);
    assert_eq!(lifecycle.stage, Stage::LoggingIn);
    assert_eq!(lifecycle.next_action(), Action::Authenticate);
}

#[test]
fn a_submission_without_file_name_has_failed() {
    let lifecycle = submit(submission(), None, true, PollConfig::unbounded());
    assert_eq!(lifecycle.stage, Stage::Failed);
    assert_eq!(lifecycle.failure, Some(Failure::NoFileName));
    assert_eq!(lifecycle.next_action(), Action::Finish);
    assert!(lifecycle.is_over());
    assert_eq!(lifecycle.error_message(), Some("failed to get file name".to_string()));
}

#[test]
fn an_answer_that_confirms_leads_to_the_login() {
    for answer in ["y", "Y\n", "  y  "] {
        let mut lifecycle = begin(false);
        assert_eq!(
            lifecycle.advance(Event::Answer(Some(answer.to_string()))),
            quiet(Action::Authenticate)
        );
        assert_eq!(lifecycle.stage, Stage::LoggingIn);
    }
}

#[test]
fn any_other_answer_ends_the_submission_without_error() {
    for answer in ["n", "", "yes", "no\n"] {
        let mut lifecycle = begin(false);
        assert_eq!(
            lifecycle.advance(Event::Answer(Some(answer.to_string()))),
            quiet(Action::Finish)
        );
        assert_eq!(lifecycle.stage, Stage::Declined);
        assert_eq!(lifecycle.failure, None);
        assert_eq!(lifecycle.error_message(), None);
        assert!(lifecycle.is_over());
    }
}

#[test]
fn an_answer_that_cannot_be_read_is_a_failure() {
    let mut lifecycle = begin(false);
    assert_eq!(lifecycle.advance(Event::Answer(None)), quiet(Action::Finish));
    assert_eq!(lifecycle.failure, Some(Failure::InputUnreadable));
    assert_eq!(lifecycle.error_message(), Some("failed to read input".to_string()));
}

#[test]
fn a_failed_login_ends_the_submission_before_the_upload() {
    let mut lifecycle = begin(true);
    let turn =
        lifecycle.advance(Event::Login(Exchange::Response { status: 403, body: String::new() }));
    assert_eq!(turn, quiet(Action::Finish));
    assert_eq!(lifecycle.failure, Some(Failure::Auth(AuthError::Rejected(403))));
    assert_eq!(
        lifecycle.error_message(),
        Some("failed to log in to kattis (http status code 403)".to_string())
    );
}

#[test]
fn a_login_leads_to_the_upload() {
    let mut lifecycle = begin(true);
    assert_eq!(lifecycle.advance(Event::Login(ok(""))), quiet(Action::Upload));
    assert_eq!(lifecycle.stage, Stage::Uploading);
}

#[test]
fn an_upload_that_fails_ends_the_submission() {
    let cases = [
        (Exchange::Failed, SubmitError::Network),
        (Exchange::Response { status: 500, body: "ID: 1".to_string() }, SubmitError::HttpStatus(500)),
        (ok("Problem not found"), SubmitError::ProblemNotFound("hello".to_string())),
        (ok("Thanks."), SubmitError::IdNotFound),
    ];
    for (answer, error) in cases {
        let mut lifecycle = begin(true);
        lifecycle.advance(Event::Login(ok("")));
        assert_eq!(lifecycle.advance(Event::Upload(answer)), quiet(Action::Finish));
        assert_eq!(lifecycle.stage, Stage::Failed);
        assert_eq!(lifecycle.error_message(), Some(error.message()));
        assert_eq!(lifecycle.failure, Some(Failure::Submit(error)));
        assert_eq!(lifecycle.submission.id, None);
    }
}

#[test]
fn an_upload_that_succeeds_records_the_identifier_and_starts_polling() {
    let mut lifecycle = begin(true);
    lifecycle.advance(Event::Login(ok("")));
    let turn = lifecycle.advance(Event::Upload(ok("Submission received. Submission ID: 482913.")));
    assert_eq!(
        turn,
        Turn { action: Action::Authenticate, reports: vec![Report::Submitted("482913".to_string())] }
    );
    assert_eq!(lifecycle.stage, Stage::Polling);
    assert_eq!(lifecycle.submission.id, Some("482913".to_string()));
}

#[test]
fn upload_then_new_compiling_and_three_accepted_tests_end_to_end() {
    let accepted = "<span class=\"accepted\"></span>".repeat(3);
    let documents = vec![page("new", ""), page("compiling", ""), page("Accepted", &accepted)];
    let mut lifecycle = begin(false);
    let (actions, reports) = drive(&mut lifecycle, ok("ID: 482913"), &documents);
    assert_eq!(
        actions,
        vec![
            Action::Ask,
            Action::Authenticate,
            Action::Upload,
            Action::Authenticate,
            Action::Fetch,
            Action::Sleep(1000),
            Action::Authenticate,
            Action::Fetch,
            Action::Sleep(1000),
            Action::Authenticate,
            Action::Fetch,
            Action::Finish,
        ]
    );
    assert_eq!(
        reports,
        vec![
            Report::Submitted("482913".to_string()),
            Report::Progress(ProgressEvent::Waiting("new".to_string())),
            Report::Progress(ProgressEvent::Waiting("compiling".to_string())),
            Report::Progress(ProgressEvent::Progress {
                resolved: 3,
                total: 3,
                marks: vec![Mark::Passed, Mark::Passed, Mark::Passed]
            }),
            Report::Progress(ProgressEvent::Terminal {
                passed: 3,
                failed: 0,
                total: 3,
                reason: None
            }),
        ]
    );
    assert_eq!(lifecycle.stage, Stage::Finished);
    assert_eq!(
        lifecycle.poller.state,
        PollState::FinishedTerminal { passed: 3, failed: 0, total: 3, reason: None }
    );
    assert_eq!(
        lifecycle.poller.result(),
        Some(PollResult { passed: 3, failed: 0, total: 3, reason: None })
    );
    assert_eq!(lifecycle.error_message(), None);
}

#[test]
fn upload_then_a_rejected_test_among_pending_ones_end_to_end() {
    let tests = "<span class=\"accepted\"></span><span class=\"accepted\"></span>\
                 <span class=\"rejected\" title=\"...Wrong Answer\"></span>\
                 <span></span><span></span>";
    let documents = vec![page("Running", tests)];
    let mut lifecycle = begin(true);
    let (actions, reports) = drive(&mut lifecycle, ok("ID: 5"), &documents);
    assert_eq!(
        actions,
        vec![
            Action::Authenticate,
            Action::Upload,
            Action::Authenticate,
            Action::Fetch,
            Action::Finish
        ]
    );
    assert_eq!(reports.len(), 3);
    assert_eq!(lifecycle.stage, Stage::Finished);
    assert_eq!(
        lifecycle.poller.result(),
        Some(PollResult {
            passed: 2,
            failed: 1,
            total: 5,
            reason: Some("wrong answer".to_string())
        })
    );
    assert_eq!(lifecycle.error_message(), None);
}

#[test]
fn a_compile_error_is_a_failure_of_the_submission() {
    let mut lifecycle = begin(true);
    let (_, reports) = drive(&mut lifecycle, ok("ID: 5"), &[page("Compile Error", "")]);
    assert_eq!(reports, vec![Report::Submitted("5".to_string())]);
    assert_eq!(lifecycle.stage, Stage::Failed);
    assert_eq!(lifecycle.failure, Some(Failure::CompileError));
    assert_eq!(lifecycle.error_message(), Some("kattis could not compile your code".to_string()));
}

#[test]
fn a_poll_that_aborts_is_a_failure_of_the_submission() {
    let mut lifecycle = begin(true);
    lifecycle.advance(Event::Login(ok("")));
    lifecycle.advance(Event::Upload(ok("ID: 5")));
    assert_eq!(lifecycle.advance(Event::Login(ok(""))), quiet(Action::Fetch));
    let turn = lifecycle.advance(Event::Status(Exchange::Response {
        status: 502,
        body: String::new(),
    }));
    assert_eq!(turn, quiet(Action::Finish));
    assert_eq!(lifecycle.failure, Some(Failure::Poll(PollError::Fetch(FetchError::Status(502)))));
    assert_eq!(
        lifecycle.error_message(),
        Some("failed to fetch submission progress (http status code 502)".to_string())
    );
}

#[test]
fn a_poll_that_times_out_is_a_failure_of_the_submission() {
    let config = PollConfig::new(10, Some(1)).unwrap();
    let mut lifecycle = submit(submission(), Some("hello.py".to_string()), true, config);
    let (actions, _) = drive(&mut lifecycle, ok("ID: 5"), &[page("New", "")]);
    assert_eq!(actions.last(), Some(&Action::Finish));
    assert_eq!(lifecycle.failure, Some(Failure::Poll(PollError::TimedOut)));
}

#[test]
fn a_cancellation_ends_the_submission_at_any_stage() {
    for turns in 0..5 {
        let mut lifecycle = begin(false);
        let script = [
            Event::Answer(Some("y".to_string())),
            Event::Login(ok("")),
            Event::Upload(ok("ID: 5")),
            Event::Login(ok("")),
        ];
        for event in script.iter().take(turns) {
            lifecycle.advance(event.clone());
        }
        let before = lifecycle.clone();
        assert_eq!(lifecycle.advance(Event::Cancel), quiet(Action::Finish));
        assert_eq!(lifecycle.stage, Stage::Failed);
        assert_eq!(lifecycle.failure, Some(Failure::Cancelled));
        assert_eq!(lifecycle.submission, before.submission);
        assert_eq!(lifecycle.poller, before.poller);
        assert_eq!(lifecycle.error_message(), Some("the submission was cancelled".to_string()));
    }
}

#[test]
fn an_event_that_the_stage_does_not_wait_for_changes_nothing() {
    let mut lifecycle = begin(false);
    let before = lifecycle.clone();
    for event in [
        Event::Login(ok("")),
        Event::Upload(ok("ID: 5")),
        Event::Status(ok(&page("Accepted", ""))),
        Event::TickElapsed,
    ] {
        assert_eq!(lifecycle.advance(event), quiet(Action::Ask));
        assert_eq!(lifecycle, before);
    }

    lifecycle.advance(Event::Answer(Some("y".to_string())));
    lifecycle.advance(Event::Login(ok("")));
    let before = lifecycle.clone();
    for event in [Event::Answer(Some("n".to_string())), Event::Login(ok("")), Event::TickElapsed] {
        assert_eq!(lifecycle.advance(event), quiet(Action::Upload));
        assert_eq!(lifecycle, before);
    }
}

#[test]
fn a_submission_that_is_over_ignores_everything() {
    let mut lifecycle = begin(false);
    lifecycle.advance(Event::Answer(Some("n".to_string())));
    let before = lifecycle.clone();
    for event in [
        Event::Answer(Some("y".to_string())),
        Event::Login(ok("")),
        Event::Upload(ok("ID: 5")),
        Event::Status(ok("")),
        Event::TickElapsed,
        Event::Cancel,
    ] {
        assert_eq!(lifecycle.advance(event), quiet(Action::Finish));
        assert_eq!(lifecycle, before);
    }
}

#[test]
fn an_identifier_is_never_replaced() {
    let mut lifecycle = begin(true);
    lifecycle.submission.id = Some("1".to_string());
    lifecycle.advance(Event::Login(ok("")));
    let turn = lifecycle.advance(Event::Upload(ok("ID: 2")));
    assert_eq!(turn.reports, vec![Report::Submitted("2".to_string())]);
    assert_eq!(lifecycle.submission.id, Some("1".to_string()));
    assert_eq!(lifecycle.stage, Stage::Polling);
}

#[test]
fn confirms_accepts_y_in_any_case_with_whitespace_around() {
    assert!(confirms("y"));
    assert!(confirms("Y"));
    assert!(confirms(" y\n"));
    assert!(confirms("\tY \r\n"));
}

#[test]
fn confirms_rejects_everything_else() {
    assert!(!confirms(""));
    assert!(!confirms("n"));
    assert!(!confirms("yes"));
    assert!(!confirms("y y"));
    assert!(!confirms("\n"));
}

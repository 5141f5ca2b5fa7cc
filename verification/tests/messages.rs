use kattis_submit::judgement::{JudgementStatus, ParseError, StatusDocument};
use kattis_submit::poller::{FetchError, PollConfig, PollError, PollEvent, PollResult, Poller};
use kattis_submit::session::AuthError;
use kattis_submit::text::decimal;
use kattis_submit::transport::Exchange;
use kattis_submit::upload::SubmitError;
use kattis_submit::outcome::TestOutcome;

#[test]
fn decimal_writes_numbers_without_leading_zeros() {
    assert_eq!(decimal(0), "0");
    assert_eq!(decimal(7), "7");
    assert_eq!(decimal(10), "10");
    assert_eq!(decimal(404), "404");
    assert_eq!(decimal(1000), "1000");
    assert_eq!(decimal(u16::MAX), "65535");
}

#[test]
fn decimal_agrees_with_the_standard_library() {
    for n in 0..=u16::MAX {
        assert_eq!(decimal(n), n.to_string());
    }
}

#[test]
fn auth_errors_have_messages() {
    assert_eq!(AuthError::Transport.message(), "failed to reach kattis to log in");
    assert_eq!(
        AuthError::Rejected(403).message(),
        "failed to log in to kattis (http status code 403)"
    );
}

#[test]
fn submit_errors_have_messages() {
    assert_eq!(SubmitError::Network.message(), "failed to send the solution to kattis");
    assert_eq!(
        SubmitError::HttpStatus(500).message(),
        "failed to submit to kattis (http status code 500)"
    );
    assert_eq!(
        SubmitError::ProblemNotFound("hello".to_string()).message(),
        "the problem \"hello\" does not exist"
    );
    assert_eq!(SubmitError::IdNotFound.message(), "something went wrong during submission");
}

#[test]
fn fetch_and_parse_errors_have_messages() {
    assert_eq!(
        FetchError::Transport.message(),
        "failed to read submission progress response from kattis"
    );
    assert_eq!(
        FetchError::Status(502).message(),
        "failed to fetch submission progress (http status code 502)"
    );
    assert_eq!(
        ParseError::StatusMissing.message(),
        "failed to read submission status from kattis"
    );
    assert_eq!(
        ParseError::QueryRejected.message(),
        "failed to query the submission status document"
    );
}

#[test]
fn poll_errors_pass_the_inner_message_on() {
    assert_eq!(
        PollError::Auth(AuthError::Rejected(401)).message(),
        AuthError::Rejected(401).message()
    );
    assert_eq!(
        PollError::Fetch(FetchError::Status(404)).message(),
        FetchError::Status(404).message()
    );
    assert_eq!(
        PollError::Parse(ParseError::StatusMissing).message(),
        ParseError::StatusMissing.message()
    );
    assert_eq!(
        PollError::TimedOut.message(),
        "gave up waiting for kattis to judge the submission"
    );
    assert_eq!(PollError::Cancelled.message(), "stopped waiting for the judgement");
}

fn observed(judgement: JudgementStatus) -> Poller {
    let mut poller = Poller::start(PollConfig::unbounded());
    poller.observe(StatusDocument { status_text: String::new(), judgement });
    poller
}

#[test]
fn a_finished_poll_has_a_result_and_no_error() {
    let poller = observed(JudgementStatus::Running(vec![
        TestOutcome::Accepted,
        TestOutcome::Rejected("wrong answer".to_string()),
    ]));
    assert_eq!(
        poller.result(),
        Some(PollResult {
            passed: 1,
            failed: 1,
            total: 2,
            reason: Some("wrong answer".to_string())
        })
    );
    assert_eq!(poller.error_message(), None);

    let poller = observed(JudgementStatus::Running(vec![TestOutcome::Accepted]));
    assert_eq!(
        poller.result(),
        Some(PollResult { passed: 1, failed: 0, total: 1, reason: None })
    );
    assert_eq!(poller.error_message(), None);
}

#[test]
fn a_compile_error_has_no_result_and_is_an_error() {
    let poller = observed(JudgementStatus::CompileError);
    assert_eq!(poller.result(), None);
    assert_eq!(poller.error_message(), Some("kattis could not compile your code".to_string()));
}

#[test]
fn a_poll_that_goes_on_has_no_result_yet() {
    let poller = Poller::start(PollConfig::unbounded());
    assert_eq!(poller.result(), None);
    assert_eq!(
        poller.error_message(),
        Some("kattis has not judged the submission yet".to_string())
    );
    let poller = observed(JudgementStatus::Running(vec![TestOutcome::Pending]));
    assert_eq!(poller.result(), None);
}

#[test]
fn an_aborted_poll_reports_why() {
    let mut poller = Poller::start(PollConfig::unbounded());
    poller.step(PollEvent::Login(Exchange::Failed));
    assert_eq!(poller.result(), None);
    assert_eq!(poller.error_message(), Some("failed to reach kattis to log in".to_string()));

    let mut poller = observed(JudgementStatus::Compiling);
    poller.step(PollEvent::Cancel);
    assert_eq!(poller.error_message(), Some("stopped waiting for the judgement".to_string()));
}

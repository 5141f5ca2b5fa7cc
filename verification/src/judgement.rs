//! The judgement that a status document carries: how its status text is
//! classified and when its test elements are read.

use crate::document::{select_all, select_first, selected, Element, ElementModel};
use crate::model::ok_view;
use crate::outcome::{
    classify_elements, outcomes_of, TestOutcome, TestOutcomeModel, TITLE_ATTRIBUTE,
};
use crate::text::{contains, is_substring, lowercase_of, to_lowercase};
use vstd::prelude::*;

verus! {

/// Selects the status field of a status document.
pub const STATUS_SELECTOR: &'static str = "td.status";

/// Selects the elements of the test-case region of a status document.
pub const TESTS_SELECTOR: &'static str = ".testcases > span";

/// Status text of a submission that did not compile.
pub const COMPILE_ERROR_MARKER: &'static str = "compile error";

/// Status text of a submission that waits to be judged.
pub const QUEUED_MARKER: &'static str = "new";

/// Status text of a submission that is being compiled.
pub const COMPILING_MARKER: &'static str = "compiling";

/// What the status text of a document says about the submission.
#[derive(Debug, Clone, Copy, PartialEq, Eq, Structural)]
pub enum StatusKind {
    /// The submission did not compile.
    CompileError,
    /// The submission waits to be judged.
    Queued,
    /// The submission is being compiled.
    Compiling,
    /// Anything else: the tests are running or have run.
    Testing,
}

/// The kind of a status text. The text is lowercased first; the markers are
/// looked for in the order compile error, queued, compiling.
pub open spec fn status_kind_of(text: Seq<char>) -> StatusKind {
    let lower = lowercase_of(text);
    if is_substring(COMPILE_ERROR_MARKER@, lower) {
        StatusKind::CompileError
    } else if is_substring(QUEUED_MARKER@, lower) {
        StatusKind::Queued
    } else if is_substring(COMPILING_MARKER@, lower) {
        StatusKind::Compiling
    } else {
        StatusKind::Testing
    }
}

/// Classifies the status text of a document.
pub fn classify_status(text: &str) -> (kind: StatusKind)
    ensures
        kind == status_kind_of(text@),
{
    let lower = to_lowercase(text);
    if contains(lower.as_str(), COMPILE_ERROR_MARKER) {
        StatusKind::CompileError
    } else if contains(lower.as_str(), QUEUED_MARKER) {
        StatusKind::Queued
    } else if contains(lower.as_str(), COMPILING_MARKER) {
        StatusKind::Compiling
    } else {
        StatusKind::Testing
    }
}

/// The parsed state of one status document.
#[derive(Debug, Clone, PartialEq, Eq)]
pub enum JudgementStatus {
    /// Waiting to be judged; no test data yet.
    Queued,
    /// Being compiled; no test data yet.
    Compiling,
    /// Compilation failed; there will be no test data.
    CompileError,
    /// The tests are running or have run: one outcome per test, by position.
    Running(Vec<TestOutcome>),
}

/// The mathematical model of a [`JudgementStatus`].
pub enum JudgementModel {
    Queued,
    Compiling,
    CompileError,
    Running(Seq<TestOutcomeModel>),
}

impl DeepView for JudgementStatus {
    type V = JudgementModel;

    open spec fn deep_view(&self) -> JudgementModel {
        match self {
            JudgementStatus::Queued => JudgementModel::Queued,
            JudgementStatus::Compiling => JudgementModel::Compiling,
            JudgementStatus::CompileError => JudgementModel::CompileError,
            JudgementStatus::Running(tests) => JudgementModel::Running(tests.deep_view()),
        }
    }
}

impl View for JudgementStatus {
    type V = JudgementModel;

    open spec fn view(&self) -> JudgementModel {
        self.deep_view()
    }
}

/// The judgement for a status of the given kind. The test elements count
/// only where the kind is `Testing`.
pub open spec fn judgement_of(kind: StatusKind, tests: Seq<ElementModel>) -> JudgementModel {
    match kind {
        StatusKind::CompileError => JudgementModel::CompileError,
        StatusKind::Queued => JudgementModel::Queued,
        StatusKind::Compiling => JudgementModel::Compiling,
        StatusKind::Testing => JudgementModel::Running(outcomes_of(tests)),
    }
}

/// The judgement for a status of the given kind and the test elements found.
pub fn judge(kind: StatusKind, tests: &[Element]) -> (judgement: JudgementStatus)
    ensures
        judgement.deep_view() == judgement_of(kind, tests.deep_view()),
{
    match kind {
        StatusKind::CompileError => JudgementStatus::CompileError,
        StatusKind::Queued => JudgementStatus::Queued,
        StatusKind::Compiling => JudgementStatus::Compiling,
        StatusKind::Testing => JudgementStatus::Running(classify_elements(tests)),
    }
}

/// What one status document says: its status text as found, and the
/// judgement read from it.
#[derive(Debug, Clone, PartialEq, Eq)]
pub struct StatusDocument {
    /// The text of the status field, unchanged.
    pub status_text: String,
    /// The judgement that the document carries.
    pub judgement: JudgementStatus,
}

/// The mathematical model of a [`StatusDocument`].
pub struct StatusDocumentModel {
    pub status_text: Seq<char>,
    pub judgement: JudgementModel,
}

impl DeepView for StatusDocument {
    type V = StatusDocumentModel;

    open spec fn deep_view(&self) -> StatusDocumentModel {
        StatusDocumentModel {
            status_text: self.status_text@,
            judgement: self.judgement.deep_view(),
        }
    }
}

impl View for StatusDocument {
    type V = StatusDocumentModel;

    open spec fn view(&self) -> StatusDocumentModel {
        self.deep_view()
    }
}

/// Why a status document could not be read.
#[derive(Debug, Clone, Copy, PartialEq, Eq, Structural)]
pub enum ParseError {
    /// The document has no status field.
    StatusMissing,
    /// The document layer refused one of the selectors.
    QueryRejected,
}

/// What a parse error says to a person.
pub open spec fn parse_message_of(error: ParseError) -> Seq<char> {
    match error {
        ParseError::StatusMissing => "failed to read submission status from kattis"@,
        ParseError::QueryRejected => "failed to query the submission status document"@,
    }
}

impl ParseError {
    /// What the error says to a person.
    pub fn message(&self) -> (text: String)
        ensures
            text@ == parse_message_of(*self),
    {
        match self {
            ParseError::StatusMissing => "failed to read submission status from kattis".to_owned(),
            ParseError::QueryRejected => "failed to query the submission status document".to_owned(),
        }
    }
}

/// What a status field and the elements of the test-case region say
/// together.
pub open spec fn interpretation_of(status: ElementModel, tests: Seq<ElementModel>) -> StatusDocumentModel {
    StatusDocumentModel {
        status_text: status.text,
        judgement: judgement_of(status_kind_of(status.text), tests),
    }
}

/// Reads a status field and the elements of the test-case region.
pub fn interpret(status: Element, tests: &[Element]) -> (document: StatusDocument)
    ensures
        document.deep_view() == interpretation_of(status.deep_view(), tests.deep_view()),
{
    let kind = classify_status(status.text.as_str());
    StatusDocument { status_text: status.text, judgement: judge(kind, tests) }
}

/// What a status document says. The test-case region is selected only
/// where the status text is of the kind `Testing`.
pub open spec fn status_document_of(html: Seq<char>) -> Result<StatusDocumentModel, ParseError> {
    match selected(html, STATUS_SELECTOR@, TITLE_ATTRIBUTE@) {
        None => Err(ParseError::QueryRejected),
        Some(fields) => if fields.len() == 0 {
            Err(ParseError::StatusMissing)
        } else if status_kind_of(fields[0].text) == StatusKind::Testing {
            match selected(html, TESTS_SELECTOR@, TITLE_ATTRIBUTE@) {
                None => Err(ParseError::QueryRejected),
                Some(tests) => Ok(interpretation_of(fields[0], tests)),
            }
        } else {
            Ok(interpretation_of(fields[0], Seq::empty()))
        },
    }
}

/// Parses a status document.
pub fn parse_status_document(html: &str) -> (parsed: Result<StatusDocument, ParseError>)
    ensures
        ok_view(parsed) == status_document_of(html@),
{
    let status = match select_first(html, STATUS_SELECTOR, TITLE_ATTRIBUTE) {
        Ok(Some(status)) => status,
        Ok(None) => return Err(ParseError::StatusMissing),
        Err(_) => return Err(ParseError::QueryRejected),
    };
    let kind = classify_status(status.text.as_str());
    let tests: Vec<Element> = match kind {
        StatusKind::Testing => match select_all(html, TESTS_SELECTOR, TITLE_ATTRIBUTE) {
            Ok(tests) => tests,
            Err(_) => return Err(ParseError::QueryRejected),
        },
        _ => Vec::new(),
    };
    Ok(StatusDocument { status_text: status.text, judgement: judge(kind, tests.as_slice()) })
}

/// A status field whose text holds the compile error marker, in any case,
/// reads as a compile error whatever the test elements are.
pub proof fn lemma_compile_error_ignores_tests(status: ElementModel, tests: Seq<ElementModel>)
    requires
        is_substring(COMPILE_ERROR_MARKER@, lowercase_of(status.text)),
    ensures
        status_kind_of(status.text) == StatusKind::CompileError,
        interpretation_of(status, tests) == (StatusDocumentModel {
            status_text: status.text,
            judgement: JudgementModel::CompileError,
        }),
{
}

/// A document whose status field holds the compile error marker, in any
/// case, reads as a compile error, and the test-case region is not selected
/// for it: what that selection would give has no part in the result.
pub proof fn lemma_compile_error_document(html: Seq<char>)
    requires
        selected(html, STATUS_SELECTOR@, TITLE_ATTRIBUTE@) matches Some(fields) && fields.len() > 0
            && is_substring(COMPILE_ERROR_MARKER@, lowercase_of(fields[0].text)),
    ensures
        status_document_of(html) == Ok::<StatusDocumentModel, ParseError>(
            StatusDocumentModel {
                status_text: selected(html, STATUS_SELECTOR@, TITLE_ATTRIBUTE@)->0[0].text,
                judgement: JudgementModel::CompileError,
            },
        ),
{
}

} // verus!

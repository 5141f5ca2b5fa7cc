//! Uploading a solution: the form that carries it, and what the service's
//! answer means.

use crate::pattern::{capture_first_group, first_group};
use crate::text::{contains, decimal, decimal_of, is_substring};
use crate::transport::{is_success, status_is_success, Exchange, ExchangeModel};
use vstd::prelude::*;
use vstd::string::StringExecFns;

verus! {

/// Form field with the problem's name.
pub const PROBLEM_FIELD: &'static str = "problem";

/// Form field with the language of the solution.
pub const LANGUAGE_FIELD: &'static str = "language";

/// Form field with the main class, empty where there is none.
pub const MAIN_CLASS_FIELD: &'static str = "mainclass";

/// Form field with the solution file.
pub const FILE_FIELD: &'static str = "sub_file[]";

/// Media type under which the solution file is sent.
pub const FILE_MEDIA_TYPE: &'static str = "application/octet-stream";

/// Form field with the submission counter.
pub const COUNTER_FIELD: &'static str = "submit_ctr";

/// The value of the submission counter.
pub const COUNTER_VALUE: &'static str = "2";

/// Form field with the submit flag.
pub const SUBMIT_FIELD: &'static str = "submit";

/// Form field with the script flag.
pub const SCRIPT_FIELD: &'static str = "script";

/// The value of a flag that is set.
pub const FLAG_SET: &'static str = "true";

/// What a response holds when the service does not know the problem.
pub const PROBLEM_NOT_FOUND_MARKER: &'static str = "Problem not found";

/// What precedes the submission identifier in a response.
pub const ID_MARKER: &'static str = "ID: ";

/// The submission identifier in a response: the digits after the marker.
pub const ID_PATTERN: &'static str = "ID: (\\d+)";

/// One attempt to solve a problem.
#[derive(Debug, Clone, PartialEq, Eq)]
pub struct Submission {
    /// Name of the problem.
    pub problem: String,
    /// Identifier of the language of the solution.
    pub language: String,
    /// Main class or entry point, where the language has one.
    pub main_class: Option<String>,
    /// Path of the solution file.
    pub file_path: String,
    /// The identifier that the service gave the submission, once known.
    pub id: Option<String>,
}

/// The mathematical model of a [`Submission`].
pub struct SubmissionModel {
    pub problem: Seq<char>,
    pub language: Seq<char>,
    pub main_class: Option<Seq<char>>,
    pub file_path: Seq<char>,
    pub id: Option<Seq<char>>,
}

impl DeepView for Submission {
    type V = SubmissionModel;

    open spec fn deep_view(&self) -> SubmissionModel {
        SubmissionModel {
            problem: self.problem@,
            language: self.language@,
            main_class: self.main_class.deep_view(),
            file_path: self.file_path@,
            id: self.id.deep_view(),
        }
    }
}

impl View for Submission {
    type V = SubmissionModel;

    open spec fn view(&self) -> SubmissionModel {
        self.deep_view()
    }
}

/// One part of the multi-part upload form.
#[derive(Debug, Clone, PartialEq, Eq)]
pub enum FormPart {
    /// A text field.
    Text {
        /// Name of the field.
        name: String,
        /// Value of the field.
        value: String,
    },
    /// An attached file.
    File {
        /// Name of the field.
        name: String,
        /// Name of the file.
        file_name: String,
        /// Media type of the content.
        media_type: String,
        /// The bytes of the file.
        content: Vec<u8>,
    },
}

/// The mathematical model of a [`FormPart`].
pub enum FormPartModel {
    Text { name: Seq<char>, value: Seq<char> },
    File { name: Seq<char>, file_name: Seq<char>, media_type: Seq<char>, content: Seq<u8> },
}

impl DeepView for FormPart {
    type V = FormPartModel;

    open spec fn deep_view(&self) -> FormPartModel {
        match self {
            FormPart::Text { name, value } => FormPartModel::Text { name: name@, value: value@ },
            FormPart::File { name, file_name, media_type, content } => FormPartModel::File {
                name: name@,
                file_name: file_name@,
                media_type: media_type@,
                content: content@,
            },
        }
    }
}

impl View for FormPart {
    type V = FormPartModel;

    open spec fn view(&self) -> FormPartModel {
        self.deep_view()
    }
}

/// Why an upload did not yield a submission identifier.
#[derive(Debug, Clone, PartialEq, Eq)]
pub enum SubmitError {
    /// The request failed, or the solution file could not be read.
    Network,
    /// The service answered with a status outside the success class.
    HttpStatus(u16),
    /// The service does not know the problem of this name.
    ProblemNotFound(String),
    /// The answer names no submission identifier.
    IdNotFound,
}

/// The mathematical model of a [`SubmitError`].
pub enum SubmitErrorModel {
    Network,
    HttpStatus(u16),
    ProblemNotFound(Seq<char>),
    IdNotFound,
}

impl DeepView for SubmitError {
    type V = SubmitErrorModel;

    open spec fn deep_view(&self) -> SubmitErrorModel {
        match self {
            SubmitError::Network => SubmitErrorModel::Network,
            SubmitError::HttpStatus(code) => SubmitErrorModel::HttpStatus(*code),
            SubmitError::ProblemNotFound(name) => SubmitErrorModel::ProblemNotFound(name@),
            SubmitError::IdNotFound => SubmitErrorModel::IdNotFound,
        }
    }
}

impl View for SubmitError {
    type V = SubmitErrorModel;

    open spec fn view(&self) -> SubmitErrorModel {
        self.deep_view()
    }
}

/// A text field of the upload form.
pub open spec fn text_part(name: Seq<char>, value: Seq<char>) -> FormPartModel {
    FormPartModel::Text { name, value }
}

/// The upload form for a submission: the seven parts, in the order in which
/// they are sent.
pub open spec fn upload_form_of(
    submission: SubmissionModel,
    file_name: Seq<char>,
    content: Seq<u8>,
) -> Seq<FormPartModel> {
    seq![
        text_part(PROBLEM_FIELD@, submission.problem),
        text_part(LANGUAGE_FIELD@, submission.language),
        text_part(
            MAIN_CLASS_FIELD@,
            match submission.main_class {
                Some(name) => name,
                None => Seq::empty(),
            },
        ),
        FormPartModel::File {
            name: FILE_FIELD@,
            file_name,
            media_type: FILE_MEDIA_TYPE@,
            content,
        },
        text_part(COUNTER_FIELD@, COUNTER_VALUE@),
        text_part(SUBMIT_FIELD@, FLAG_SET@),
        text_part(SCRIPT_FIELD@, FLAG_SET@),
    ]
}

/// The submission identifier that a response body names: what the
/// identifier pattern captures, in a body that holds the marker at all.
pub open spec fn submission_id_of(body: Seq<char>) -> Option<Seq<char>> {
    if is_substring(ID_MARKER@, body) {
        first_group(ID_PATTERN@, body)
    } else {
        None
    }
}

/// What the submission identifier pattern captured, as the result of an
/// upload.
pub open spec fn id_or_missing(captured: Option<Seq<char>>) -> Result<Seq<char>, SubmitErrorModel> {
    match captured {
        Some(id) => Ok(id),
        None => Err(SubmitErrorModel::IdNotFound),
    }
}

/// What the answer to an upload means for the submission of `problem`. The
/// status is looked at first, then the marker of an unknown problem, then
/// the identifier.
pub open spec fn upload_result_of(exchange: ExchangeModel, problem: Seq<char>) -> Result<
    Seq<char>,
    SubmitErrorModel,
> {
    match exchange {
        ExchangeModel::Failed => Err(SubmitErrorModel::Network),
        ExchangeModel::Response { status, body } => if !status_is_success(status) {
            Err(SubmitErrorModel::HttpStatus(status))
        } else if is_substring(PROBLEM_NOT_FOUND_MARKER@, body) {
            Err(SubmitErrorModel::ProblemNotFound(problem))
        } else {
            id_or_missing(submission_id_of(body))
        },
    }
}

/// The model of the result of an upload.
pub open spec fn upload_view(result: Result<String, SubmitError>) -> Result<Seq<char>, SubmitErrorModel> {
    match result {
        Ok(id) => Ok(id@),
        Err(error) => Err(error.deep_view()),
    }
}

/// The address of a submission's status document.
pub open spec fn submission_url_of(base: Seq<char>, id: Seq<char>) -> Seq<char> {
    base + seq!['/'] + id
}

impl Submission {
    /// A submission that the service has not seen yet.
    pub fn new(problem: String, language: String, main_class: Option<String>, file_path: String) -> (submission: Submission)
        ensures
            submission.deep_view() == (SubmissionModel {
                problem: problem@,
                language: language@,
                main_class: main_class.deep_view(),
                file_path: file_path@,
                id: None,
            }),
    {
        Submission { problem, language, main_class, file_path, id: None }
    }

    /// Records the identifier that the service gave, unless one is recorded
    /// already. Tells whether the identifier was recorded.
    pub fn assign_id(&mut self, id: String) -> (assigned: bool)
        ensures
            assigned == (old(self).id is None),
            final(self).deep_view() == if assigned {
                SubmissionModel { id: Some(id@), ..old(self).deep_view() }
            } else {
                old(self).deep_view()
            },
    {
        if self.id.is_none() {
            self.id = Some(id);
            true
        } else {
            false
        }
    }
}

/// Builds a text field.
fn text_field(name: &str, value: String) -> (part: FormPart)
    ensures
        part.deep_view() == text_part(name@, value@),
{
    FormPart::Text { name: name.to_owned(), value }
}

/// Builds the multi-part form that uploads `content` as the solution file
/// `file_name` of `submission`.
pub fn upload_form(submission: &Submission, file_name: &str, content: Vec<u8>) -> (form: Vec<FormPart>)
    ensures
        form.deep_view() == upload_form_of(submission.deep_view(), file_name@, content@),
{
    let main_class = match &submission.main_class {
        Some(name) => name.clone(),
        None => String::new(),
    };
    let mut form: Vec<FormPart> = Vec::new();
    form.push(text_field(PROBLEM_FIELD, submission.problem.clone()));
    form.push(text_field(LANGUAGE_FIELD, submission.language.clone()));
    form.push(text_field(MAIN_CLASS_FIELD, main_class));
    form.push(
        FormPart::File {
            name: FILE_FIELD.to_owned(),
            file_name: file_name.to_owned(),
            media_type: FILE_MEDIA_TYPE.to_owned(),
            content,
        },
    );
    form.push(text_field(COUNTER_FIELD, COUNTER_VALUE.to_owned()));
    form.push(text_field(SUBMIT_FIELD, FLAG_SET.to_owned()));
    form.push(text_field(SCRIPT_FIELD, FLAG_SET.to_owned()));
    form
}

/// The submission identifier that a response body names, if it names one.
pub fn extract_submission_id(body: &str) -> (id: Option<String>)
    ensures
        id.deep_view() == submission_id_of(body@),
{
    if contains(body, ID_MARKER) {
        capture_first_group(ID_PATTERN, body)
    } else {
        None
    }
}

/// Turns what the identifier pattern captured into the result of an upload.
pub fn id_from_capture(captured: Option<String>) -> (result: Result<String, SubmitError>)
    ensures
        upload_view(result) == id_or_missing(captured.deep_view()),
{
    match captured {
        Some(id) => Ok(id),
        None => Err(SubmitError::IdNotFound),
    }
}

/// Reads the answer to an upload for the problem named `problem`.
pub fn read_upload_response(exchange: &Exchange, problem: &str) -> (result: Result<String, SubmitError>)
    ensures
        upload_view(result) == upload_result_of(exchange.deep_view(), problem@),
{
    match exchange {
        Exchange::Failed => Err(SubmitError::Network),
        Exchange::Response { status, body } => {
            if !is_success(*status) {
                Err(SubmitError::HttpStatus(*status))
            } else if contains(body.as_str(), PROBLEM_NOT_FOUND_MARKER) {
                Err(SubmitError::ProblemNotFound(problem.to_owned()))
            } else {
                id_from_capture(extract_submission_id(body.as_str()))
            }
        },
    }
}

/// The address of the status document of the submission `id`, below the
/// address `base` of all submissions.
pub fn submission_url(base: &str, id: &str) -> (url: String)
    ensures
        url@ == submission_url_of(base@, id@),
{
    proof {
        reveal_strlit("/");
    }
    let mut url = base.to_owned();
    url.append("/");
    url.append(id);
    url
}

/// What an upload error says to a person.
pub open spec fn submit_message_of(error: SubmitErrorModel) -> Seq<char> {
    match error {
        SubmitErrorModel::Network => "failed to send the solution to kattis"@,
        SubmitErrorModel::HttpStatus(code) => "failed to submit to kattis (http status code "@
            + decimal_of(code as nat) + ")"@,
        SubmitErrorModel::ProblemNotFound(name) => "the problem \""@ + name + "\" does not exist"@,
        SubmitErrorModel::IdNotFound => "something went wrong during submission"@,
    }
}

impl SubmitError {
    /// What the error says to a person.
    pub fn message(&self) -> (text: String)
        ensures
            text@ == submit_message_of(self.deep_view()),
    {
        match self {
            SubmitError::Network => "failed to send the solution to kattis".to_owned(),
            SubmitError::HttpStatus(code) => {
                let mut text = "failed to submit to kattis (http status code ".to_owned();
                text.append(decimal(*code).as_str());
                text.append(")");
                text
            },
            SubmitError::ProblemNotFound(name) => {
                let mut text = "the problem \"".to_owned();
                text.append(name.as_str());
                text.append("\" does not exist");
                text
            },
            SubmitError::IdNotFound => "something went wrong during submission".to_owned(),
        }
    }
}

/// A body that does not hold the identifier marker names no submission
/// identifier.
pub proof fn lemma_no_marker_no_id(body: Seq<char>)
    requires
        !is_substring(ID_MARKER@, body),
    ensures
        submission_id_of(body) is None,
{
}

/// A successful answer that holds neither the marker of an unknown problem
/// nor the identifier marker is an upload without an identifier.
pub proof fn lemma_id_missing(status: u16, body: Seq<char>, problem: Seq<char>)
    requires
        status_is_success(status),
        !is_substring(PROBLEM_NOT_FOUND_MARKER@, body),
        !is_substring(ID_MARKER@, body),
    ensures
        upload_result_of(ExchangeModel::Response { status, body }, problem) == Err::<
            Seq<char>,
            SubmitErrorModel,
        >(SubmitErrorModel::IdNotFound),
{
}

/// A successful answer that holds the marker of an unknown problem is an
/// unknown problem, whether or not it names an identifier: the marker is
/// looked for first.
pub proof fn lemma_unknown_problem_first(status: u16, body: Seq<char>, problem: Seq<char>)
    requires
        status_is_success(status),
        is_substring(PROBLEM_NOT_FOUND_MARKER@, body),
    ensures
        upload_result_of(ExchangeModel::Response { status, body }, problem) == Err::<
            Seq<char>,
            SubmitErrorModel,
        >(SubmitErrorModel::ProblemNotFound(problem)),
{
}

/// An upload succeeds exactly when the service answers with a success
/// status, the body does not hold the marker of an unknown problem, and the
/// body names an identifier; the identifier is then the result.
pub proof fn lemma_upload_succeeds(exchange: ExchangeModel, problem: Seq<char>)
    ensures
        upload_result_of(exchange, problem) is Ok <==> (exchange matches ExchangeModel::Response {
            status,
            body,
        } && status_is_success(status) && !is_substring(PROBLEM_NOT_FOUND_MARKER@, body)
            && submission_id_of(body) is Some),
        upload_result_of(exchange, problem) matches Ok(id) ==> Some(id) == submission_id_of(
            exchange->body,
        ),
{
}

} // verus!

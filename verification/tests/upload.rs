use kattis_submit::transport::{is_success, Exchange};
use kattis_submit::upload::{
    extract_submission_id, id_from_capture, read_upload_response, submission_url, upload_form,
    FormPart, SubmitError, Submission,
};

fn text(name: &str, value: &str) -> FormPart {
    FormPart::Text { name: name.to_string(), value: value.to_string() }
}

fn response(status: u16, body: &str) -> Exchange {
    Exchange::Response { status, body: body.to_string() }
}

fn submission(main_class: Option<&str>) -> Submission {
    Submission::new(
        "hello".to_string(),
        "Java".to_string(),
        main_class.map(|m| m.to_string()),
        "solutions/hello/Hello.java".to_string(),
    )
}

#[test]
fn is_success_is_the_2xx_class() {
    assert!(!is_success(0));
    assert!(!is_success(199));
    assert!(is_success(200));
    assert!(is_success(204));
    assert!(is_success(299));
    assert!(!is_success(300));
    assert!(!is_success(404));
    assert!(!is_success(u16::MAX));
}

#[test]
fn a_new_submission_has_no_identifier() {
    let s = submission(Some("Hello"));
    assert_eq!(s.problem, "hello");
    assert_eq!(s.language, "Java");
    assert_eq!(s.main_class, Some("Hello".to_string()));
    assert_eq!(s.file_path, "solutions/hello/Hello.java");
    assert_eq!(s.id, None);
}

#[test]
fn an_identifier_is_assigned_once() {
    let mut s = submission(None);
    assert!(s.assign_id("482913".to_string()));
    assert_eq!(s.id, Some("482913".to_string()));
    assert!(!s.assign_id("7".to_string()));
    assert_eq!(s.id, Some("482913".to_string()));
    assert_eq!(s.problem, "hello");
}

#[test]
fn upload_form_has_the_seven_parts_in_order() {
    let form = upload_form(&submission(Some("Hello")), "Hello.java", vec![1, 2, 3]);
    assert_eq!(
        form,
        vec![
            text("problem", "hello"),
            text("language", "Java"),
            text("mainclass", "Hello"),
            FormPart::File {
                name: "sub_file[]".to_string(),
                file_name: "Hello.java".to_string(),
                media_type: "application/octet-stream".to_string(),
                content: vec![1, 2, 3],
            },
            text("submit_ctr", "2"),
            text("submit", "true"),
            text("script", "true"),
        ]
    );
}

#[test]
fn upload_form_sends_an_empty_main_class_where_there_is_none() {
    let form = upload_form(&submission(None), "hello.py", vec![]);
    assert_eq!(form.len(), 7);
    assert_eq!(form[2], text("mainclass", ""));
    assert_eq!(
        form[3],
        FormPart::File {
            name: "sub_file[]".to_string(),
            file_name: "hello.py".to_string(),
            media_type: "application/octet-stream".to_string(),
            content: vec![],
        }
    );
}

#[test]
fn the_identifier_is_the_first_run_of_digits_after_the_marker() {
    assert_eq!(extract_submission_id("...ID: 482913..."), Some("482913".to_string()));
    assert_eq!(
        extract_submission_id("Submission received. Submission ID: 42. Another ID: 43."),
        Some("42".to_string())
    );
    assert_eq!(extract_submission_id("ID: 007"), Some("007".to_string()));
    assert_eq!(extract_submission_id("ID: x ID: 15x"), Some("15".to_string()));
}

#[test]
fn a_body_without_the_marker_names_no_identifier() {
    assert_eq!(extract_submission_id(""), None);
    assert_eq!(extract_submission_id("482913"), None);
    assert_eq!(extract_submission_id("ID:482913"), None);
    assert_eq!(extract_submission_id("id: 482913"), None);
}

#[test]
fn a_marker_without_digits_names_no_identifier() {
    assert_eq!(extract_submission_id("ID: "), None);
    assert_eq!(extract_submission_id("ID: abc"), None);
    assert_eq!(extract_submission_id("ID:  12"), None);
}

#[test]
fn id_from_capture_maps_nothing_to_the_error() {
    assert_eq!(id_from_capture(Some("12".to_string())), Ok("12".to_string()));
    assert_eq!(id_from_capture(None), Err(SubmitError::IdNotFound));
}

#[test]
fn a_failed_request_is_a_network_error() {
    assert_eq!(read_upload_response(&Exchange::Failed, "hello"), Err(SubmitError::Network));
}

#[test]
fn a_status_outside_2xx_is_an_http_error() {
    assert_eq!(
        read_upload_response(&response(404, "ID: 1"), "hello"),
        Err(SubmitError::HttpStatus(404))
    );
    assert_eq!(
        read_upload_response(&response(500, "Problem not found"), "hello"),
        Err(SubmitError::HttpStatus(500))
    );
    assert_eq!(
        read_upload_response(&response(302, ""), "hello"),
        Err(SubmitError::HttpStatus(302))
    );
}

#[test]
fn an_unknown_problem_is_reported_before_the_identifier_is_looked_for() {
    assert_eq!(
        read_upload_response(&response(200, "Problem not found"), "hello"),
        Err(SubmitError::ProblemNotFound("hello".to_string()))
    );
    assert_eq!(
        read_upload_response(&response(200, "ID: 12. Problem not found. ID: 13"), "nope"),
        Err(SubmitError::ProblemNotFound("nope".to_string()))
    );
}

#[test]
fn the_marker_of_an_unknown_problem_is_case_sensitive() {
    assert_eq!(
        read_upload_response(&response(200, "problem not found ID: 5"), "hello"),
        Ok("5".to_string())
    );
}

#[test]
fn a_successful_answer_without_identifier_is_an_error() {
    assert_eq!(
        read_upload_response(&response(200, "Thank you."), "hello"),
        Err(SubmitError::IdNotFound)
    );
    assert_eq!(read_upload_response(&response(200, ""), "hello"), Err(SubmitError::IdNotFound));
}

#[test]
fn a_successful_answer_with_identifier_yields_it() {
    assert_eq!(
        read_upload_response(&response(200, "Submission received. Submission ID: 482913."), "hello"),
        Ok("482913".to_string())
    );
    assert_eq!(read_upload_response(&response(201, "ID: 9"), "hello"), Ok("9".to_string()));
}

#[test]
fn submission_url_joins_with_a_slash() {
    assert_eq!(
        submission_url("https://open.kattis.com/submissions", "482913"),
        "https://open.kattis.com/submissions/482913"
    );
    assert_eq!(submission_url("", ""), "/");
    assert_eq!(submission_url("base/", "1"), "base//1");
}

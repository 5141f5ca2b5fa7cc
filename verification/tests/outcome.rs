use kattis_submit::document::Element;
use kattis_submit::outcome::{
    classify_element, classify_elements, failure_reason, first_failure, marks, normalise_reason,
    tally, Mark, Tally, TestOutcome,
};

fn element(classes: &[&str], title: Option<&str>) -> Element {
    Element {
        text: String::new(),
        classes: classes.iter().map(|c| c.to_string()).collect(),
        attribute: title.map(|t| t.to_string()),
    }
}

fn rejected(reason: &str) -> TestOutcome {
    TestOutcome::Rejected(reason.to_string())
}

#[test]
fn failure_reason_is_the_trailing_run_trimmed_and_lowercased() {
    assert_eq!(failure_reason(Some("Test case 3/5: Wrong Answer")), "wrong answer");
    assert_eq!(failure_reason(Some("...Wrong Answer")), "wrong answer");
    assert_eq!(failure_reason(Some("Time Limit Exceeded")), "time limit exceeded");
    assert_eq!(failure_reason(Some("x: Run_Time Error 2  ")), "run_time error 2");
}

#[test]
fn failure_reason_defaults_to_unknown() {
    assert_eq!(failure_reason(None), "unknown");
    assert_eq!(failure_reason(Some("")), "unknown");
    assert_eq!(failure_reason(Some("Wrong Answer.")), "unknown");
    assert_eq!(failure_reason(Some("Wrong Answer\n")), "unknown");
}

#[test]
fn failure_reason_of_a_run_of_spaces_is_empty() {
    assert_eq!(failure_reason(Some("failed:   ")), "");
}

#[test]
fn failure_reason_keeps_letters_beyond_ascii() {
    assert_eq!(failure_reason(Some("Test 1: Zeitüberschreitung")), "zeitüberschreitung");
    assert_eq!(failure_reason(Some("Test 1: ÄRGER")), "ärger");
}

#[test]
fn normalise_reason_trims_then_lowercases() {
    assert_eq!(normalise_reason(Some("  Wrong Answer ")), "wrong answer");
    assert_eq!(normalise_reason(Some("\tMemory Limit Exceeded\n")), "memory limit exceeded");
    assert_eq!(normalise_reason(Some("")), "");
    assert_eq!(normalise_reason(None), "unknown");
}

#[test]
fn classify_element_goes_by_class() {
    assert_eq!(classify_element(&element(&["accepted"], None)), TestOutcome::Accepted);
    assert_eq!(
        classify_element(&element(&["rejected"], Some("Test case 2/3: Wrong Answer"))),
        rejected("wrong answer")
    );
    assert_eq!(classify_element(&element(&["rejected"], None)), rejected("unknown"));
    assert_eq!(classify_element(&element(&[], Some("anything"))), TestOutcome::Pending);
    assert_eq!(classify_element(&element(&["running"], None)), TestOutcome::Pending);
}

#[test]
fn classify_element_ignores_the_case_of_the_class() {
    assert_eq!(classify_element(&element(&["Accepted"], None)), TestOutcome::Accepted);
    assert_eq!(classify_element(&element(&["x", "REJECTED"], Some("TLE"))), rejected("tle"));
}

#[test]
fn classify_element_looks_for_accepted_first() {
    assert_eq!(
        classify_element(&element(&["rejected", "accepted"], Some("Wrong Answer"))),
        TestOutcome::Accepted
    );
}

#[test]
fn classify_elements_keeps_positions() {
    let elements = vec![
        element(&["accepted"], None),
        element(&[], None),
        element(&["rejected"], Some("t: Wrong Answer")),
        element(&["accepted"], None),
    ];
    assert_eq!(
        classify_elements(&elements),
        vec![
            TestOutcome::Accepted,
            TestOutcome::Pending,
            rejected("wrong answer"),
            TestOutcome::Accepted
        ]
    );
    assert_eq!(classify_elements(&[]), Vec::<TestOutcome>::new());
}

#[test]
fn tally_counts_each_kind() {
    let outcomes = vec![
        TestOutcome::Accepted,
        rejected("a"),
        TestOutcome::Pending,
        TestOutcome::Accepted,
        rejected("b"),
        TestOutcome::Accepted,
        TestOutcome::Pending,
    ];
    assert_eq!(tally(&outcomes), Tally { passed: 3, failed: 2, total: 7 });
    assert_eq!(tally(&[]), Tally { passed: 0, failed: 0, total: 0 });
}

#[test]
fn first_failure_is_the_first_rejection_in_order() {
    let outcomes =
        vec![TestOutcome::Accepted, TestOutcome::Pending, rejected("first"), rejected("second")];
    assert_eq!(first_failure(&outcomes), Some("first".to_string()));
    assert_eq!(first_failure(&[TestOutcome::Accepted, TestOutcome::Pending]), None);
    assert_eq!(first_failure(&[]), None);
}

#[test]
fn a_single_rejection_among_accepted_tests_is_the_failure() {
    for n in 1..6usize {
        for k in 0..n {
            let elements: Vec<Element> = (0..n)
                .map(|i| {
                    if i == k {
                        element(&["rejected"], Some("Test: Output Limit Exceeded"))
                    } else {
                        element(&["accepted"], None)
                    }
                })
                .collect();
            let outcomes = classify_elements(&elements);
            assert_eq!(first_failure(&outcomes), Some("output limit exceeded".to_string()));
            assert_eq!(tally(&outcomes), Tally { passed: n - 1, failed: 1, total: n });
        }
    }
}

#[test]
fn marks_follow_the_outcomes_by_position() {
    let outcomes =
        vec![TestOutcome::Accepted, TestOutcome::Pending, rejected("x"), TestOutcome::Accepted];
    assert_eq!(marks(&outcomes), vec![Mark::Passed, Mark::Pending, Mark::Failed, Mark::Passed]);
    assert_eq!(marks(&[TestOutcome::Pending]), vec![Mark::Pending]);
    assert_eq!(marks(&[]), Vec::<Mark>::new());
}

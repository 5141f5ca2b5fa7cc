//! The outcome of each test of a status document: how a test element is
//! classified, and how outcomes are counted.

use crate::document::{has_class, Element, ElementModel};
use crate::pattern::{capture_first_group, first_group};
use crate::text::{lowercase_of, to_lowercase, trim, trimmed};
use vstd::prelude::*;

verus! {

/// Class of a test element whose test passed.
pub const ACCEPTED_CLASS: &'static str = "accepted";

/// Class of a test element whose test failed.
pub const REJECTED_CLASS: &'static str = "rejected";

/// Attribute of a test element that describes its failure.
pub const TITLE_ATTRIBUTE: &'static str = "title";

/// The trailing run of word characters and spaces of a title.
pub const REASON_PATTERN: &'static str = "([\\w ]+)$";

/// The reason reported when a title gives none.
pub const UNKNOWN_REASON: &'static str = "unknown";

/// The verdict on one test case.
#[derive(Debug, Clone, PartialEq, Eq)]
pub enum TestOutcome {
    /// The test passed.
    Accepted,
    /// The test failed, for the reason given.
    Rejected(String),
    /// The verdict on the test is not known yet.
    Pending,
}

/// The mathematical model of a [`TestOutcome`].
pub enum TestOutcomeModel {
    Accepted,
    Rejected(Seq<char>),
    Pending,
}

impl DeepView for TestOutcome {
    type V = TestOutcomeModel;

    open spec fn deep_view(&self) -> TestOutcomeModel {
        match self {
            TestOutcome::Accepted => TestOutcomeModel::Accepted,
            TestOutcome::Rejected(reason) => TestOutcomeModel::Rejected(reason@),
            TestOutcome::Pending => TestOutcomeModel::Pending,
        }
    }
}

impl View for TestOutcome {
    type V = TestOutcomeModel;

    open spec fn view(&self) -> TestOutcomeModel {
        self.deep_view()
    }
}

/// The reason that a captured run of a title stands for: the run without
/// surrounding whitespace, in lowercase; the default where nothing was
/// captured.
pub open spec fn reason_from_capture(captured: Option<Seq<char>>) -> Seq<char> {
    match captured {
        Some(run) => lowercase_of(trimmed(run)),
        None => UNKNOWN_REASON@,
    }
}

/// The failure reason that a title attribute stands for.
pub open spec fn reason_of(title: Option<Seq<char>>) -> Seq<char> {
    match title {
        Some(text) => reason_from_capture(first_group(REASON_PATTERN@, text)),
        None => UNKNOWN_REASON@,
    }
}

/// The outcome that an element of the test-case region stands for. The
/// accepted class is looked for first.
pub open spec fn outcome_of(element: ElementModel) -> TestOutcomeModel {
    if has_class(element.classes, ACCEPTED_CLASS@, true) {
        TestOutcomeModel::Accepted
    } else if has_class(element.classes, REJECTED_CLASS@, true) {
        TestOutcomeModel::Rejected(reason_of(element.attribute))
    } else {
        TestOutcomeModel::Pending
    }
}

/// The outcomes of a sequence of test elements, position by position.
pub open spec fn outcomes_of(elements: Seq<ElementModel>) -> Seq<TestOutcomeModel> {
    Seq::new(elements.len(), |i: int| outcome_of(elements[i]))
}

/// Outcomes are positional: there is one for each element, and the outcome
/// at a position is that of the element at the same position.
pub proof fn lemma_outcomes_positional(elements: Seq<ElementModel>)
    ensures
        outcomes_of(elements).len() == elements.len(),
        forall|i: int|
            0 <= i < elements.len() ==> #[trigger] outcomes_of(elements)[i] == outcome_of(
                elements[i],
            ),
{
}

/// Normalises what the reason pattern captured from a title.
pub fn normalise_reason(captured: Option<&str>) -> (reason: String)
    ensures
        reason@ == reason_from_capture(captured.deep_view()),
{
    match captured {
        Some(run) => to_lowercase(trim(run)),
        None => UNKNOWN_REASON.to_owned(),
    }
}

/// The failure reason of a rejected element with the given title attribute.
pub fn failure_reason(title: Option<&str>) -> (reason: String)
    ensures
        reason@ == reason_of(title.deep_view()),
{
    match title {
        Some(text) => {
            let captured = capture_first_group(REASON_PATTERN, text);
            match captured {
                Some(run) => normalise_reason(Some(run.as_str())),
                None => normalise_reason(None),
            }
        },
        None => UNKNOWN_REASON.to_owned(),
    }
}

/// Classifies one element of the test-case region.
pub fn classify_element(element: &Element) -> (outcome: TestOutcome)
    ensures
        outcome.deep_view() == outcome_of(element.deep_view()),
{
    if element.has_class(ACCEPTED_CLASS, true) {
        TestOutcome::Accepted
    } else if element.has_class(REJECTED_CLASS, true) {
        let reason = match &element.attribute {
            Some(title) => failure_reason(Some(title.as_str())),
            None => failure_reason(None),
        };
        TestOutcome::Rejected(reason)
    } else {
        TestOutcome::Pending
    }
}

/// Classifies the elements of the test-case region, position by position.
pub fn classify_elements(elements: &[Element]) -> (outcomes: Vec<TestOutcome>)
    ensures
        outcomes.deep_view() == outcomes_of(elements.deep_view()),
{
    let mut outcomes: Vec<TestOutcome> = Vec::new();
    let mut i: usize = 0;
    while i < elements.len()
        invariant
            i <= elements.len(),
            outcomes.len() == i,
            forall|j: int|
                0 <= j < i ==> (#[trigger] outcomes@[j]).deep_view() == outcome_of(
                    elements@[j].deep_view(),
                ),
        decreases elements.len() - i,
    {
        let outcome = classify_element(&elements[i]);
        outcomes.push(outcome);
        i += 1;
    }
    outcomes
}

/// How many of the outcomes are accepted.
pub open spec fn count_accepted(outcomes: Seq<TestOutcomeModel>) -> nat
    decreases outcomes.len(),
{
    if outcomes.len() == 0 {
        0
    } else {
        count_accepted(outcomes.drop_last()) + if outcomes.last() is Accepted {
            1nat
        } else {
            0nat
        }
    }
}

/// How many of the outcomes are rejected.
pub open spec fn count_rejected(outcomes: Seq<TestOutcomeModel>) -> nat
    decreases outcomes.len(),
{
    if outcomes.len() == 0 {
        0
    } else {
        count_rejected(outcomes.drop_last()) + if outcomes.last() is Rejected {
            1nat
        } else {
            0nat
        }
    }
}

/// The reason of the first rejected outcome in sequence order, if any
/// outcome is rejected.
pub open spec fn first_rejection(outcomes: Seq<TestOutcomeModel>) -> Option<Seq<char>>
    decreases outcomes.len(),
{
    if outcomes.len() == 0 {
        None
    } else {
        match first_rejection(outcomes.drop_last()) {
            Some(reason) => Some(reason),
            None => match outcomes.last() {
                TestOutcomeModel::Rejected(reason) => Some(reason),
                _ => None,
            },
        }
    }
}

/// How a test is shown in a progress report.
#[derive(Debug, Clone, Copy, PartialEq, Eq, Structural)]
pub enum Mark {
    /// An accepted test.
    Passed,
    /// A rejected test.
    Failed,
    /// A test without a verdict yet.
    Pending,
}

/// The mark of one outcome.
pub open spec fn mark_of(outcome: TestOutcomeModel) -> Mark {
    match outcome {
        TestOutcomeModel::Accepted => Mark::Passed,
        TestOutcomeModel::Rejected(_) => Mark::Failed,
        TestOutcomeModel::Pending => Mark::Pending,
    }
}

/// One mark for each outcome, position by position.
pub open spec fn marks_of(outcomes: Seq<TestOutcomeModel>) -> Seq<Mark> {
    Seq::new(outcomes.len(), |i: int| mark_of(outcomes[i]))
}

/// The counts of one sequence of outcomes.
#[derive(Debug, Clone, Copy, PartialEq, Eq, Structural)]
pub struct Tally {
    /// Number of accepted tests.
    pub passed: usize,
    /// Number of rejected tests.
    pub failed: usize,
    /// Number of tests, pending ones included.
    pub total: usize,
}

/// The tally that a sequence of outcomes has.
pub open spec fn is_tally_of(outcomes: Seq<TestOutcomeModel>, tally: Tally) -> bool {
    &&& tally.passed == count_accepted(outcomes)
    &&& tally.failed == count_rejected(outcomes)
    &&& tally.total == outcomes.len()
}

/// Accepted and rejected outcomes together are no more than all outcomes.
pub proof fn lemma_counts_bounded(outcomes: Seq<TestOutcomeModel>)
    ensures
        count_accepted(outcomes) + count_rejected(outcomes) <= outcomes.len(),
    decreases outcomes.len(),
{
    if outcomes.len() > 0 {
        lemma_counts_bounded(outcomes.drop_last());
    }
}

/// Counts the accepted and rejected outcomes.
pub fn tally(outcomes: &[TestOutcome]) -> (tally: Tally)
    ensures
        is_tally_of(outcomes.deep_view(), tally),
{
    let ghost all = outcomes.deep_view();
    let mut passed: usize = 0;
    let mut failed: usize = 0;
    let mut i: usize = 0;
    while i < outcomes.len()
        invariant
            i <= outcomes.len(),
            all == outcomes.deep_view(),
            passed == count_accepted(all.take(i as int)),
            failed == count_rejected(all.take(i as int)),
        decreases outcomes.len() - i,
    {
        proof {
            let next = all.take(i + 1);
            assert(next.drop_last() =~= all.take(i as int));
            lemma_counts_bounded(next);
        }
        match &outcomes[i] {
            TestOutcome::Accepted => {
                passed += 1;
            },
            TestOutcome::Rejected(_) => {
                failed += 1;
            },
            TestOutcome::Pending => {},
        }
        i += 1;
    }
    assert(all.take(i as int) =~= all);
    Tally { passed, failed, total: outcomes.len() }
}

/// The reason of the first rejected outcome, if any outcome is rejected.
pub fn first_failure(outcomes: &[TestOutcome]) -> (reason: Option<String>)
    ensures
        reason.deep_view() == first_rejection(outcomes.deep_view()),
{
    let ghost all = outcomes.deep_view();
    let mut i: usize = 0;
    while i < outcomes.len()
        invariant
            i <= outcomes.len(),
            all == outcomes.deep_view(),
            first_rejection(all.take(i as int)) is None,
        decreases outcomes.len() - i,
    {
        proof {
            let next = all.take(i + 1);
            assert(next.drop_last() =~= all.take(i as int));
        }
        if let TestOutcome::Rejected(reason) = &outcomes[i] {
            let found = reason.clone();
            proof {
                lemma_first_rejection_prefix(all, i + 1);
            }
            return Some(found);
        }
        i += 1;
    }
    assert(all.take(i as int) =~= all);
    None
}

/// A rejection found in a prefix of the outcomes is the first rejection of
/// all of them.
pub proof fn lemma_first_rejection_prefix(outcomes: Seq<TestOutcomeModel>, n: int)
    requires
        0 <= n <= outcomes.len(),
        first_rejection(outcomes.take(n)) is Some,
    ensures
        first_rejection(outcomes) == first_rejection(outcomes.take(n)),
    decreases outcomes.len() - n,
{
    if n < outcomes.len() {
        assert(outcomes.take(n + 1).drop_last() =~= outcomes.take(n));
        lemma_first_rejection_prefix(outcomes, n + 1);
    } else {
        assert(outcomes.take(n) =~= outcomes);
    }
}

/// The marks of the outcomes, position by position.
pub fn marks(outcomes: &[TestOutcome]) -> (shown: Vec<Mark>)
    ensures
        shown@ == marks_of(outcomes.deep_view()),
{
    let mut shown: Vec<Mark> = Vec::new();
    let mut i: usize = 0;
    while i < outcomes.len()
        invariant
            i <= outcomes.len(),
            shown.len() == i,
            forall|j: int| 0 <= j < i ==> #[trigger] shown@[j] == mark_of(outcomes@[j].deep_view()),
        decreases outcomes.len() - i,
    {
        let mark = match &outcomes[i] {
            TestOutcome::Accepted => Mark::Passed,
            TestOutcome::Rejected(_) => Mark::Failed,
            TestOutcome::Pending => Mark::Pending,
        };
        shown.push(mark);
        i += 1;
    }
    shown
}

/// Some outcome is rejected exactly when there is a first rejection.
pub proof fn lemma_rejections_counted(outcomes: Seq<TestOutcomeModel>)
    ensures
        first_rejection(outcomes) is Some <==> count_rejected(outcomes) > 0,
        count_rejected(outcomes) > 0 <==> exists|i: int|
            0 <= i < outcomes.len() && #[trigger] outcomes[i] is Rejected,
    decreases outcomes.len(),
{
    if outcomes.len() > 0 {
        let before = outcomes.drop_last();
        lemma_rejections_counted(before);
        if count_rejected(before) > 0 {
            let i = choose|i: int| 0 <= i < before.len() && #[trigger] before[i] is Rejected;
            assert(outcomes[i] is Rejected);
        } else if !(outcomes.last() is Rejected) {
            assert forall|i: int| 0 <= i < outcomes.len() implies !(#[trigger] outcomes[i]
                is Rejected) by {
                if i < before.len() {
                    assert(before[i] == outcomes[i]);
                }
            }
        }
    }
}

/// The first rejection is the reason of the rejected outcome that no
/// rejected outcome precedes.
pub proof fn lemma_first_rejection_at(outcomes: Seq<TestOutcomeModel>, k: int)
    requires
        0 <= k < outcomes.len(),
        outcomes[k] is Rejected,
        forall|j: int| 0 <= j < k ==> !(#[trigger] outcomes[j] is Rejected),
    ensures
        first_rejection(outcomes) == Some(outcomes[k]->Rejected_0),
    decreases outcomes.len(),
{
    let before = outcomes.drop_last();
    if k == outcomes.len() - 1 {
        lemma_rejections_counted(before);
    } else {
        lemma_first_rejection_at(before, k);
    }
}

/// Where exactly one outcome is rejected and every other one is accepted,
/// the counts are one failure and all others passed.
pub proof fn lemma_single_rejection_counts(outcomes: Seq<TestOutcomeModel>, k: int)
    requires
        0 <= k < outcomes.len(),
        outcomes[k] is Rejected,
        forall|j: int| 0 <= j < outcomes.len() && j != k ==> #[trigger] outcomes[j] is Accepted,
    ensures
        count_rejected(outcomes) == 1,
        count_accepted(outcomes) == outcomes.len() - 1,
    decreases outcomes.len(),
{
    let before = outcomes.drop_last();
    if k == outcomes.len() - 1 {
        lemma_all_accepted_counts(before);
    } else {
        lemma_single_rejection_counts(before, k);
    }
}

/// Where every outcome is accepted, all are counted as passed and none as
/// failed.
pub proof fn lemma_all_accepted_counts(outcomes: Seq<TestOutcomeModel>)
    requires
        forall|j: int| 0 <= j < outcomes.len() ==> #[trigger] outcomes[j] is Accepted,
    ensures
        count_rejected(outcomes) == 0,
        count_accepted(outcomes) == outcomes.len(),
        first_rejection(outcomes) is None,
    decreases outcomes.len(),
{
    if outcomes.len() > 0 {
        let before = outcomes.drop_last();
        lemma_all_accepted_counts(before);
    }
}

/// Of test elements of which exactly one, at position `k`, is rejected and
/// all others are accepted, the first failure reason is the reason that the
/// title of the element at `k` gives, or the default where it has no title.
pub proof fn lemma_single_rejection(elements: Seq<ElementModel>, k: int)
    requires
        0 <= k < elements.len(),
        outcome_of(elements[k]) is Rejected,
        forall|j: int|
            0 <= j < elements.len() && j != k ==> outcome_of(#[trigger] elements[j]) is Accepted,
    ensures
        first_rejection(outcomes_of(elements)) == Some(reason_of(elements[k].attribute)),
        elements[k].attribute is None ==> first_rejection(outcomes_of(elements)) == Some(
            UNKNOWN_REASON@,
        ),
        count_rejected(outcomes_of(elements)) == 1,
        count_accepted(outcomes_of(elements)) == elements.len() - 1,
{
    let outcomes = outcomes_of(elements);
    lemma_first_rejection_at(outcomes, k);
    lemma_single_rejection_counts(outcomes, k);
}

} // verus!

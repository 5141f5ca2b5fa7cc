//! Elements selected from a markup document with the `scraper` crate.

use crate::model::ok_view;
use scraper::{Html, Selector};
use selectors::attr::CaseSensitivity;
use vstd::prelude::*;

verus! {

/// One selected element, as plain values: its text, its class names and the
/// value of the one attribute that the selection asked for.
#[derive(Debug, Clone, PartialEq, Eq)]
pub struct Element {
    /// The text nodes of the element and of everything below it, joined in
    /// the order in which they stand in the element.
    pub text: String,
    /// The class names of the element, each once.
    pub classes: Vec<String>,
    /// The value of the requested attribute, if the element carries it.
    pub attribute: Option<String>,
}

/// The mathematical model of an [`Element`].
pub struct ElementModel {
    pub text: Seq<char>,
    pub classes: Seq<Seq<char>>,
    pub attribute: Option<Seq<char>>,
}

impl DeepView for Element {
    type V = ElementModel;

    open spec fn deep_view(&self) -> ElementModel {
        ElementModel {
            text: self.text@,
            classes: self.classes.deep_view(),
            attribute: self.attribute.deep_view(),
        }
    }
}

impl View for Element {
    type V = ElementModel;

    open spec fn view(&self) -> ElementModel {
        self.deep_view()
    }
}

/// Why a document could not be queried.
#[derive(Debug, Clone, Copy, PartialEq, Eq, Structural)]
pub enum DocumentError {
    /// The selector is not one that the query language accepts.
    InvalidSelector,
}

/// The code point of `c`, with the ASCII capitals mapped to their small
/// letters.
pub open spec fn ascii_folded(c: char) -> int {
    if 'A' <= c <= 'Z' {
        c as int + 32
    } else {
        c as int
    }
}

/// Two names are the same once ASCII letters are compared without regard to
/// case; every other character has to be equal.
pub open spec fn same_ignoring_ascii_case(a: Seq<char>, b: Seq<char>) -> bool {
    &&& a.len() == b.len()
    &&& forall|i: int| 0 <= i < a.len() ==> ascii_folded(#[trigger] a[i]) == ascii_folded(b[i])
}

/// Two names are the same under the chosen case rule.
pub open spec fn names_match(a: Seq<char>, b: Seq<char>, ignore_ascii_case: bool) -> bool {
    if ignore_ascii_case {
        same_ignoring_ascii_case(a, b)
    } else {
        a == b
    }
}

/// Some class of `classes` is `name` under the chosen case rule.
pub open spec fn has_class(classes: Seq<Seq<char>>, name: Seq<char>, ignore_ascii_case: bool) -> bool {
    exists|i: int| 0 <= i < classes.len() && names_match(#[trigger] classes[i], name, ignore_ascii_case)
}

/// The elements of the document `html` that `selector` matches, each with
/// its text, its classes and its value for `attribute`, as `scraper` parses,
/// selects and reads them. They stand in the order in which `Html::select`
/// yields them, which is the order in which the parser made the nodes.
/// `None` when `selector` is not a valid selector.
pub uninterp spec fn selected(html: Seq<char>, selector: Seq<char>, attribute: Seq<char>) -> Option<
    Seq<ElementModel>,
>;

/// Parses `selector` with `Selector::parse` and `html` with
/// `Html::parse_document`, walks `Html::select` and copies from each element
/// what `ElementRef::text`, `Element::classes` and `Element::attr` give.
/// Trusted: the result is named, not described.
#[verifier::external_body]
fn select(html: &str, selector: &str, attribute: &str) -> (found: Option<Vec<Element>>)
    ensures
        found.deep_view() == selected(html@, selector@, attribute@),
{
    let parsed = match Selector::parse(selector) {
        Ok(parsed) => parsed,
        Err(_) => return None,
    };
    let document = Html::parse_document(html);
    let mut found = Vec::new();
    for element in document.select(&parsed) {
        found.push(Element {
            text: element.text().collect(),
            classes: element.value().classes().map(String::from).collect(),
            attribute: element.value().attr(attribute).map(String::from),
        });
    }
    Some(found)
}

/// Compares two names with `CaseSensitivity::AsciiCaseInsensitive.eq` of the
/// `selectors` crate, which is `eq_ignore_ascii_case` on their bytes.
/// Trusted: on the bytes of two strings that is the comparison stated here
/// character by character.
#[verifier::external_body]
fn same_class_name(class: &str, name: &str) -> (same: bool)
    ensures
        same == same_ignoring_ascii_case(class@, name@),
{
    CaseSensitivity::AsciiCaseInsensitive.eq(class.as_bytes(), name.as_bytes())
}

/// All elements of `html` that `selector` matches, in the order in which the
/// document layer yields them.
pub fn select_all(html: &str, selector: &str, attribute: &str) -> (found: Result<
    Vec<Element>,
    DocumentError,
>)
    ensures
        ok_view(found) == match selected(html@, selector@, attribute@) {
            Some(elements) => Ok::<Seq<ElementModel>, DocumentError>(elements),
            None => Err(DocumentError::InvalidSelector),
        },
{
    match select(html, selector, attribute) {
        Some(list) => Ok(list),
        None => Err(DocumentError::InvalidSelector),
    }
}

/// The first element of `html` that `selector` matches, if there is one.
pub fn select_first(html: &str, selector: &str, attribute: &str) -> (found: Result<
    Option<Element>,
    DocumentError,
>)
    ensures
        ok_view(found) == match selected(html@, selector@, attribute@) {
            Some(elements) => Ok::<Option<ElementModel>, DocumentError>(
                if elements.len() > 0 {
                    Some(elements[0])
                } else {
                    None
                },
            ),
            None => Err(DocumentError::InvalidSelector),
        },
{
    match select(html, selector, attribute) {
        Some(list) => {
            let mut list = list;
            if list.len() > 0 {
                let first = list.swap_remove(0);
                Ok(Some(first))
            } else {
                Ok(None)
            }
        },
        None => Err(DocumentError::InvalidSelector),
    }
}

impl Element {
    /// Tells whether the element has the class `name`, with or without
    /// regard to the case of ASCII letters.
    pub fn has_class(&self, name: &str, ignore_ascii_case: bool) -> (found: bool)
        ensures
            found == has_class(self.deep_view().classes, name@, ignore_ascii_case),
    {
        let exact = name.to_owned();
        let mut i: usize = 0;
        while i < self.classes.len()
            invariant
                i <= self.classes.len(),
                exact@ == name@,
                forall|j: int|
                    0 <= j < i ==> !names_match(
                        #[trigger] self.classes.deep_view()[j],
                        name@,
                        ignore_ascii_case,
                    ),
            decreases self.classes.len() - i,
        {
            let same = if ignore_ascii_case {
                same_class_name(self.classes[i].as_str(), name)
            } else {
                self.classes[i] == exact
            };
            assert(self.classes.deep_view()[i as int] == self.classes[i as int]@);
            if same {
                return true;
            }
            i += 1;
        }
        false
    }
}

} // verus!

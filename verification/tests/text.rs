use kattis_submit::text::{chars_of, contains, find_chars, matches_at};

fn chars(s: &str) -> Vec<char> {
    s.chars().collect()
}

#[test]
fn chars_of_keeps_every_character_in_order() {
    assert_eq!(chars_of("aé✓"), vec!['a', 'é', '✓']);
    assert_eq!(chars_of(""), Vec::<char>::new());
}

#[test]
fn matches_at_compares_the_window() {
    let hay = chars("compile error");
    assert!(matches_at(&hay, &chars("compile"), 0));
    assert!(matches_at(&hay, &chars("error"), 8));
    assert!(!matches_at(&hay, &chars("error"), 7));
    assert!(!matches_at(&hay, &chars("error"), 9));
    assert!(!matches_at(&hay, &chars("errors"), 8));
}

#[test]
fn matches_at_accepts_the_empty_needle_up_to_the_end() {
    let hay = chars("abc");
    assert!(matches_at(&hay, &[], 0));
    assert!(matches_at(&hay, &[], 3));
    assert!(!matches_at(&hay, &[], 4));
}

#[test]
fn find_chars_returns_the_first_occurrence() {
    assert_eq!(find_chars(&chars("abcabc"), &chars("bc")), Some(1));
    assert_eq!(find_chars(&chars("abcabc"), &chars("abc")), Some(0));
    assert_eq!(find_chars(&chars("abcabc"), &chars("cab")), Some(2));
    assert_eq!(find_chars(&chars("abcabc"), &chars("abcabc")), Some(0));
    assert_eq!(find_chars(&chars("abcabc"), &chars("cb")), None);
    assert_eq!(find_chars(&chars("abc"), &chars("abcd")), None);
}

#[test]
fn find_chars_finds_the_empty_needle_at_the_start() {
    assert_eq!(find_chars(&chars("abc"), &[]), Some(0));
    assert_eq!(find_chars(&[], &[]), Some(0));
    assert_eq!(find_chars(&[], &chars("a")), None);
}

#[test]
fn contains_agrees_with_the_standard_library() {
    let cases = [
        ("Problem not found", "Problem not found"),
        ("<p>Problem not found</p>", "Problem not found"),
        ("problem not found", "Problem not found"),
        ("Submission received. ID: 42", "ID: "),
        ("Submission received. ID:42", "ID: "),
        ("naïve café", "ïve c"),
        ("", ""),
        ("", "x"),
        ("x", ""),
        ("aaab", "aab"),
    ];
    for (hay, needle) in cases {
        assert_eq!(contains(hay, needle), hay.contains(needle), "{:?} in {:?}", needle, hay);
    }
}

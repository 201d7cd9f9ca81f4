use bpp::note::Note;
use bpp::text::{chars_of, contains, decimal_string, find_in, matches_at, split_first_line};

#[test]
fn contains_finds_parts_only() {
    assert!(contains("milk, eggs", "milk"));
    assert!(contains("milk, eggs", "eggs"));
    assert!(contains("milk, eggs", ", "));
    assert!(contains("milk, eggs", "milk, eggs"));
    assert!(contains("milk, eggs", ""));
    assert!(contains("", ""));
    assert!(!contains("", "a"));
    assert!(!contains("milk", "milk, eggs"));
    assert!(!contains("milk, eggs", "Milk"));
    assert!(!contains("abab", "aba b"));
    assert!(contains("aaab", "aab"));
}

#[test]
fn find_in_gives_the_first_position() {
    let hay = chars_of("abcabc");
    assert_eq!(find_in(&hay, &chars_of("bc")), Some(1));
    assert_eq!(find_in(&hay, &chars_of("abc")), Some(0));
    assert_eq!(find_in(&hay, &chars_of("c")), Some(2));
    assert_eq!(find_in(&hay, &chars_of("")), Some(0));
    assert_eq!(find_in(&hay, &chars_of("cb")), None);
    assert_eq!(find_in(&hay, &chars_of("abcabca")), None);
    assert_eq!(find_in(&chars_of(""), &chars_of("")), Some(0));
}

#[test]
fn matches_at_compares_in_place() {
    let hay = chars_of("abcabc");
    assert!(matches_at(&hay, &chars_of("cab"), 2));
    assert!(!matches_at(&hay, &chars_of("cab"), 1));
    assert!(matches_at(&hay, &chars_of(""), 6));
}

#[test]
fn chars_of_keeps_every_character() {
    assert_eq!(chars_of("aé\n"), vec!['a', 'é', '\n']);
    assert_eq!(chars_of(""), Vec::<char>::new());
}

#[test]
fn split_first_line_splits_at_the_first_break() {
    assert_eq!(
        split_first_line("Groceries\nmilk, eggs"),
        Some(("Groceries".to_string(), "milk, eggs".to_string()))
    );
    assert_eq!(
        split_first_line("a\nb\nc\n"),
        Some(("a".to_string(), "b\nc\n".to_string()))
    );
    assert_eq!(split_first_line("\n"), Some((String::new(), String::new())));
    assert_eq!(split_first_line("\nbody"), Some((String::new(), "body".to_string())));
    assert_eq!(split_first_line("title\n"), Some(("title".to_string(), String::new())));
    assert_eq!(split_first_line("é\nü"), Some(("é".to_string(), "ü".to_string())));
}

#[test]
fn split_first_line_needs_a_break() {
    assert_eq!(split_first_line("only one line"), None);
    assert_eq!(split_first_line(""), None);
}

#[test]
fn split_first_line_agrees_with_split_once() {
    for text in ["", "a", "\n", "a\n", "\na", "a\nb", "a\n\nb", "one\ntwo\nthree"] {
        let expected = text.split_once('\n').map(|(a, b)| (a.to_string(), b.to_string()));
        assert_eq!(split_first_line(text), expected);
    }
}

#[test]
fn decimal_string_writes_numerals() {
    assert_eq!(decimal_string(0), "0");
    assert_eq!(decimal_string(7), "7");
    assert_eq!(decimal_string(10), "10");
    assert_eq!(decimal_string(1234567890), "1234567890");
    assert_eq!(decimal_string(u64::MAX), "18446744073709551615");
    for n in [9u64, 11, 99, 100, 101, 1000, 65535] {
        assert_eq!(decimal_string(n), n.to_string());
    }
}

#[test]
fn note_renders_and_clones() {
    let n = Note { id: "n1".to_string(), title: "Groceries".to_string(), content: "milk, eggs".to_string() };
    assert_eq!(n.render(), "Groceries: milk, eggs");
    assert_eq!(n.clone(), n);
    let empty = Note { id: String::new(), title: String::new(), content: String::new() };
    assert_eq!(empty.render(), ": ");
}

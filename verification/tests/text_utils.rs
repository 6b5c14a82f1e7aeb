use stu_core::text_preview::{drop_control_chars, to_preview_string as normalize_preview};
use stu_core::util::{
    digits, extension_from_file_name, group_strings_to_fit_width, prune_strings_to_fit_width,
    split_str, to_preview_string,
};

#[test]
fn test_digits() {
    assert_eq!(digits(0), 1);
    assert_eq!(digits(1), 1);
    assert_eq!(digits(30), 2);
    assert_eq!(digits(123), 3);
    assert_eq!(digits(9999), 4);
    assert_eq!(digits(10000), 5);
}

#[test]
fn test_extension_from_file_name() {
    assert_eq!(extension_from_file_name("a.txt"), "txt");
    assert_eq!(extension_from_file_name("a.gif.txt"), "txt");
}

#[test]
fn test_extension_without_dot() {
    assert_eq!(extension_from_file_name("makefile"), "makefile");
    assert_eq!(extension_from_file_name("archive."), "");
}

#[test]
fn test_split_str() {
    fn assert(s: &str, sp: &str, expected: Option<(&str, &str, &str)>) {
        let actual = split_str(s, sp);
        assert_eq!(
            actual,
            expected.map(|(a, b, c)| (a.into(), b.into(), c.into()))
        );
    }
    assert("abc", "b", Some(("a", "b", "c")));
    assert("abc", "c", Some(("ab", "c", "")));
    assert("abc", "a", Some(("", "a", "bc")));
    assert("abc", "d", None);
    assert("abc", "abc", Some(("", "abc", "")));
    assert("abcdefg", "cd", Some(("ab", "cd", "efg")));
}

fn with_priorities(words: &[(&str, usize)]) -> Vec<(String, usize)> {
    words.iter().map(|(s, p)| (s.to_string(), *p)).collect()
}

#[test]
fn test_prune_keeps_everything_that_fits() {
    let words = with_priorities(&[("aa", 0), ("bbb", 0), ("cccc", 0)]);
    assert_eq!(
        prune_strings_to_fit_width(&words, 10, ""),
        vec!["aa", "bbb", "cccc"]
    );
    assert_eq!(
        prune_strings_to_fit_width(&words, 9, ""),
        vec!["aa", "bbb", "cccc"]
    );
}

#[test]
fn test_prune_drops_earliest_on_equal_priority() {
    let words = with_priorities(&[("aa", 0), ("bbb", 0), ("cccc", 0)]);
    assert_eq!(prune_strings_to_fit_width(&words, 8, ""), vec!["bbb", "cccc"]);
    assert_eq!(prune_strings_to_fit_width(&words, 5, ""), vec!["cccc"]);
    assert_eq!(prune_strings_to_fit_width(&words, 3, ""), Vec::<String>::new());
}

#[test]
fn test_prune_respects_priorities() {
    let words = with_priorities(&[("ddd", 0), ("bbb", 1), ("ccc", 1), ("aaa", 1), ("eee", 0)]);
    assert_eq!(
        prune_strings_to_fit_width(&words, 10, ""),
        vec!["ddd", "aaa", "eee"]
    );
    let words = with_priorities(&[("ddd", 4), ("bbb", 3), ("ccc", 2), ("aaa", 1), ("eee", 0)]);
    assert_eq!(
        prune_strings_to_fit_width(&words, 10, ""),
        vec!["ccc", "aaa", "eee"]
    );
    let words = with_priorities(&[("ddd", 0), ("bbb", 1), ("ccc", 2), ("aaa", 3), ("eee", 4)]);
    assert_eq!(
        prune_strings_to_fit_width(&words, 10, ""),
        vec!["ddd", "bbb", "ccc"]
    );
}

#[test]
fn test_prune_counts_delimiters() {
    let words = with_priorities(&[("aa", 0), ("bbb", 0), ("cccc", 0)]);
    assert_eq!(
        prune_strings_to_fit_width(&words, 13, "--"),
        vec!["aa", "bbb", "cccc"]
    );
    assert_eq!(prune_strings_to_fit_width(&words, 12, "--"), vec!["bbb", "cccc"]);
    assert_eq!(prune_strings_to_fit_width(&words, 8, "--"), vec!["cccc"]);
    let words = with_priorities(&[("a", 0), ("b", 0), ("c", 0)]);
    assert_eq!(prune_strings_to_fit_width(&words, 7, "     "), vec!["b", "c"]);
}

#[test]
fn test_prune_empty_input() {
    assert_eq!(
        prune_strings_to_fit_width(&[], 10, ""),
        Vec::<String>::new()
    );
}

fn owned(words: &[&str]) -> Vec<String> {
    words.iter().map(|s| s.to_string()).collect()
}

fn grouped(groups: Vec<Vec<String>>) -> Vec<Vec<String>> {
    groups
}

#[test]
fn test_group_empty_input() {
    assert_eq!(
        group_strings_to_fit_width(&[], 10, ""),
        vec![Vec::<String>::new()]
    );
}

#[test]
fn test_group_splits_at_width() {
    let words = owned(&["aaa", "bbb", "ccc", "ddd", "eee"]);
    assert_eq!(
        grouped(group_strings_to_fit_width(&words, 2, "")),
        vec![owned(&["aaa"]), owned(&["bbb"]), owned(&["ccc"]), owned(&["ddd"]), owned(&["eee"])]
    );
    assert_eq!(
        grouped(group_strings_to_fit_width(&words, 6, "")),
        vec![owned(&["aaa", "bbb"]), owned(&["ccc", "ddd"]), owned(&["eee"])]
    );
    assert_eq!(
        grouped(group_strings_to_fit_width(&words, 9, "")),
        vec![owned(&["aaa", "bbb", "ccc"]), owned(&["ddd", "eee"])]
    );
    assert_eq!(
        grouped(group_strings_to_fit_width(&words, 15, "")),
        vec![owned(&["aaa", "bbb", "ccc", "ddd", "eee"])]
    );
}

#[test]
fn test_group_counts_delimiters() {
    let words = owned(&["aaa", "bbb", "ccc", "ddd", "eee"]);
    assert_eq!(
        grouped(group_strings_to_fit_width(&words, 7, "--")),
        vec![owned(&["aaa"]), owned(&["bbb"]), owned(&["ccc"]), owned(&["ddd"]), owned(&["eee"])]
    );
    assert_eq!(
        grouped(group_strings_to_fit_width(&words, 8, "--")),
        vec![owned(&["aaa", "bbb"]), owned(&["ccc", "ddd"]), owned(&["eee"])]
    );
    let words = owned(&["a", "b", "cc", "d", "ee"]);
    assert_eq!(
        grouped(group_strings_to_fit_width(&words, 3, "")),
        vec![owned(&["a", "b"]), owned(&["cc", "d"]), owned(&["ee"])]
    );
    let words = owned(&["a", "b", "c", "d", "e"]);
    assert_eq!(
        grouped(group_strings_to_fit_width(&words, 7, "     ")),
        vec![owned(&["a", "b"]), owned(&["c", "d"]), owned(&["e"])]
    );
}

#[test]
fn test_to_preview_string_decodes_ascii() {
    assert_eq!(to_preview_string(b"hello"), "hello");
    assert_eq!(to_preview_string(b""), "");
}

#[test]
fn test_to_preview_string_replaces_invalid_bytes() {
    assert_eq!(to_preview_string(&[0xff, 0xfe]), "\u{FFFD}\u{FFFD}");
}

#[test]
fn test_preview_normalization_expands_tabs() {
    assert_eq!(normalize_preview(b"a\tb"), "a    b");
}

#[test]
fn test_preview_normalization_trims_trailing_newlines() {
    assert_eq!(normalize_preview(b"one\ntwo\n"), "one\ntwo");
    assert_eq!(normalize_preview(b"one\ntwo \t\n\n"), "one\ntwo");
    // without a final newline nothing is trimmed
    assert_eq!(normalize_preview(b"one\ntwo "), "one\ntwo ");
}

#[test]
fn test_drop_control_chars() {
    assert_eq!(drop_control_chars("a\u{7}b\u{1b}[0m"), "ab[0m");
    assert_eq!(drop_control_chars("plain"), "plain");
}

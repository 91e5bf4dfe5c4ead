use gnome_search_providers_jetbrains::fs::RecentFileSystemItem;
use gnome_search_providers_jetbrains::item::AppLaunchItem;
use gnome_search_providers_jetbrains::matching::{
    find_matching_items, score_bytes, score_text, Score, ScoreMatchable,
};

fn do_match<'a>(items: &'a [(&'a str, AppLaunchItem)], terms: &[&str]) -> Vec<&'a str> {
    find_matching_items(items.iter().map(|(s, p)| (*s, p)).collect(), terms)
}

fn do_match_fs<'a>(items: &'a [(&'a str, RecentFileSystemItem)], terms: &[&str]) -> Vec<&'a str> {
    find_matching_items(items.iter().map(|(s, p)| (*s, p)).collect(), terms)
}

fn item(name: &str, uri: &str) -> AppLaunchItem {
    AppLaunchItem {
        name: name.to_string(),
        uri: uri.to_string(),
    }
}

fn fs_item(name: &str, path: &str) -> RecentFileSystemItem {
    RecentFileSystemItem {
        name: name.to_string(),
        path: path.to_string(),
    }
}

fn value(score: Score) -> f64 {
    score.whole() as f64 + score.numerator() as f64 / score.denominator() as f64
}

#[test]
fn app_matches_something() {
    let items = vec![("foo", item("mdcat", "/home/foo/dev/mdcat"))];
    assert_eq!(do_match(&items, &["mdcat"]), ["foo"]);
}

/// Regression test for https://github.com/swsnr/gnome-search-providers-jetbrains/issues/7
#[test]
fn do_not_find_undesired_items() {
    let items = vec![
        (
            "foo-1",
            item(
                "ui-pattern-library",
                "/home/foo/dev/something/ui-pattern-library",
            ),
        ),
        (
            "foo-2",
            item("dauntless-builder", "/home/foo/dev/dauntless-builder"),
        ),
        ("foo-3", item("typo3-ssr", "/home/foo/dev/something/typo3-ssr")),
    ];
    assert!(do_match(&items, &["flutter_test_app"]).is_empty());
}

#[test]
fn app_ignore_case_of_name() {
    let items = vec![("foo", item("mdCat", "/home/foo/dev/foo"))];
    assert_eq!(do_match(&items, &["Mdcat"]), ["foo"]);
}

#[test]
fn app_ignore_case_of_path() {
    let items = vec![("foo", item("bar", "/home/foo/dev/mdcaT"))];
    assert_eq!(do_match(&items, &["Mdcat"]), ["foo"]);
}

#[test]
fn app_matches_in_name_rank_higher() {
    let items = vec![
        // This matches foo as well because of /home/foo
        ("1", item("bar", "/home/foo/dev/bar")),
        ("2", item("foo", "/home/foo/dev/foo")),
    ];
    assert_eq!(do_match(&items, &["foo"]), ["2", "1"]);
}

#[test]
fn app_matches_at_end_of_path_rank_higher() {
    let items = vec![
        // This matches foo as well because of /home/foo
        ("1", item("p1", "/home/foo/dev/bar")),
        ("2", item("p1", "/home/foo/dev/foo")),
    ];
    assert_eq!(do_match(&items, &["foo"]), ["2", "1"]);
}

#[test]
fn fs_matches_something() {
    let projects = vec![("foo", fs_item("mdcat", "/home/foo/dev/mdcat"))];
    assert_eq!(do_match_fs(&projects, &["mdcat"]), ["foo"]);
}

/// Regression test for https://github.com/lunaryorn/gnome-search-providers-jetbrains/issues/7
#[test]
fn do_not_find_undesired_projects() {
    let projects = vec![
        (
            "foo-1",
            fs_item(
                "ui-pattern-library",
                "/home/foo/dev/something/ui-pattern-library",
            ),
        ),
        (
            "foo-2",
            fs_item("dauntless-builder", "/home/foo/dev/dauntless-builder"),
        ),
        (
            "foo-3",
            fs_item("typo3-ssr", "/home/foo/dev/something/typo3-ssr"),
        ),
    ];
    assert!(do_match_fs(&projects, &["flutter_test_app"]).is_empty());
}

#[test]
fn fs_ignore_case_of_name() {
    let projects = vec![("foo", fs_item("mdCat", "/home/foo/dev/foo"))];
    assert_eq!(do_match_fs(&projects, &["Mdcat"]), ["foo"]);
}

#[test]
fn fs_ignore_case_of_path() {
    let projects = vec![("foo", fs_item("bar", "/home/foo/dev/mdcaT"))];
    assert_eq!(do_match_fs(&projects, &["Mdcat"]), ["foo"]);
}

#[test]
fn fs_matches_in_name_rank_higher() {
    let projects = vec![
        // This matches foo as well because of /home/foo
        ("1", fs_item("bar", "/home/foo/dev/bar")),
        ("2", fs_item("foo", "/home/foo/dev/foo")),
    ];
    assert_eq!(do_match_fs(&projects, &["foo"]), ["2", "1"]);
}

#[test]
fn fs_matches_at_end_of_path_rank_higher() {
    let projects = vec![
        // This matches foo as well because of /home/foo
        ("1", fs_item("p1", "/home/foo/dev/bar")),
        ("2", fs_item("p1", "/home/foo/dev/foo")),
    ];
    assert_eq!(do_match_fs(&projects, &["foo"]), ["2", "1"]);
}

#[test]
fn name_adds_ten_for_each_term() {
    // Neither term stands in the target, so the name alone gives the score.
    let score = item("mdcat viewer", "/opt/x").match_score(&["mdcat", "view"]);
    assert_eq!(score.whole(), 20);
    assert_eq!(score.numerator(), 0);
    assert_eq!(value(score), 20.0);
}

#[test]
fn name_adds_nothing_unless_every_term_matches() {
    let score = item("mdcat", "/opt/x").match_score(&["mdcat", "view"]);
    assert_eq!(score.whole(), 0);
    assert_eq!(score.numerator(), 0);
    assert!(!score.is_match());
}

#[test]
fn target_adds_relative_position_of_last_match() {
    // "dev" stands at index 10 of the 17 bytes of the target, and only there.
    let score = item("p1", "/home/foo/dev/bar").match_score(&["dev"]);
    assert_eq!(score.whole(), 0);
    assert_eq!(score.numerator(), 10);
    assert_eq!(score.denominator(), 17);
    assert!(score.is_match());
    // "foo" stands at index 6 and at index 14: the last occurrence counts.
    let score = item("p1", "/home/foo/dev/foo").match_score(&["foo"]);
    assert_eq!(score.numerator(), 14);
    assert_eq!(score.denominator(), 17);
}

#[test]
fn target_offsets_add_up_over_terms() {
    // "home" at 1, "dev" at 10, "bar" at 14: 25 / 17 = 1 + 8 / 17.
    let score = item("p1", "/home/foo/dev/bar").match_score(&["home", "dev", "bar"]);
    assert_eq!(score.whole(), 1);
    assert_eq!(score.numerator(), 8);
    assert_eq!(score.denominator(), 17);
    assert!((value(score) - 25.0 / 17.0).abs() < 1e-12);
}

#[test]
fn target_adds_nothing_unless_every_term_matches() {
    let score = item("p1", "/home/foo/dev/bar").match_score(&["dev", "qux"]);
    assert!(!score.is_match());
    assert_eq!(value(score), 0.0);
}

#[test]
fn name_and_target_add_up() {
    // Name: 10.  Target: "foo" last at index 14 of 17.
    let score = item("foo", "/home/foo/dev/foo").match_score(&["foo"]);
    assert_eq!(score.whole(), 10);
    assert_eq!(score.numerator(), 14);
    assert_eq!(score.denominator(), 17);
}

#[test]
fn match_at_start_of_target_alone_is_no_match() {
    // The only occurrence stands at index 0, which adds 0 / 3.
    let score = item("p1", "foo").match_score(&["foo"]);
    assert!(!score.is_match());
}

#[test]
fn term_absent_from_name_and_target_scores_zero() {
    let score = item("mdcat", "/home/foo/dev/mdcat").match_score(&["mdcat", "absent"]);
    assert_eq!(score.whole(), 0);
    assert_eq!(score.numerator(), 0);
    assert!(!score.is_match());
    let items = vec![("a", item("mdcat", "/home/foo/dev/mdcat"))];
    assert!(do_match(&items, &["mdcat", "absent"]).is_empty());
}

#[test]
fn no_terms_match_nothing() {
    let score = item("mdcat", "/home/foo/dev/mdcat").match_score(&[]);
    assert!(!score.is_match());
}

#[test]
fn empty_target_scores_by_name_alone() {
    let score = item("mdcat", "").match_score(&["mdcat"]);
    assert_eq!(score.whole(), 10);
    assert_eq!(score.numerator(), 0);
    assert_eq!(score.denominator(), 1);
}

#[test]
fn text_is_compared_by_its_lower_case_form() {
    let score = item("\u{c4}PFEL\u{d6}L", "/\u{d6}L").match_score(&["\u{e4}pfel", "\u{f6}l"]);
    // Name: 20.  Target: "/öl" has 4 bytes and "öl" stands at index 1; "äpfel" is missing.
    assert_eq!(score.whole(), 20);
    assert_eq!(score.numerator(), 0);
    let score = item("x", "/\u{d6}L").match_score(&["\u{f6}L"]);
    assert_eq!(score.whole(), 0);
    assert_eq!(score.numerator(), 1);
    assert_eq!(score.denominator(), 4);
}

#[test]
fn ranking_keeps_input_order_among_equal_scores() {
    let items = vec![
        ("b", item("same", "/x/same")),
        ("a", item("same", "/x/same")),
        ("c", item("same", "/y/same")),
    ];
    assert_eq!(do_match(&items, &["same"]), ["b", "a", "c"]);
}

#[test]
fn ranking_compares_fractions_exactly() {
    // 1/3 < 2/5 < 3/7 < 1/2
    let items = vec![
        ("third", item("-", "aba")),
        ("half", item("-", "ab")),
        ("two-fifths", item("-", "aabaa")),
        ("three-sevenths", item("-", "aaabaaa")),
    ];
    assert_eq!(
        do_match(&items, &["b"]),
        ["half", "three-sevenths", "two-fifths", "third"]
    );
}

#[test]
fn ranking_is_stable_under_input_order() {
    let forward = vec![
        ("1", item("bar", "/home/foo/dev/bar")),
        ("2", item("foo", "/home/foo/dev/foo")),
        ("3", item("baz", "/home/baz")),
        ("4", item("p", "/srv/foo")),
    ];
    let backward = vec![
        ("4", item("p", "/srv/foo")),
        ("3", item("baz", "/home/baz")),
        ("2", item("foo", "/home/foo/dev/foo")),
        ("1", item("bar", "/home/foo/dev/bar")),
    ];
    // Scores: 1 -> 6/17, 2 -> 10 + 14/17, 3 -> 0, 4 -> 5/8.
    assert_eq!(do_match(&forward, &["foo"]), ["2", "4", "1"]);
    assert_eq!(do_match(&backward, &["foo"]), ["2", "4", "1"]);
}

#[test]
fn scores_compare_by_value() {
    let half = Score::new(0, 1, 2);
    let two_quarters = Score::new(0, 2, 4);
    let third = Score::new(0, 1, 3);
    let one = Score::new(1, 0, 1);
    assert!(third.less_than(&half));
    assert!(!half.less_than(&third));
    assert!(!half.less_than(&two_quarters));
    assert!(!two_quarters.less_than(&half));
    assert!(half.less_than(&one));
    assert!(!one.less_than(&half));
    assert!(!Score::zero().is_match());
    assert!(Score::zero().less_than(&third));
    let large = Score::new(u128::MAX, u64::MAX - 1, u64::MAX);
    let larger = Score::new(u128::MAX, u64::MAX - 2, u64::MAX - 1);
    assert!(large.less_than(&larger) != larger.less_than(&large));
}

#[test]
fn bytes_are_scored_as_they_are() {
    let terms = vec![b"foo".to_vec()];
    let score = score_bytes(b"foo", b"/home/foo/dev/foo", &terms);
    assert_eq!(
        (score.whole(), score.numerator(), score.denominator()),
        (10, 14, 17)
    );
    // No text is put into lower case here.
    let score = score_bytes(b"Foo", b"/home/FOO/dev/foo", &terms);
    assert_eq!(
        (score.whole(), score.numerator(), score.denominator()),
        (0, 14, 17)
    );
    let score = score_bytes(b"Foo", b"/home/foo/dev/Foo", &terms);
    assert_eq!(
        (score.whole(), score.numerator(), score.denominator()),
        (0, 6, 17)
    );
    let score = score_bytes(b"foo", b"foo", &Vec::new());
    assert!(!score.is_match());
}

#[test]
fn offsets_may_exceed_the_length() {
    // Three terms at index 3 of 4 bytes: 9 / 4 = 2 + 1 / 4.
    let terms = vec![b"d".to_vec(), b"d".to_vec(), b"d".to_vec()];
    let score = score_bytes(b"", b"abcd", &terms);
    assert_eq!(
        (score.whole(), score.numerator(), score.denominator()),
        (2, 1, 4)
    );
    let score = score_bytes(b"d", b"abcd", &terms);
    assert_eq!(
        (score.whole(), score.numerator(), score.denominator()),
        (32, 1, 4)
    );
}

#[test]
fn text_is_scored_in_lower_case() {
    let score = score_text("Foo", "/home/FOO/dev/foo", &["fOO"]);
    assert_eq!(
        (score.whole(), score.numerator(), score.denominator()),
        (10, 14, 17)
    );
}

use mosaic::exclusions::parse_exclusions;
use mosaic::exclusions::split_lines;
use mosaic::filter::RepoSummary;
use mosaic::filter::filter_repositories;
use mosaic::strutil::short_name;
use mosaic::strutil::str_eq;

fn summary(id: &str, name_with_owner: &str, is_fork: bool, is_archived: bool) -> RepoSummary {
    let short = name_with_owner.split('/').nth(1).unwrap_or(name_with_owner);
    RepoSummary {
        id: id.to_string(),
        name: short.to_string(),
        name_with_owner: name_with_owner.to_string(),
        description: Some(format!("repository {}", name_with_owner)),
        url: format!("https://example.test/{}", name_with_owner),
        is_fork,
        is_archived,
    }
}

#[test]
fn lines_split_on_newlines_and_strip_carriage_returns() {
    let lines = split_lines("a\r\nb\nc");
    assert_eq!(lines, vec![String::from("a"), String::from("b"), String::from("c")]);
}

#[test]
fn a_bare_carriage_return_on_the_final_line_is_kept_verbatim() {
    // Only a `\r` that stands immediately before a `\n` belongs to the line
    // ending; a final unterminated line keeps its `\r`.
    let lines = split_lines("a\r\nb\r");
    assert_eq!(lines, vec![String::from("a"), String::from("b\r")]);
    let list = parse_exclusions("foo\r");
    assert_eq!(list.items, vec![String::from("foo\r")]);
    assert!(list.contains_key("foo\r"));
    assert!(!list.contains_key("foo"));
}

#[test]
fn trailing_newline_adds_no_empty_line() {
    let lines = split_lines("a\nb\n");
    assert_eq!(lines, vec![String::from("a"), String::from("b")]);
    let lines = split_lines("");
    assert!(lines.is_empty());
}

#[test]
fn interior_empty_lines_are_kept_by_the_splitter() {
    let lines = split_lines("a\n\nb");
    assert_eq!(lines, vec![String::from("a"), String::from(""), String::from("b")]);
}

#[test]
fn exclusions_drop_empty_lines_and_keep_comment_lines_verbatim() {
    let list = parse_exclusions("repo-a\n\n# a comment\nluxass/repo-b\n");
    assert_eq!(
        list.items,
        vec![
            String::from("repo-a"),
            String::from("# a comment"),
            String::from("luxass/repo-b"),
        ]
    );
    assert!(list.contains_key("# a comment"));
    assert!(!list.contains_key(""));
}

#[test]
fn short_name_is_what_follows_the_first_slash() {
    assert_eq!(short_name("luxass/mosaic"), "mosaic");
    assert_eq!(short_name("plain"), "plain");
}

#[test]
fn str_eq_compares_character_for_character() {
    assert!(str_eq("abc", "abc"));
    assert!(!str_eq("abc", "abd"));
    assert!(!str_eq("abc", "ab"));
    assert!(str_eq("", ""));
}

#[test]
fn excluded_names_never_pass_the_filter() {
    let excluded = parse_exclusions("luxass/skipped\nby-short-name\n");
    let candidates = vec![
        summary("1", "luxass/kept", false, false),
        summary("2", "luxass/skipped", false, false),
        summary("3", "luxass/by-short-name", false, false),
    ];
    let out = filter_repositories(&candidates, &excluded);
    assert_eq!(out.len(), 1);
    assert_eq!(out[0].name_with_owner, "luxass/kept");
}

#[test]
fn excluded_names_are_dropped_whatever_their_flags() {
    let excluded = parse_exclusions("luxass/skipped\n");
    let candidates = vec![
        summary("1", "luxass/skipped", false, false),
        summary("2", "luxass/skipped", true, false),
        summary("3", "luxass/skipped", false, true),
    ];
    let out = filter_repositories(&candidates, &excluded);
    assert!(out.is_empty());
}

#[test]
fn forks_and_archived_repositories_are_dropped_without_exclusions() {
    let excluded = parse_exclusions("");
    let candidates = vec![
        summary("1", "luxass/a-fork", true, false),
        summary("2", "luxass/archived", false, true),
        summary("3", "luxass/plain", false, false),
    ];
    let out = filter_repositories(&candidates, &excluded);
    assert_eq!(out.len(), 1);
    assert_eq!(out[0].name_with_owner, "luxass/plain");
}

#[test]
fn order_is_preserved_and_duplicates_pass_through() {
    let excluded = parse_exclusions("");
    let candidates = vec![
        summary("1", "luxass/one", false, false),
        summary("2", "luxass/two", false, false),
        summary("1", "luxass/one", false, false),
    ];
    let out = filter_repositories(&candidates, &excluded);
    assert_eq!(out.len(), 3);
    assert_eq!(out[0].name_with_owner, "luxass/one");
    assert_eq!(out[1].name_with_owner, "luxass/two");
    assert_eq!(out[2].name_with_owner, "luxass/one");
}

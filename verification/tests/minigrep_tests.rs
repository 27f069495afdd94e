use minigrep::Config;
use minigrep::ConfigError;
use minigrep::contains_str;
use minigrep::fold_lower;
use minigrep::search;
use minigrep::search_case_insensetive;
use minigrep::search_with;
use minigrep::split_lines;
use minigrep::str_eq;

#[test]
fn case_sensitive() {
    let query = "saf";
    let content = "\
rust
safe, fast, memory like
end of content
";
    assert_eq!(vec!["safe, fast, memory like"], search(query, content));
}

#[test]
fn case_insensitive() {
    let query = "mEm";
    let content = "\
rust
Safe, fast, memory like
Memopedia
end of content
";
    assert_eq!(
        vec!["Safe, fast, memory like", "Memopedia"],
        search_case_insensetive(query, content)
    );
}

#[test]
fn absent_query_returns_empty_match_set() {
    let content = "\
rust
safe, fast, memory like
end of content
";
    let r = search("xyz", content);
    assert!(r.is_empty());
    let ri = search_case_insensetive("xyz", content);
    assert!(ri.is_empty());
}

#[test]
fn empty_blob_returns_empty_match_set() {
    assert!(search("anything", "").is_empty());
    assert!(search_case_insensetive("anything", "").is_empty());
}

#[test]
fn search_is_idempotent() {
    let query = "fast";
    let content = "slow\nfast cars\nfaster still\n";
    let first = search(query, content);
    let second = search(query, content);
    assert_eq!(first, second);
    let ci_first = search_case_insensetive(query, content);
    let ci_second = search_case_insensetive(query, content);
    assert_eq!(ci_first, ci_second);
}

#[test]
fn case_insensitive_matches_at_least_as_much() {
    let query = "Rust";
    let content = "rust is fine\nRust is fine\nRUST IS LOUD\nnothing here\n";
    let exact = search(query, content);
    let folded = search_case_insensetive(query, content);
    assert_eq!(exact, vec!["Rust is fine"]);
    assert_eq!(folded, vec!["rust is fine", "Rust is fine", "RUST IS LOUD"]);
    assert!(exact.len() <= folded.len());
}

#[test]
fn duplicate_lines_are_kept_in_order() {
    let content = "same line\nother\nsame line\n";
    assert_eq!(vec!["same line", "same line"], search("same", content));
}

#[test]
fn query_longer_than_every_line_matches_nothing() {
    let content = "ab\ncd\n";
    assert!(search("abcdefgh", content).is_empty());
}

#[test]
fn whitespace_lines_compared_literally() {
    let content = "  \nx  y\n";
    assert_eq!(vec!["  ", "x  y"], search("  ", content));
}

#[test]
fn build_with_no_tokens_fails_missing_query() {
    let tokens: Vec<String> = vec![];
    let r = Config::build(&tokens, false);
    assert_eq!(r.err(), Some(ConfigError::MissingQuery));
    let r2 = Config::build(&tokens, true);
    assert_eq!(r2.err(), Some(ConfigError::MissingQuery));
}

#[test]
fn build_without_source_fails_missing_content_source() {
    let tokens = vec![String::from("prog"), String::from("q")];
    let r = Config::build(&tokens, false);
    assert_eq!(r.err(), Some(ConfigError::MissingContentSource));
}

#[test]
fn build_with_empty_query_fails_missing_query() {
    let tokens = vec![String::from("prog"), String::from(""), String::from("file.txt")];
    let r = Config::build(&tokens, false);
    assert_eq!(r.err(), Some(ConfigError::MissingQuery));
}

#[test]
fn build_resolves_case_sensitivity() {
    let base = vec![String::from("prog"), String::from("q"), String::from("file.txt")];
    let c = Config::build(&base, false).unwrap();
    assert_eq!(c.query, "q");
    assert_eq!(c.filepath, "file.txt");
    assert!(!c.ignore_case);

    let c2 = Config::build(&base, true).unwrap();
    assert!(c2.ignore_case);

    let mut flagged = base.clone();
    flagged.push(String::from("-i"));
    flagged.push(String::from("true"));
    let c3 = Config::build(&flagged, false).unwrap();
    assert!(c3.ignore_case);

    let mut half_flagged = base.clone();
    half_flagged.push(String::from("-i"));
    half_flagged.push(String::from("false"));
    let c4 = Config::build(&half_flagged, false).unwrap();
    assert!(!c4.ignore_case);

    let c5 = Config::build(&half_flagged, true).unwrap();
    assert!(!c5.ignore_case);
}

#[test]
fn search_with_follows_the_config() {
    let content = "rust\nSafe, fast, memory like\nMemopedia\nend of content\n";
    let tokens = vec![String::from("prog"), String::from("mEm"), String::from("file.txt")];
    let exact = Config::build(&tokens, false).unwrap();
    assert!(search_with(&exact, content).is_empty());
    let folded = Config::build(&tokens, true).unwrap();
    assert_eq!(
        vec!["Safe, fast, memory like", "Memopedia"],
        search_with(&folded, content)
    );
}

#[test]
fn split_lines_handles_line_endings() {
    assert_eq!(vec!["a", "b"], split_lines("a\r\nb\n"));
    assert_eq!(vec!["a", "", "b"], split_lines("a\n\nb"));
    assert!(split_lines("").is_empty());
    assert_eq!(vec!["a\r"], split_lines("a\r"));
}

#[test]
fn contains_str_checks_substrings() {
    assert!(contains_str("hello", "ell"));
    assert!(contains_str("hello", ""));
    assert!(!contains_str("hello", "xyz"));
    assert!(!contains_str("he", "hello"));
}

#[test]
fn fold_lower_folds_characters() {
    assert_eq!("abc", fold_lower("AbC"));
    assert_eq!("", fold_lower(""));
    assert_eq!("\u{431}\u{43b}", fold_lower("\u{411}\u{41b}"));
}

#[test]
fn str_eq_compares_characters() {
    assert!(str_eq("abc", "abc"));
    assert!(!str_eq("abc", "abd"));
    assert!(!str_eq("abc", "ab"));
    assert!(str_eq("", ""));
}

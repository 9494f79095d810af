use fuzzy_matcher::skim::SkimMatcherV2;
use fuzzy_matcher::FuzzyMatcher;
use picker::fuzzy_match::{FuzzyQuery, Matcher};
use picker::text::{ratio_text, starts_with};

#[test]
fn query_scores_like_the_matcher() {
    let matcher = SkimMatcherV2::default();
    assert_eq!(
        FuzzyQuery::new("pick").fuzzy_match("src/picker.rs", &Matcher::new()),
        matcher.fuzzy_match("src/picker.rs", "pick")
    );
    assert_eq!(FuzzyQuery::new("a").fuzzy_match("a", &Matcher::new()), Some(31));
}

#[test]
fn pattern_must_occur_in_order() {
    assert!(FuzzyQuery::new("abc").fuzzy_match("axbycz", &Matcher::new()).is_some());
    assert_eq!(FuzzyQuery::new("abc").fuzzy_match("acb", &Matcher::new()), None);
    assert_eq!(FuzzyQuery::new("abc").fuzzy_match("ab", &Matcher::new()), None);
}

#[test]
fn upper_case_makes_case_matter() {
    assert!(FuzzyQuery::new("abc").fuzzy_match("ABC", &Matcher::new()).is_some());
    assert_eq!(FuzzyQuery::new("Abc").fuzzy_match("abc", &Matcher::new()), None);
    assert!(FuzzyQuery::new("Abc").fuzzy_match("xAbc", &Matcher::new()).is_some());
    assert!(FuzzyQuery::new("É").fuzzy_match("é", &Matcher::new()).is_none());
}

#[test]
fn empty_pattern_scores_nothing_everywhere() {
    assert_eq!(FuzzyQuery::new("").fuzzy_match("anything", &Matcher::new()), Some(0));
    assert_eq!(FuzzyQuery::new("").fuzzy_match("", &Matcher::new()), Some(0));
}

#[test]
fn longer_pattern_is_more_specific() {
    let items = ["src/lib.rs", "src/picker.rs", "README", "pick", "PICKER"];
    let pattern = "pick";
    for item in items {
        let mut matched = true;
        for end in 0..=pattern.len() {
            let found = FuzzyQuery::new(&pattern[..end]).fuzzy_match(item, &Matcher::new()).is_some();
            assert!(matched || !found);
            matched = found;
        }
    }
}

#[test]
fn kept_matcher_remembers_bonuses() {
    let matcher = Matcher::new();
    assert_eq!(FuzzyQuery::new("aaa").fuzzy_match("aaa", &matcher), Some(71));
    FuzzyQuery::new("a").fuzzy_match("a/a", &matcher);
    assert_eq!(FuzzyQuery::new("aaa").fuzzy_match("aaa", &matcher), Some(75));
    let skim = SkimMatcherV2::default();
    let matcher = Matcher::new();
    for (pattern, text) in [("aa", "A_a"), ("aaa", "aaa"), ("aa", "a/aa"), ("aaa", "aaaa")] {
        let query = FuzzyQuery::new(pattern);
        assert_eq!(query.fuzzy_match(text, &matcher), skim.fuzzy_match(text, pattern));
        assert_eq!(query.fuzzy_indicies(text, &matcher), skim.fuzzy_indices(text, pattern));
    }
}

#[test]
fn indices_point_at_the_match() {
    let (_, at) = FuzzyQuery::new("abc").fuzzy_indicies("axbycz", &Matcher::new()).unwrap();
    assert_eq!(at, vec![0, 2, 4]);
    assert_eq!(FuzzyQuery::new("q").fuzzy_indicies("abc", &Matcher::new()), None);
}

#[test]
fn empty_pattern_has_no_positions() {
    let found = FuzzyQuery::new("").fuzzy_indicies("anything", &Matcher::new());
    assert_eq!(found, Some((0, Vec::new())));
}

#[test]
fn prefixes() {
    assert!(starts_with("picker", "pick"));
    assert!(starts_with("picker", ""));
    assert!(starts_with("", ""));
    assert!(!starts_with("pick", "picker"));
    assert!(!starts_with("pick", "pack"));
    assert!(starts_with("größe", "grö"));
}

#[test]
fn ratios() {
    assert_eq!(ratio_text(0, 0), "0/0");
    assert_eq!(ratio_text(10, 12345), "10/12345");
    assert_eq!(
        ratio_text(7, usize::MAX),
        format!("7/{}", usize::MAX)
    );
}

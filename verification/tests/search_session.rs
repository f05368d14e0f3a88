use stickymd::interaction::search::{
    replacement_allowed, LiteralMatch, LiteralSearchResult, SearchField, SearchSession,
};
use stickymd::model::{Generation, Selection};

/// Non-overlapping literal matches of `query` in `text`, ignoring ASCII case
/// unless asked not to (the shell's source search plays this part).
fn literal_matches(text: &str, query: &str, case_sensitive: bool) -> LiteralSearchResult {
    let mut ranges = Vec::new();
    if !query.is_empty() {
        let fold = |s: &str| {
            if case_sensitive {
                s.to_owned()
            } else {
                s.to_ascii_lowercase()
            }
        };
        let haystack = fold(text);
        let needle = fold(query);
        let mut from = 0;
        while let Some(found) = haystack[from..].find(&needle) {
            let start = from + found;
            ranges.push(LiteralMatch {
                start,
                end: start + needle.len(),
            });
            from = start + needle.len();
        }
    }
    LiteralSearchResult {
        ranges,
        truncated: false,
    }
}

fn refresh(session: &mut SearchSession, text: &str, generation: Generation) {
    let result = literal_matches(text, &session.query, session.options().case_sensitive);
    session.refresh(result, generation);
}

#[test]
fn search_session_invalidates_generation_and_wraps_navigation() {
    let mut session = SearchSession::default();
    session.open(false, Some("a"));
    refresh(&mut session, "a b a", Generation::initial());
    assert_eq!(session.match_summary(), (1, 2, false));
    assert_eq!(session.next(false), Some(Selection::new(4, 5)));
    assert_eq!(session.next(false), Some(Selection::new(0, 1)));
    let next = Generation::initial().checked_next().unwrap();
    assert!(!session.is_current(next));
    refresh(&mut session, "a", next);
    assert!(session.is_current(next));
    assert_eq!(session.active_range(), Some(0..1));
}

#[test]
fn query_edits_are_grapheme_safe_and_replacement_is_independent() {
    let text = "🙂a🙂";
    let mut session = SearchSession::default();
    session.open(true, None);
    refresh(&mut session, text, Generation::initial());
    if session.insert("🙂") {
        refresh(&mut session, text, Generation::initial());
    }
    assert_eq!(session.match_summary().1, 2);
    if session.backspace() {
        refresh(&mut session, text, Generation::initial());
    }
    assert!(session.query.is_empty());
    session.focus_next();
    assert!(!session.insert("中"));
    assert_eq!(session.replacement, "中");
    assert!(session.query.is_empty());
}

#[test]
fn search_session_defaults_to_case_insensitive_matching() {
    let mut session = SearchSession::default();
    session.open(false, Some("rust"));
    refresh(&mut session, "Rust rust", Generation::initial());
    assert!(!session.case_sensitive);
    assert_eq!(session.match_summary(), (1, 2, false));
}

#[test]
fn reverse_navigation_wraps_from_the_first_match_to_the_last() {
    let mut session = SearchSession::default();
    session.open(false, Some("x"));
    refresh(&mut session, "x-x-x", Generation::initial());
    assert_eq!(session.next(true), Some(Selection::new(4, 5)));
    assert_eq!(session.next(true), Some(Selection::new(2, 3)));
    assert_eq!(session.match_summary(), (2, 3, false));
    session.refresh(
        LiteralSearchResult {
            ranges: Vec::new(),
            truncated: true,
        },
        Generation::initial(),
    );
    assert_eq!(session.match_summary(), (0, 0, true));
    assert_eq!(session.next(false), None);
}

#[test]
fn multi_line_selection_and_control_characters_never_reach_the_query() {
    let mut session = SearchSession::default();
    session.open(false, Some("one\ntwo"));
    assert!(session.query.is_empty());
    assert!(!session.insert("a\u{7}"));
    assert!(session.query.is_empty());
    assert!(session.insert("ab"));
    session.move_cursor(false);
    assert!(session.insert("中"));
    assert_eq!(session.query, "a中b");
    session.move_cursor(false);
    assert!(session.delete());
    assert_eq!(session.query, "ab");
}

#[test]
fn preedit_is_cleared_on_commit_and_on_close() {
    let mut session = SearchSession::default();
    session.open(true, None);
    session.focus_next();
    assert_eq!(session.focused, SearchField::Replacement);
    session.set_preedit("ni".to_owned());
    assert!(session.is_composing());
    assert!(!session.commit_preedit("你"));
    assert!(!session.is_composing());
    assert_eq!(session.replacement, "你");
    session.set_preedit("x".to_owned());
    session.close();
    assert!(!session.open);
    assert!(!session.is_composing());
}

#[test]
fn find_only_and_active_search_preedit_reject_replacement() {
    let mut search = SearchSession::default();
    search.open(false, Some("a"));
    refresh(&mut search, "a", Generation::initial());
    assert!(!replacement_allowed(&search));
    search.open(true, None);
    assert!(replacement_allowed(&search));
    search.set_preedit("中".into());
    assert!(!replacement_allowed(&search));
}

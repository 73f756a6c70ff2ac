use headlines::coordinator::{FetchOutcome, RefreshCoordinator};
use headlines::headlines::{Headlines, HeadlinesConfig, NewsCardData};
use headlines::newsapi::{outcome_from_fetch, Article, FetchError};

fn card(title: &str, desc: &str, url: &str, source: &str) -> NewsCardData {
    NewsCardData {
        title: title.to_string(),
        desc: desc.to_string(),
        url: url.to_string(),
        source: source.to_string(),
    }
}

#[test]
fn fresh_state_is_loading_with_light_theme() {
    let h = Headlines::new();
    assert!(h.articles.is_empty());
    assert!(!h.config.dark_mode);
}

#[test]
fn default_config_is_light() {
    let c: HeadlinesConfig = Default::default();
    assert!(!c.dark_mode);
}

#[test]
fn toggle_theme_flips_dark_mode() {
    let mut h = Headlines::new();
    h.toggle_theme();
    assert!(h.config.dark_mode);
    h.toggle_theme();
    assert!(!h.config.dark_mode);
}

#[test]
fn success_fully_replaces_visible_list() {
    let mut h = Headlines::new();
    let first = vec![card("old one", "a", "u", "s"), card("old two", "b", "u", "s")];
    assert!(h.apply_outcome(FetchOutcome::Success(first)).is_none());
    assert_eq!(h.articles.len(), 2);
    let second = vec![card("new one", "c", "u", "s")];
    assert!(h.apply_outcome(FetchOutcome::Success(second)).is_none());
    // No residual record of the prior cycle survives beside the new one.
    assert_eq!(h.articles.len(), 1);
    assert_eq!(h.articles[0].title, "new one");
}

#[test]
fn failure_leaves_visible_list_untouched() {
    let mut h = Headlines::new();
    let first = vec![card("kept", "a", "u", "s")];
    assert!(h.apply_outcome(FetchOutcome::Success(first)).is_none());
    let surfaced = h.apply_outcome(FetchOutcome::Failure(FetchError::Transport));
    assert_eq!(surfaced, Some(FetchError::Transport));
    assert_eq!(h.articles.len(), 1);
    assert_eq!(h.articles[0].title, "kept");
}

#[test]
fn protocol_error_keeps_empty_prerefresh_state() {
    // An endpoint that answers with malformed data yields a protocol error
    // and the visible list stays in its empty, pre-refresh state.
    let mut h = Headlines::new();
    let mut c = RefreshCoordinator::new();
    h.on_start(&mut c);
    assert!(c.take_command().is_some());
    c.complete_fetch(outcome_from_fetch(Err(FetchError::Protocol)));
    let surfaced = h.preload_articles(&mut c);
    assert_eq!(surfaced, vec![FetchError::Protocol]);
    assert!(h.articles.is_empty());
}

#[test]
fn three_records_round_trip() {
    // A fetch that parses three well-formed records: one refresh request,
    // then a drain after completion, yields exactly those three records in
    // response order.
    let mut h = Headlines::new();
    let mut c = RefreshCoordinator::new();
    c.start();
    h.on_start(&mut c);
    assert!(c.take_command().is_some());
    let fetched = vec![
        Article {
            title: "first".to_string(),
            content: "first body".to_string(),
            source: "alpha".to_string(),
        },
        Article {
            title: "second".to_string(),
            content: "second body".to_string(),
            source: "beta".to_string(),
        },
        Article {
            title: "third".to_string(),
            content: "third body".to_string(),
            source: "gamma".to_string(),
        },
    ];
    c.complete_fetch(outcome_from_fetch(Ok(fetched)));
    let surfaced = h.preload_articles(&mut c);
    assert!(surfaced.is_empty());
    assert_eq!(h.articles.len(), 3);
    assert_eq!(h.articles[0].title, "first");
    assert_eq!(h.articles[1].title, "second");
    assert_eq!(h.articles[2].title, "third");
    assert_eq!(h.articles[0].source, "alpha");
    assert_eq!(h.articles[1].desc, "second body");
    // Nothing further was scheduled and nothing is left to drain.
    assert!(c.take_command().is_none());
    assert!(c.drain_results().is_empty());
}

#[test]
fn preload_applies_outcomes_in_order_and_surfaces_errors() {
    let mut h = Headlines::new();
    let mut c = RefreshCoordinator::new();
    // Cycle 1: success; cycle 2: transport failure; cycle 3: protocol failure.
    c.request_refresh();
    assert!(c.take_command().is_some());
    c.complete_fetch(FetchOutcome::Success(vec![card("still here", "d", "u", "s")]));
    c.request_refresh();
    assert!(c.take_command().is_some());
    c.complete_fetch(FetchOutcome::Failure(FetchError::Transport));
    c.request_refresh();
    assert!(c.take_command().is_some());
    c.complete_fetch(FetchOutcome::Failure(FetchError::Protocol));
    let surfaced = h.preload_articles(&mut c);
    assert_eq!(surfaced, vec![FetchError::Transport, FetchError::Protocol]);
    // The last successful fetch still stands.
    assert_eq!(h.articles.len(), 1);
    assert_eq!(h.articles[0].title, "still here");
}

#[test]
fn refresh_action_clears_list_and_requests_refresh() {
    let mut h = Headlines::new();
    let mut c = RefreshCoordinator::new();
    assert!(h.apply_outcome(FetchOutcome::Success(vec![card("t", "d", "u", "s")])).is_none());
    h.refresh_action(&mut c);
    // The list empties at once — the loading state — and a command is pending.
    assert!(h.articles.is_empty());
    assert!(c.take_command().is_some());
}

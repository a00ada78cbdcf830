use series_troxide::series_information::SeriesMainInformation;
use series_troxide::tab_searching::{
    is_matched_id, is_shown, search_for_matches, select_matched_ids, update_matches, Message, Searcher,
};

fn series(id: u32, name: &str) -> SeriesMainInformation {
    SeriesMainInformation {
        id,
        name: name.to_string(),
        status: "Running".to_string(),
        genres: vec![],
        average_runtime: None,
        language: None,
        premiered: None,
        ended: None,
        summary: None,
        network: None,
        web_channel: None,
        kind: None,
        image: None,
    }
}

#[test]
fn fuzzy_search_finds_matching_names() {
    let a = series(1, "Breaking Bad");
    let b = series(2, "The Office");
    let c = series(3, "Better Call Saul");
    let collection = vec![&a, &b, &c];
    assert_eq!(search_for_matches("office", &collection), vec![2]);
    assert_eq!(search_for_matches("bb", &collection), vec![1]);
    assert_eq!(search_for_matches("zzzz", &collection), Vec::<u32>::new());
}

#[test]
fn empty_term_filters_nothing() {
    let a = series(1, "Breaking Bad");
    let collection = vec![&a];
    let mut matches = Some(vec![7]);
    update_matches(&mut matches, "", &collection);
    assert_eq!(matches, None);
    assert!(is_shown(&matches, 42));
    update_matches(&mut matches, "breaking", &collection);
    assert_eq!(matches, Some(vec![1]));
    assert!(is_shown(&matches, 1));
    assert!(!is_shown(&matches, 2));
}

#[test]
fn selection_of_ids() {
    assert_eq!(select_matched_ids(&[1, 2, 3], &[true, false, true]), vec![1, 3]);
    assert!(is_matched_id(&[4, 5], 5));
    assert!(!is_matched_id(&[4, 5], 6));
}

#[test]
fn searcher_keeps_the_term() {
    let mut searcher = Searcher::new("Search Watchlist".to_string());
    assert_eq!(searcher.current_search_term(), "");
    assert_eq!(searcher.placeholder(), "Search Watchlist");
    searcher.update(Message::SearchTermChanged("abc".to_string()));
    assert_eq!(searcher.current_search_term(), "abc");
}

#[test]
fn search_is_smart_about_case() {
    let a = series(1, "Breaking Bad");
    let b = series(2, "better call saul");
    let collection = vec![&a, &b];
    // a pattern without capitals ignores case
    assert_eq!(search_for_matches("b", &collection), vec![1, 2]);
    // a pattern with a capital compares with case
    assert_eq!(search_for_matches("B", &collection), vec![1]);
    assert_eq!(search_for_matches("bcs", &collection), vec![2]);
    assert_eq!(search_for_matches("BCS", &collection), Vec::<u32>::new());
    // the characters must come in order
    assert_eq!(search_for_matches("dab", &collection), Vec::<u32>::new());
}

use podfetch::error::ParseErrorKind;
use podfetch::json::JsonValue;
use podfetch::search::search_engines::{
    search_result, search_results, search_url, text_member, ITUNES_SEARCH, PODCAST_INDEX_SEARCH,
};
use podfetch::search::{dedup_by_url, merge_results, SearchEngine, SearchResult};

fn result(title: &str, url: &str, engine: SearchEngine) -> SearchResult {
    SearchResult {
        title: String::from(title),
        url: String::from(url),
        artist: String::from("artist"),
        artwork: String::from("artwork"),
        search_engine: engine,
    }
}

#[test]
fn search_address_joins_the_terms() {
    let terms = vec![String::from("rust"), String::from("talk"), String::from("show")];
    assert_eq!(
        search_url(ITUNES_SEARCH, &terms),
        "https://itunes.apple.com/search?media=podcast&term=rust+talk+show"
    );
    assert_eq!(
        search_url(PODCAST_INDEX_SEARCH, &vec![String::from("rust")]),
        "https://api.podcastindex.org/search?term=rust"
    );
    assert_eq!(search_url("base?", &Vec::new()), "base?");
    assert_eq!(search_url("base?", &vec![String::new(), String::new()]), "base?+");
}

#[test]
fn engines_have_their_address() {
    assert_eq!(SearchEngine::Itunes.base_url(), "https://itunes.apple.com/search?media=podcast&term=");
    assert_eq!(SearchEngine::PodcastIndex.base_url(), "https://api.podcastindex.org/search?term=");
}

#[test]
fn answer_is_read_into_results() {
    let response = JsonValue::parse(
        r#"{"resultCount":3,"results":[
            {"collectionName":"One","feedUrl":"https://example.com/1","artistName":"A","artworkUrl600":"https://example.com/1.png"},
            {"collectionName":"No feed","artistName":"B","artworkUrl600":"https://example.com/2.png"},
            {"collectionName":"Three","feedUrl":"https://example.com/3","artistName":"C","artworkUrl600":"https://example.com/3.png","extra":1},
            {"collectionName":4,"feedUrl":"https://example.com/4","artistName":"D","artworkUrl600":"https://example.com/4.png"},
            "no object"
        ]}"#,
    )
    .unwrap();
    assert_eq!(
        search_results(&response, SearchEngine::Itunes),
        Ok(vec![
            SearchResult {
                title: String::from("One"),
                url: String::from("https://example.com/1"),
                artist: String::from("A"),
                artwork: String::from("https://example.com/1.png"),
                search_engine: SearchEngine::Itunes,
            },
            SearchResult {
                title: String::from("Three"),
                url: String::from("https://example.com/3"),
                artist: String::from("C"),
                artwork: String::from("https://example.com/3.png"),
                search_engine: SearchEngine::Itunes,
            },
        ])
    );
}

#[test]
fn answer_without_results_is_a_missing_element() {
    for text in [r#"{"status":"ok"}"#, r#"{"results":{"a":1}}"#, r#"{"results":null}"#, "[]", "3"] {
        let response = JsonValue::parse(text).unwrap();
        let error = search_results(&response, SearchEngine::PodcastIndex).unwrap_err();
        assert_eq!(error.kind(), ParseErrorKind::MissingElement);
    }
    let response = JsonValue::parse(r#"{"results":[]}"#).unwrap();
    assert_eq!(search_results(&response, SearchEngine::PodcastIndex), Ok(Vec::new()));
}

#[test]
fn entry_needs_all_four_texts() {
    let entry = JsonValue::parse(
        r#"{"collectionName":"One","feedUrl":"u","artistName":"A","artworkUrl600":"w"}"#,
    )
    .unwrap();
    assert_eq!(
        search_result(&entry, SearchEngine::PodcastIndex),
        Some(SearchResult {
            title: String::from("One"),
            url: String::from("u"),
            artist: String::from("A"),
            artwork: String::from("w"),
            search_engine: SearchEngine::PodcastIndex,
        })
    );
    for missing in ["collectionName", "feedUrl", "artistName", "artworkUrl600"] {
        let members = match JsonValue::parse(
            r#"{"collectionName":"One","feedUrl":"u","artistName":"A","artworkUrl600":"w"}"#,
        )
        .unwrap()
        {
            JsonValue::Object(members) => members,
            _ => unreachable!(),
        };
        let entry =
            JsonValue::Object(members.into_iter().filter(|(key, _)| key != missing).collect());
        assert_eq!(search_result(&entry, SearchEngine::Itunes), None);
    }
    assert_eq!(text_member(&entry, "feedUrl"), Some(String::from("u")));
    assert_eq!(text_member(&entry, "nothing"), None);
    assert_eq!(text_member(&JsonValue::Null, "feedUrl"), None);
}

#[test]
fn neighbours_with_the_same_url_are_left_out() {
    let results = vec![
        result("a", "u1", SearchEngine::Itunes),
        result("b", "u1", SearchEngine::Itunes),
        result("c", "u2", SearchEngine::Itunes),
        result("d", "u1", SearchEngine::Itunes),
        result("e", "u1", SearchEngine::PodcastIndex),
        result("f", "u1", SearchEngine::PodcastIndex),
    ];
    let titles: Vec<String> = dedup_by_url(&results).into_iter().map(|r| r.title).collect();
    assert_eq!(titles, vec!["a", "c", "d"]);
    assert_eq!(dedup_by_url(&Vec::new()), Vec::new());
}

#[test]
fn results_of_two_searches_are_merged() {
    let first = vec![result("a", "u1", SearchEngine::Itunes), result("b", "u2", SearchEngine::Itunes)];
    let second = vec![
        result("c", "u2", SearchEngine::PodcastIndex),
        result("d", "u1", SearchEngine::PodcastIndex),
    ];
    assert_eq!(
        merge_results(first, second),
        vec![
            result("a", "u1", SearchEngine::Itunes),
            result("b", "u2", SearchEngine::Itunes),
            result("d", "u1", SearchEngine::PodcastIndex),
        ]
    );
    assert_eq!(merge_results(Vec::new(), Vec::new()), Vec::new());
}

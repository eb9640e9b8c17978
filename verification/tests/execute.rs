use podfetch::error::{ParseError, ParseErrorKind};
use podfetch::feed::address::FeedUrl;
use podfetch::feed::strategy::execute::{
    advance, begin, execute_podcast_operation, execute_step, execute_url_json,
    execute_url_operation, execute_url_rsslink, Execution, Step,
};
use podfetch::feed::strategy::{create_strategy, PodcastOperation, Strategy, UrlOperation};
use podfetch::feed::Podcast;
use podfetch::html::{first_link, rss_link};
use podfetch::text::utf8_text;

const FEED: &str = "<rss version=\"2.0\"><channel><title>Cast</title>\
    <link>https://example.com/</link><description>About</description>\
    <item><title>Two</title><enclosure url=\"https://example.com/2.mp3\"/></item>\
    <item><title>One</title><enclosure url=\"https://example.com/1.mp3\"/></item>\
    </channel></rss>";

const PAGE: &str = "<html><head><title>Cast</title>\
    <link rel=\"stylesheet\" href=\"/style.css\">\
    <link rel=\"alternate\" type=\"application/rss+xml\">\
    <link rel=\"alternate\" type=\"application/rss+xml\" href=\"https://feeds.example.com/cast.xml\">\
    <link rel=\"alternate\" type=\"application/rss+xml\" href=\"https://feeds.example.com/other.xml\">\
    </head><body></body></html>";

/// Runs a plan to its end, answering each fetch from `web`.
fn run(strategy: &Strategy, web: &dyn Fn(&str) -> Vec<u8>) -> (Result<Podcast, ParseError>, Vec<String>) {
    let mut fetched = Vec::new();
    let mut state = begin(strategy);
    loop {
        assert!(state.position < strategy.operations().len());
        fetched.push(state.url.clone());
        let content = web(&state.url);
        match execute_step(strategy, state, &content) {
            Ok(Step::Continue(next)) => state = next,
            Ok(Step::Finished(podcast)) => return (Ok(podcast), fetched),
            Err(error) => return (Err(error), fetched),
        }
    }
}

#[test]
fn run_begins_at_the_plans_address() {
    let strategy = create_strategy("https://example.com/podcast").unwrap();
    assert_eq!(begin(&strategy), Execution { url: String::from("https://example.com/podcast"), position: 0 });
}

#[test]
fn page_that_links_a_feed_leads_to_it() {
    let strategy = create_strategy("https://example.com/podcast").unwrap();
    let (result, fetched) = run(&strategy, &|url| match url {
        "https://example.com/podcast" => PAGE.as_bytes().to_vec(),
        "https://feeds.example.com/cast.xml" => FEED.as_bytes().to_vec(),
        _ => Vec::new(),
    });
    let podcast = result.unwrap();
    assert_eq!(podcast.title, "Cast");
    assert_eq!(podcast.episodes.len(), 2);
    assert_eq!(podcast.episodes[0].title, "One");
    assert_eq!(fetched, vec!["https://example.com/podcast", "https://feeds.example.com/cast.xml"]);
}

#[test]
fn address_of_a_feed_is_read_as_the_feed() {
    let strategy = create_strategy("https://example.com/podcast").unwrap();
    let (result, fetched) = run(&strategy, &|_| FEED.as_bytes().to_vec());
    let podcast = result.unwrap();
    assert_eq!(podcast.title, "Cast");
    assert_eq!(fetched, vec!["https://example.com/podcast", "https://example.com/podcast"]);
}

#[test]
fn apple_page_is_resolved_through_the_lookup() {
    let strategy =
        create_strategy("https://podcasts.apple.com/us/podcast/name/id123456789").unwrap();
    let (result, fetched) = run(&strategy, &|url| match url {
        "https://itunes.apple.com/lookup?id=123456789" => {
            br#"{"resultCount":1,"results":[{"feedUrl":"https://feeds.example.com/cast.xml"}]}"#.to_vec()
        }
        "https://feeds.example.com/cast.xml" => FEED.as_bytes().to_vec(),
        _ => Vec::new(),
    });
    assert_eq!(result.unwrap().title, "Cast");
    assert_eq!(
        fetched,
        vec!["https://itunes.apple.com/lookup?id=123456789", "https://feeds.example.com/cast.xml"]
    );
}

#[test]
fn lookup_without_results_ends_the_run() {
    let strategy =
        create_strategy("https://podcasts.apple.com/us/podcast/name/id123456789").unwrap();
    let (result, fetched) = run(&strategy, &|_| br#"{"results":[]}"#.to_vec());
    assert_eq!(result.unwrap_err().kind(), ParseErrorKind::MissingElement);
    assert_eq!(fetched.len(), 1);
}

#[test]
fn rss_dot_com_feed_is_read_at_once() {
    let strategy = create_strategy("https://rss.com/abc123").unwrap();
    let (result, fetched) = run(&strategy, &|_| FEED.as_bytes().to_vec());
    assert_eq!(result.unwrap().title, "Cast");
    assert_eq!(fetched, vec!["https://media.rss.com/abc123/feed.xml"]);
}

#[test]
fn tolerated_step_keeps_the_address_on_a_feed_document() {
    let strategy = create_strategy("https://example.com/podcast").unwrap();
    let state = begin(&strategy);
    let step = execute_step(&strategy, state, FEED.as_bytes()).unwrap();
    assert_eq!(
        step,
        Step::Continue(Execution { url: String::from("https://example.com/podcast"), position: 1 })
    );
}

#[test]
fn tolerated_step_keeps_the_address_on_bytes_that_are_no_text() {
    let strategy = create_strategy("https://example.com/podcast").unwrap();
    let step = execute_step(&strategy, begin(&strategy), &[0xff, 0xfe]).unwrap();
    assert_eq!(
        step,
        Step::Continue(Execution { url: String::from("https://example.com/podcast"), position: 1 })
    );
}

#[test]
fn tolerated_step_keeps_the_address_when_the_link_is_no_url() {
    let strategy = create_strategy("https://example.com/podcast").unwrap();
    let page = "<link type=\"application/rss+xml\" href=\"/feed.xml\">";
    let step = execute_step(&strategy, begin(&strategy), page.as_bytes()).unwrap();
    assert_eq!(
        step,
        Step::Continue(Execution { url: String::from("https://example.com/podcast"), position: 1 })
    );
}

#[test]
fn advance_takes_the_address_that_was_found() {
    let state = Execution { url: String::from("https://a.example/"), position: 3 };
    let found = FeedUrl::parse("https://b.example/feed").unwrap();
    for tolerant in [false, true] {
        let state = Execution { url: state.url.clone(), position: state.position };
        let found = FeedUrl { text: found.text.clone(), host: None, path_segments: None };
        assert_eq!(
            advance(state, Ok(found), tolerant),
            Ok(Execution { url: String::from("https://b.example/feed"), position: 4 })
        );
    }
}

#[test]
fn advance_fails_or_goes_on_after_a_failure() {
    let state = Execution { url: String::from("https://a.example/"), position: 0 };
    assert_eq!(advance(state, Err(ParseError::MissingElement), false), Err(ParseError::MissingElement));
    let state = Execution { url: String::from("https://a.example/"), position: 0 };
    assert_eq!(
        advance(state, Err(ParseError::MissingElement), true),
        Ok(Execution { url: String::from("https://a.example/"), position: 1 })
    );
}

#[test]
fn feed_operation_reads_the_feed() {
    let podcast = execute_podcast_operation(&PodcastOperation::RSS, FEED.as_bytes()).unwrap();
    assert_eq!(podcast.title, "Cast");
    let error = execute_podcast_operation(&PodcastOperation::RSS, b"nothing").unwrap_err();
    assert_eq!(error.kind(), ParseErrorKind::RSS);
}

#[test]
fn json_operation_gives_a_url() {
    let content = br#"{"results":[{"feedUrl":"HTTP://Example.com/feed"}]}"#;
    let op = UrlOperation::Json(vec!["results", "feedUrl"]);
    let url = execute_url_operation(&op, content).unwrap();
    assert_eq!(url.text, "http://example.com/feed");
    assert_eq!(url.host, Some(String::from("example.com")));
    assert_eq!(url.path_segments, Some(vec![String::from("feed")]));
}

#[test]
fn extracted_text_must_be_a_url() {
    let content = br#"{"results":[{"feedUrl":"no url here"}]}"#;
    let op = UrlOperation::Json(vec!["results", "feedUrl"]);
    assert_eq!(execute_url_operation(&op, content).unwrap_err().kind(), ParseErrorKind::URL);
}

#[test]
fn json_lookup_over_a_response() {
    let content = br#"{"results":[{"feedUrl":"http://x"}]}"#;
    assert_eq!(execute_url_json(content, &vec!["results", "feedUrl"]), Ok(String::from("http://x")));
    let error = execute_url_json(br#"{"results":[]}"#, &vec!["results", "feedUrl"]).unwrap_err();
    assert_eq!(error, ParseError::MissingElement);
}

#[test]
fn json_lookup_names_what_went_wrong() {
    let lookup = vec!["results", "feedUrl"];
    assert_eq!(execute_url_json(&[0xc3, 0x28], &lookup).unwrap_err().kind(), ParseErrorKind::UTF8);
    assert_eq!(execute_url_json(b"<html>", &lookup).unwrap_err().kind(), ParseErrorKind::Json);
    assert_eq!(
        execute_url_json(br#"{"results":[{"feedUrl":5}]}"#, &lookup).unwrap_err().kind(),
        ParseErrorKind::MissingElement
    );
}

#[test]
fn rss_link_is_the_first_with_an_address() {
    assert_eq!(
        execute_url_rsslink(PAGE.as_bytes()),
        Ok(String::from("https://feeds.example.com/cast.xml"))
    );
    assert_eq!(rss_link(PAGE), Some(String::from("https://feeds.example.com/cast.xml")));
}

#[test]
fn page_without_rss_link_is_a_missing_element() {
    let page = "<html><head><link rel=\"stylesheet\" href=\"/style.css\"></head></html>";
    assert_eq!(execute_url_rsslink(page.as_bytes()).unwrap_err(), ParseError::MissingElement);
    assert_eq!(execute_url_rsslink(FEED.as_bytes()).unwrap_err(), ParseError::MissingElement);
    assert_eq!(execute_url_rsslink(&[0xff]).unwrap_err().kind(), ParseErrorKind::UTF8);
}

#[test]
fn first_link_passes_over_what_is_absent() {
    assert_eq!(first_link(&vec![]), None);
    assert_eq!(first_link(&vec![None, None]), None);
    assert_eq!(
        first_link(&vec![None, Some(String::from("a")), Some(String::from("b"))]),
        Some(String::from("a"))
    );
}

#[test]
fn utf8_text_decodes_or_refuses() {
    assert_eq!(utf8_text("gr\u{fc}n".as_bytes()), Ok("gr\u{fc}n"));
    assert_eq!(utf8_text(&[0x80]).unwrap_err().kind(), ParseErrorKind::UTF8);
}

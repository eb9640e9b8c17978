use podfetch::error::ParseErrorKind;
use podfetch::feed::parse::rss::{
    episode_from_item, extract_episodes, item_pub_date, parse_rss_feed, podcast_from_channel,
    Channel, Item,
};
use podfetch::feed::{Episode, PubDate};

const FEED: &str = r#"<?xml version="1.0" encoding="UTF-8"?>
<rss version="2.0">
  <channel>
    <title>Example Cast</title>
    <link>https://example.com/</link>
    <description>About examples</description>
    <image><url>https://example.com/cover.jpg</url><title>Example Cast</title><link>https://example.com/</link></image>
    <item>
      <title>Third</title>
      <enclosure url="https://example.com/3.mp3" length="3" type="audio/mpeg"/>
      <pubDate>Wed, 18 Feb 2015 23:16:09 GMT</pubDate>
      <author>someone@example.com</author>
      <description>The third one</description>
    </item>
    <item>
      <title>Second</title>
      <enclosure url="https://example.com/2.mp3" length="2" type="audio/mpeg"/>
      <pubDate>not a date</pubDate>
    </item>
    <item>
      <title>First</title>
      <enclosure url="https://example.com/1.mp3" length="1" type="audio/mpeg"/>
    </item>
  </channel>
</rss>
"#;

fn item(title: Option<&str>, enclosure: Option<&str>) -> Item {
    Item {
        title: title.map(String::from),
        enclosure: enclosure.map(String::from),
        pub_date: None,
        author: None,
        description: None,
    }
}

fn channel(items: Vec<Item>) -> Channel {
    Channel {
        title: String::from("Cast"),
        description: String::from("About"),
        image: None,
        items,
    }
}

#[test]
fn feed_is_read_oldest_first() {
    let podcast = parse_rss_feed(FEED.as_bytes()).unwrap();
    assert_eq!(podcast.title, "Example Cast");
    assert_eq!(podcast.description, Some(String::from("About examples")));
    assert_eq!(podcast.image, Some(String::from("https://example.com/cover.jpg")));
    assert_eq!(
        podcast.episodes,
        vec![
            Episode {
                title: String::from("First"),
                link: String::from("https://example.com/1.mp3"),
                pub_date: None,
                index: Some(1),
                author: None,
                description: None,
            },
            Episode {
                title: String::from("Second"),
                link: String::from("https://example.com/2.mp3"),
                pub_date: None,
                index: Some(2),
                author: None,
                description: None,
            },
            Episode {
                title: String::from("Third"),
                link: String::from("https://example.com/3.mp3"),
                pub_date: Some(PubDate {
                    year: 2015,
                    month: 2,
                    day: 18,
                    hour: 23,
                    minute: 16,
                    second: 9,
                    offset: 0,
                }),
                index: Some(3),
                author: Some(String::from("someone@example.com")),
                description: Some(String::from("The third one")),
            },
        ]
    );
}

#[test]
fn feed_without_items_has_no_episodes() {
    let document = "<rss version=\"2.0\"><channel><title>T</title><description>D</description></channel></rss>";
    let podcast = parse_rss_feed(document.as_bytes()).unwrap();
    assert_eq!(podcast.title, "T");
    assert_eq!(podcast.description, Some(String::from("D")));
    assert_eq!(podcast.image, None);
    assert!(podcast.episodes.is_empty());
}

#[test]
fn what_is_no_feed_is_refused() {
    let error = parse_rss_feed(b"<html><body>hello</body></html>").unwrap_err();
    assert_eq!(error.kind(), ParseErrorKind::RSS);
    let error = parse_rss_feed(b"").unwrap_err();
    assert_eq!(error.kind(), ParseErrorKind::RSS);
}

#[test]
fn item_with_empty_title_fails_the_feed() {
    let document = "<rss version=\"2.0\"><channel><title>T</title><description>D</description>\
        <item><title>Fine</title><enclosure url=\"https://example.com/1.mp3\"/></item>\
        <item><title></title><enclosure url=\"https://example.com/2.mp3\"/></item>\
        </channel></rss>";
    let error = parse_rss_feed(document.as_bytes()).unwrap_err();
    assert_eq!(error.kind(), ParseErrorKind::MissingElement);
}

#[test]
fn item_without_enclosure_fails_the_feed() {
    let document = "<rss version=\"2.0\"><channel><title>T</title><description>D</description>\
        <item><title>No audio</title></item>\
        <item><title>Fine</title><enclosure url=\"https://example.com/1.mp3\"/></item>\
        </channel></rss>";
    let error = parse_rss_feed(document.as_bytes()).unwrap_err();
    assert_eq!(error.kind(), ParseErrorKind::MissingElement);
}

#[test]
fn enclosure_without_url_fails_the_feed() {
    let document = "<rss version=\"2.0\"><channel><title>T</title><description>D</description>\
        <item><title>No address</title><enclosure length=\"1\"/></item>\
        </channel></rss>";
    let error = parse_rss_feed(document.as_bytes()).unwrap_err();
    assert_eq!(error.kind(), ParseErrorKind::MissingElement);
}

#[test]
fn episodes_are_numbered_from_the_last_item() {
    let items = vec![
        item(Some("c"), Some("https://example.com/c")),
        item(Some("b"), Some("https://example.com/b")),
        item(Some("a"), Some("https://example.com/a")),
        item(Some("z"), Some("https://example.com/z")),
    ];
    let episodes = extract_episodes(&channel(items)).unwrap();
    let titles: Vec<&str> = episodes.iter().map(|episode| episode.title.as_str()).collect();
    assert_eq!(titles, vec!["z", "a", "b", "c"]);
    let indices: Vec<Option<usize>> = episodes.iter().map(|episode| episode.index).collect();
    assert_eq!(indices, vec![Some(1), Some(2), Some(3), Some(4)]);
}

#[test]
fn incomplete_items_are_missing_elements() {
    for broken in [
        item(None, Some("https://example.com/a")),
        item(Some(""), Some("https://example.com/a")),
        item(Some("a"), None),
        item(Some("a"), Some("")),
        item(None, None),
    ] {
        let error = episode_from_item(&broken, None, 1).unwrap_err();
        assert_eq!(error.kind(), ParseErrorKind::MissingElement);
        let items = vec![item(Some("fine"), Some("https://example.com/fine")), broken];
        let error = podcast_from_channel(&channel(items)).unwrap_err();
        assert_eq!(error.kind(), ParseErrorKind::MissingElement);
    }
}

#[test]
fn episode_copies_the_item() {
    let source = Item {
        title: Some(String::from("Title")),
        enclosure: Some(String::from("https://example.com/a.mp3")),
        pub_date: Some(String::from("ignored here")),
        author: Some(String::from("Author")),
        description: Some(String::from("Words")),
    };
    let date = PubDate { year: 1999, month: 12, day: 31, hour: 23, minute: 59, second: 58, offset: 3600 };
    let episode = episode_from_item(&source, Some(date), 7).unwrap();
    assert_eq!(
        episode,
        Episode {
            title: String::from("Title"),
            link: String::from("https://example.com/a.mp3"),
            pub_date: Some(date),
            index: Some(7),
            author: Some(String::from("Author")),
            description: Some(String::from("Words")),
        }
    );
}

#[test]
fn channel_becomes_a_podcast() {
    let mut source = channel(vec![item(Some("a"), Some("https://example.com/a"))]);
    source.image = Some(String::from("https://example.com/i.png"));
    let podcast = podcast_from_channel(&source).unwrap();
    assert_eq!(podcast.title, "Cast");
    assert_eq!(podcast.description, Some(String::from("About")));
    assert_eq!(podcast.image, Some(String::from("https://example.com/i.png")));
    assert_eq!(podcast.episodes.len(), 1);
    assert_eq!(podcast.episodes[0].index, Some(1));
}

#[test]
fn publication_date_keeps_its_offset() {
    let mut source = item(Some("a"), Some("https://example.com/a"));
    source.pub_date = Some(String::from("Tue, 1 Jul 2003 10:52:37 +0200"));
    assert_eq!(
        item_pub_date(&source),
        Some(PubDate { year: 2003, month: 7, day: 1, hour: 10, minute: 52, second: 37, offset: 7200 })
    );
    source.pub_date = Some(String::from("2003-07-01T10:52:37+02:00"));
    assert_eq!(item_pub_date(&source), None);
    source.pub_date = None;
    assert_eq!(item_pub_date(&source), None);
}

#[test]
fn publication_parts_of_a_dated_episode() {
    let episode = Episode {
        title: String::from("a"),
        link: String::from("b"),
        pub_date: Some(PubDate { year: 2015, month: 2, day: 18, hour: 23, minute: 16, second: 9, offset: 0 }),
        index: Some(1),
        author: None,
        description: None,
    };
    assert_eq!(episode.publication_day(), Some(18));
    assert_eq!(episode.publication_month(), Some(2));
    assert_eq!(episode.publication_year(), Some(2015));
}

#[test]
fn publication_parts_of_an_undated_episode_are_absent() {
    let episode = Episode {
        title: String::from("a"),
        link: String::from("b"),
        pub_date: None,
        index: None,
        author: None,
        description: None,
    };
    assert_eq!(episode.publication_day(), None);
    assert_eq!(episode.publication_month(), None);
    assert_eq!(episode.publication_year(), None);
}

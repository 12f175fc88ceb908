use feedcore::error::Error;
use feedcore::feed::{build_feed, icon_file_name, normalize_feed, set_icon, Feed, Post, RawEntry, RawFeed};

// The same transport-and-parse step the application performs before it
// hands the library a document: real feed-rs parsing, timestamps as
// epoch milliseconds.
fn parse_document(bytes: &[u8]) -> Option<RawFeed> {
    let f = feed_rs::parser::parse(bytes).ok()?;
    Some(RawFeed {
        title: f.title.map(|t| t.content),
        description: f.description.map(|t| t.content),
        links: f.links.into_iter().map(|l| l.href).collect(),
        icon_uri: f.icon.map(|i| i.uri),
        entries: f
            .entries
            .into_iter()
            .map(|e| RawEntry {
                title: e.title.map(|t| t.content),
                summary: e.summary.map(|t| t.content),
                links: e.links.into_iter().map(|l| l.href).collect(),
                published: e.published.map(|d| d.timestamp_millis()),
                updated: e.updated.map(|d| d.timestamp_millis()),
            })
            .collect(),
    })
}

fn entry(
    title: Option<&str>,
    link: Option<&str>,
    published: Option<i64>,
    updated: Option<i64>,
) -> RawEntry {
    RawEntry {
        title: title.map(|s| s.to_string()),
        summary: None,
        links: link.into_iter().map(|s| s.to_string()).collect(),
        published,
        updated,
    }
}

fn raw_feed(title: Option<&str>, entries: Vec<RawEntry>) -> RawFeed {
    RawFeed {
        title: title.map(|s| s.to_string()),
        description: Some("about".to_string()),
        links: vec!["https://site.example/".to_string()],
        icon_uri: None,
        entries,
    }
}

#[test]
fn missing_feed_title_is_required_field_error() {
    let r = normalize_feed("https://s.example/feed", raw_feed(None, Vec::new()));
    match r {
        Err(Error::MissingRequiredField { site, field }) => {
            assert_eq!(site, "https://s.example/feed");
            assert_eq!(field, "title");
        }
        other => panic!("expected MissingRequiredField, got {:?}", other),
    }
}

#[test]
fn empty_feed_title_is_required_field_error() {
    // A Feed only exists with a non-empty title: an empty one is rejected
    // exactly like an absent one.
    let r = normalize_feed("https://s.example/feed", raw_feed(Some(""), Vec::new()));
    match r {
        Err(Error::MissingRequiredField { site, field }) => {
            assert_eq!(site, "https://s.example/feed");
            assert_eq!(field, "title");
        }
        other => panic!("expected MissingRequiredField, got {:?}", other),
    }
}

#[test]
fn empty_title_document_never_becomes_a_feed() {
    let doc = "<?xml version=\"1.0\"?>\
<rss version=\"2.0\"><channel>\
<title></title>\
<link>https://valid.example/</link>\
<description>things</description>\
</channel></rss>";
    let r = build_feed("https://s.example/feed", Some(parse_document(doc.as_bytes())));
    match r {
        Err(Error::MissingRequiredField { site, field }) => {
            assert_eq!(site, "https://s.example/feed");
            assert_eq!(field, "title");
        }
        other => panic!("expected MissingRequiredField, got {:?}", other),
    }
}

#[test]
fn partial_entries_are_dropped_not_defaulted() {
    let entries = vec![
        entry(Some("complete"), Some("https://p/1"), Some(1000), None),
        entry(None, Some("https://p/2"), Some(1000), None),
        entry(Some("no link"), None, Some(1000), None),
        entry(Some("no time"), Some("https://p/4"), None, None),
        entry(Some("updated only"), Some("https://p/5"), None, Some(2000)),
    ];
    let feed = normalize_feed("https://s.example/feed", raw_feed(Some("Site"), entries)).unwrap();
    assert_eq!(feed.posts.len(), 2);
    assert_eq!(feed.posts[0].title, "complete");
    assert_eq!(feed.posts[0].published, 1000);
    assert_eq!(feed.posts[1].title, "updated only");
    assert_eq!(feed.posts[1].published, 2000);
    // No post carries a placeholder for a missing field.
    for p in &feed.posts {
        assert!(!p.title.is_empty());
        assert!(!p.url.is_empty());
    }
}

#[test]
fn published_wins_over_updated_and_publisher_is_denormalized() {
    let entries = vec![entry(Some("a"), Some("https://p/a"), Some(5), Some(9))];
    let feed = normalize_feed("https://s.example/feed", raw_feed(Some("Site"), entries)).unwrap();
    assert_eq!(feed.title, "Site");
    assert_eq!(feed.source, "https://s.example/feed");
    assert_eq!(feed.posts[0].published, 5);
    assert_eq!(feed.posts[0].publisher, "Site");
}

#[test]
fn summaries_are_trimmed() {
    let mut e = entry(Some("a"), Some("https://p/a"), Some(5), None);
    e.summary = Some("  \tsome text \n".to_string());
    let feed = normalize_feed("https://s.example/feed", raw_feed(Some("Site"), vec![e])).unwrap();
    assert_eq!(feed.posts[0].summary.as_deref(), Some("some text"));
}

#[test]
fn transport_failure_is_transport_error() {
    let r = build_feed("https://404.example/feed", None);
    match r {
        Err(Error::Transport { site }) => assert_eq!(site, "https://404.example/feed"),
        other => panic!("expected Transport, got {:?}", other),
    }
}

#[test]
fn unparseable_bytes_are_a_parse_error() {
    let r = build_feed("https://s.example/feed", Some(parse_document(b"this is not a feed")));
    match r {
        Err(Error::Parse { site }) => assert_eq!(site, "https://s.example/feed"),
        other => panic!("expected Parse, got {:?}", other),
    }
}

const RSS_TWO_ENTRIES: &str = "<?xml version=\"1.0\"?>\
<rss version=\"2.0\"><channel>\
<title>Example Site</title>\
<link>https://valid.example/</link>\
<description>things</description>\
<item><title>A</title><link>https://valid.example/a</link>\
<pubDate>Mon, 01 Jan 2024 00:00:00 GMT</pubDate></item>\
<item><title>B</title><link>https://valid.example/b</link>\
<pubDate>Sat, 01 Jun 2024 00:00:00 GMT</pubDate></item>\
</channel></rss>";

#[test]
fn well_formed_document_becomes_a_feed() {
    let r = build_feed("https://valid.example/feed", Some(parse_document(RSS_TWO_ENTRIES.as_bytes())));
    let (feed, icon_uri) = r.unwrap();
    assert_eq!(feed.title, "Example Site");
    assert_eq!(feed.source, "https://valid.example/feed");
    assert_eq!(feed.description.as_deref(), Some("things"));
    assert_eq!(feed.url.as_deref(), Some("https://valid.example/"));
    assert_eq!(feed.icon, None);
    assert_eq!(icon_uri, None);
    assert_eq!(feed.posts.len(), 2);
    assert_eq!(feed.posts[0].title, "A");
    assert_eq!(feed.posts[0].url, "https://valid.example/a");
    assert_eq!(feed.posts[0].publisher, "Example Site");
    assert_eq!(feed.posts[0].published, 1_704_067_200_000);
    assert_eq!(feed.posts[1].title, "B");
    assert_eq!(feed.posts[1].published, 1_717_200_000_000);
}

const ATOM_UPDATED_ONLY: &str = "<?xml version=\"1.0\"?>\
<feed xmlns=\"http://www.w3.org/2005/Atom\">\
<title>Atom Site</title><id>urn:feed</id>\
<updated>2024-01-01T00:00:00Z</updated>\
<entry><title>E</title><id>urn:e</id>\
<link href=\"https://atom.example/e\"/>\
<updated>2024-06-01T00:00:00Z</updated></entry>\
</feed>";

#[test]
fn atom_entry_without_published_falls_back_to_updated() {
    let r = build_feed("https://atom.example/feed", Some(parse_document(ATOM_UPDATED_ONLY.as_bytes())));
    let (feed, _icon_uri) = r.unwrap();
    assert_eq!(feed.title, "Atom Site");
    assert_eq!(feed.posts.len(), 1);
    assert_eq!(feed.posts[0].title, "E");
    assert_eq!(feed.posts[0].url, "https://atom.example/e");
    assert_eq!(feed.posts[0].published, 1_717_200_000_000);
}

#[test]
fn icon_failure_changes_nothing_but_icon() {
    let entries = vec![entry(Some("a"), Some("https://p/a"), Some(5), None)];
    let feed = normalize_feed("https://s.example/feed", raw_feed(Some("Site"), entries)).unwrap();
    let before = feed.clone();
    // The icon download failed: the feed keeps every field, icon stays absent.
    let after = set_icon(feed, None);
    assert_eq!(after, before);
    // The icon download succeeded: only the icon changes.
    let with = set_icon(after, Some("/cache/53697465".to_string()));
    assert_eq!(with.title, before.title);
    assert_eq!(with.source, before.source);
    assert_eq!(with.description, before.description);
    assert_eq!(with.url, before.url);
    assert_eq!(with.posts, before.posts);
    assert_eq!(with.icon.as_deref(), Some("/cache/53697465"));
}

#[test]
fn icon_file_name_is_hex_of_title_bytes() {
    assert_eq!(icon_file_name("Example"), "4578616d706c65");
    assert_eq!(icon_file_name("Example"), hex::encode("Example"));
    assert_eq!(icon_file_name("ünïcode"), hex::encode("ünïcode".as_bytes()));
    assert_eq!(icon_file_name(""), "");
}

#[test]
fn error_variants_carry_their_data() {
    let io = Error::LocalIo { detail: "disk full".to_string() };
    assert!(matches!(io, Error::LocalIo { .. }));
    let cfg = Error::ConfigDirUnavailable;
    assert!(matches!(cfg, Error::ConfigDirUnavailable));
}

#[test]
fn feed_and_post_values_compare_by_fields() {
    let p = Post {
        title: "t".to_string(),
        summary: None,
        url: "u".to_string(),
        publisher: "pb".to_string(),
        published: 1,
    };
    let f = Feed {
        title: "t".to_string(),
        source: "s".to_string(),
        description: None,
        url: None,
        icon: None,
        posts: vec![p.clone()],
    };
    assert_eq!(f, f.clone());
}

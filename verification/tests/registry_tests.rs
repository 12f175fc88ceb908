use feedcore::registry::{parse_sources, render_sources, source_line};

#[test]
fn source_line_appends_newline() {
    assert_eq!(source_line("https://example.org/feed"), "https://example.org/feed\n");
}

#[test]
fn add_then_list_has_source_last() {
    // An empty store, then two appended sources: listing returns them in
    // order, the last added one last, byte for byte.
    let mut store = String::new();
    store.push_str(&source_line("https://a.example/feed"));
    let listed = parse_sources(&store);
    assert_eq!(listed, vec!["https://a.example/feed".to_string()]);

    store.push_str(&source_line("https://b.example/feed"));
    let listed = parse_sources(&store);
    assert_eq!(listed.len(), 2);
    assert_eq!(listed.last().unwrap(), "https://b.example/feed");
}

#[test]
fn replace_then_list_returns_exactly_the_list() {
    let sources = vec!["a".to_string(), "b".to_string()];
    let store = render_sources(&sources);
    assert_eq!(store, "a\nb\n");
    assert_eq!(parse_sources(&store), sources);
}

#[test]
fn replace_with_empty_list_writes_one_newline() {
    let store = render_sources(&Vec::new());
    assert_eq!(store, "\n");
    assert_eq!(parse_sources(&store), Vec::<String>::new());
}

#[test]
fn list_discards_blank_lines_and_preserves_order() {
    let listed = parse_sources("first\n\n   \n\tsecond\nthird\n  \n");
    assert_eq!(
        listed,
        vec!["first".to_string(), "\tsecond".to_string(), "third".to_string()]
    );
}

#[test]
fn list_of_empty_text_is_empty() {
    assert_eq!(parse_sources(""), Vec::<String>::new());
}

#[test]
fn list_keeps_line_without_trailing_newline() {
    assert_eq!(parse_sources("lonely"), vec!["lonely".to_string()]);
}

#[test]
fn list_twice_is_identical() {
    let store = "one\ntwo\n\nthree\n";
    let first = parse_sources(store);
    let second = parse_sources(store);
    assert_eq!(first, second);
}

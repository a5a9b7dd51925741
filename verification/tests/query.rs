use newsdata_io::QueryMap;

fn pair(key: &str, value: &str) -> (String, String) {
    (key.to_string(), value.to_string())
}

#[test]
fn new_map_is_empty() {
    let query = QueryMap::new();
    assert_eq!(query.len(), 0);
    assert!(query.entries().is_empty());
    assert!(!query.contains_key("language"));
    assert!(query.get("language").is_none());
}

#[test]
fn insert_adds_an_entry() {
    let mut query = QueryMap::new();
    query.insert("language".to_string(), "en".to_string());
    assert_eq!(query.len(), 1);
    assert!(query.contains_key("language"));
    assert_eq!(query.get("language"), Some(&"en".to_string()));
    assert!(!query.contains_key("Language"));
    assert!(!query.contains_key("en"));
}

#[test]
fn entries_keep_the_order_of_first_insertion() {
    let mut query = QueryMap::new();
    query.insert("q".to_string(), "rust".to_string());
    query.insert("language".to_string(), "en".to_string());
    query.insert("country".to_string(), "us,gb".to_string());
    assert_eq!(
        query.entries(),
        &vec![pair("q", "rust"), pair("language", "en"), pair("country", "us,gb")]
    );
}

#[test]
fn last_write_wins_and_keeps_the_place() {
    let mut query = QueryMap::new();
    query.insert("q".to_string(), "rust".to_string());
    query.insert("language".to_string(), "en".to_string());
    query.insert("q".to_string(), "verus".to_string());
    assert_eq!(query.len(), 2);
    assert_eq!(query.get("q"), Some(&"verus".to_string()));
    assert_eq!(query.entries(), &vec![pair("q", "verus"), pair("language", "en")]);
}

#[test]
fn keys_are_compared_whole() {
    let mut query = QueryMap::new();
    query.insert("domain".to_string(), "bbc".to_string());
    query.insert("domainurl".to_string(), "bbc.com".to_string());
    query.insert("".to_string(), "empty".to_string());
    assert_eq!(query.len(), 3);
    assert_eq!(query.get("domain"), Some(&"bbc".to_string()));
    assert_eq!(query.get("domainurl"), Some(&"bbc.com".to_string()));
    assert_eq!(query.get(""), Some(&"empty".to_string()));
    assert!(query.get("domainur").is_none());
}

#[test]
fn into_entries_gives_what_entries_shows() {
    let mut query = QueryMap::new();
    query.insert("size".to_string(), "10".to_string());
    query.insert("page".to_string(), "abc".to_string());
    let shown = query.entries().clone();
    assert_eq!(query.into_entries(), shown);
}

use newsdata_io::apis::fields::{build_query, Field};
use newsdata_io::apis::{
    Flag, GetCryptoNewsParams, GetLatestNewsParams, GetNewsArchiveParams, GetNewsSourcesParams,
};
use newsdata_io::{Auth, QueryMap};

fn pair(key: &str, value: &str) -> (String, String) {
    (key.to_string(), value.to_string())
}

fn text(value: &str) -> Option<String> {
    Some(value.to_string())
}

fn list(items: &[&str]) -> Option<Vec<String>> {
    Some(items.iter().map(|item| item.to_string()).collect())
}

fn full_latest() -> GetLatestNewsParams {
    GetLatestNewsParams {
        id: list(&["a1", "b2"]),
        q: text("rust"),
        q_in_title: text("title words"),
        q_in_meta: text("meta words"),
        timeframe: text("15m"),
        country: list(&["us", "gb"]),
        category: list(&["top", "world"]),
        exclude_category: list(&["sports"]),
        language: text("en"),
        tag: text("ai"),
        sentiment: text("positive"),
        region: text("berlin"),
        domain: text("bbc"),
        exclude_domain: text("example.com"),
        domain_url: text("bbc.com"),
        exclude_field: text("pubDate"),
        priority_domain: text("top"),
        timezone: text("Europe/Berlin"),
        full_content: Some(Flag::True),
        image: Some(Flag::False),
        video: Some(Flag::True),
        size: Some(25),
        page: text("XYZ123"),
    }
}

const RENAMED_FIELDS: [&str; 7] = [
    "q_in_title",
    "q_in_meta",
    "exclude_domain",
    "exclude_field",
    "priority_domain",
    "exclude_category",
    "domain_url",
];

fn assert_no_renamed_field(query: &QueryMap) {
    for name in RENAMED_FIELDS {
        assert!(!query.contains_key(name), "{name} is a key");
    }
}

#[test]
fn flag_values() {
    assert_eq!(Flag::True.value(), "1");
    assert_eq!(Flag::False.value(), "0");
}

#[test]
fn default_parameters_give_an_empty_query() {
    assert_eq!(GetLatestNewsParams::default().query_params().len(), 0);
    assert_eq!(GetCryptoNewsParams::default().query_params().len(), 0);
    assert_eq!(GetNewsArchiveParams::default().query_params().len(), 0);
    assert_eq!(GetNewsSourcesParams::default().query_params().len(), 0);
}

#[test]
fn default_trait_agrees_with_default() {
    let params: GetLatestNewsParams = Default::default();
    assert!(params.id.is_none() && params.size.is_none() && params.full_content.is_none());
    assert_eq!(params.query_params().len(), 0);
    let params: GetNewsSourcesParams = Default::default();
    assert_eq!(params.query_params().len(), 0);
}

#[test]
fn latest_category_and_language() {
    let mut params = GetLatestNewsParams::default();
    params.category = list(&["top", "world"]);
    params.language = text("en");
    let query = params.query_params();
    assert_eq!(query.entries(), &vec![pair("category", "top,world"), pair("language", "en")]);
    let request = params.request(&Auth::new("KEY".to_string()));
    assert_eq!(request.url, "https://newsdata.io/api/1/latest");
    assert_eq!(
        request.query,
        vec![pair("apikey", "KEY"), pair("category", "top,world"), pair("language", "en")]
    );
    assert_eq!(request.headers, vec![pair("Content-Type", "application/json")]);
}

#[test]
fn latest_with_every_field_set() {
    let query = full_latest().query_params();
    assert_eq!(
        query.entries(),
        &vec![
            pair("id", "a1,b2"),
            pair("q", "rust"),
            pair("qInTitle", "title words"),
            pair("qInMeta", "meta words"),
            pair("timeframe", "15m"),
            pair("country", "us,gb"),
            pair("category", "top,world"),
            pair("excludecategory", "sports"),
            pair("language", "en"),
            pair("tag", "ai"),
            pair("sentiment", "positive"),
            pair("region", "berlin"),
            pair("domain", "bbc"),
            pair("excludedomain", "example.com"),
            pair("domainurl", "bbc.com"),
            pair("excludefield", "pubDate"),
            pair("prioritydomain", "top"),
            pair("timezone", "Europe/Berlin"),
            pair("full_content", "1"),
            pair("image", "0"),
            pair("video", "1"),
            pair("size", "25"),
            pair("page", "XYZ123"),
        ]
    );
    assert_eq!(query.len(), 23);
    assert_no_renamed_field(&query);
}

#[test]
fn crypto_with_every_field_set() {
    let params = GetCryptoNewsParams {
        id: list(&["a1"]),
        coin: list(&["btc", "eth"]),
        q: text("halving"),
        q_in_title: text("t"),
        q_in_meta: text("m"),
        timeframe: text("6"),
        language: text("en"),
        tag: text("blockchain"),
        sentiment: text("neutral"),
        domain: text("coindesk"),
        exclude_domain: text("example.com"),
        domain_url: text("coindesk.com"),
        exclude_field: text("content"),
        priority_domain: text("medium"),
        timezone: text("UTC"),
        full_content: Some(Flag::False),
        image: Some(Flag::True),
        video: Some(Flag::False),
        size: Some(1),
        page: text("next"),
    };
    let query = params.query_params();
    assert_eq!(
        query.entries(),
        &vec![
            pair("id", "a1"),
            pair("coin", "btc,eth"),
            pair("q", "halving"),
            pair("qInTitle", "t"),
            pair("qInMeta", "m"),
            pair("timeframe", "6"),
            pair("language", "en"),
            pair("tag", "blockchain"),
            pair("sentiment", "neutral"),
            pair("domain", "coindesk"),
            pair("excludedomain", "example.com"),
            pair("domainurl", "coindesk.com"),
            pair("excludefield", "content"),
            pair("prioritydomain", "medium"),
            pair("timezone", "UTC"),
            pair("full_content", "0"),
            pair("image", "1"),
            pair("video", "0"),
            pair("size", "1"),
            pair("page", "next"),
        ]
    );
    assert_no_renamed_field(&query);
    let request = params.request(&Auth::new("k".to_string()));
    assert_eq!(request.url, "https://newsdata.io/api/1/crypto");
    assert_eq!(request.query.len(), 21);
    assert_eq!(request.query[0], pair("apikey", "k"));
}

#[test]
fn archive_with_every_field_set() {
    let params = GetNewsArchiveParams {
        id: list(&["a1", "b2", "c3"]),
        from_date: text("2024-01-01"),
        to_date: text("2024-01-31"),
        q: text("election"),
        q_in_title: text("t"),
        q_in_meta: text("m"),
        country: list(&["fr"]),
        category: list(&["politics"]),
        exclude_category: list(&["sports", "food"]),
        language: text("fr"),
        domain: text("lemonde"),
        exclude_domain: text("example.com"),
        domain_url: text("lemonde.fr"),
        exclude_field: text("image_url"),
        priority_domain: text("low"),
        timezone: text("Europe/Paris"),
        full_content: Some(Flag::True),
        image: Some(Flag::True),
        video: Some(Flag::False),
        size: Some(50),
        page: text("cursor-2"),
    };
    let query = params.query_params();
    assert_eq!(
        query.entries(),
        &vec![
            pair("id", "a1,b2,c3"),
            pair("from_date", "2024-01-01"),
            pair("to_date", "2024-01-31"),
            pair("q", "election"),
            pair("qInTitle", "t"),
            pair("qInMeta", "m"),
            pair("country", "fr"),
            pair("category", "politics"),
            pair("excludecategory", "sports,food"),
            pair("language", "fr"),
            pair("domain", "lemonde"),
            pair("excludedomain", "example.com"),
            pair("domainurl", "lemonde.fr"),
            pair("excludefield", "image_url"),
            pair("prioritydomain", "low"),
            pair("timezone", "Europe/Paris"),
            pair("full_content", "1"),
            pair("image", "1"),
            pair("video", "0"),
            pair("size", "50"),
            pair("page", "cursor-2"),
        ]
    );
    assert_no_renamed_field(&query);
    let request = params.request(&Auth::new("k".to_string()));
    assert_eq!(request.url, "https://newsdata.io/api/1/archive");
}

#[test]
fn sources_with_every_field_set() {
    let params = GetNewsSourcesParams {
        id: list(&["bbc", "cnn"]),
        country: list(&["us", "gb"]),
        category: list(&["top"]),
        exclude_category: list(&["crime"]),
        language: text("en"),
        priority_domain: text("top"),
    };
    let query = params.query_params();
    assert_eq!(
        query.entries(),
        &vec![
            pair("id", "bbc,cnn"),
            pair("country", "us,gb"),
            pair("category", "top"),
            pair("excludecategory", "crime"),
            pair("language", "en"),
            pair("prioritydomain", "top"),
        ]
    );
    assert_no_renamed_field(&query);
    let request = params.request(&Auth::new("k".to_string()));
    assert_eq!(request.url, "https://newsdata.io/api/1/sources");
}

#[test]
fn unset_fields_leave_no_key() {
    let mut params = full_latest();
    params.q = None;
    params.country = None;
    params.image = None;
    params.size = None;
    let query = params.query_params();
    assert_eq!(query.len(), 19);
    for name in ["q", "country", "image", "size"] {
        assert!(!query.contains_key(name));
    }
    for name in ["id", "qInTitle", "full_content", "video", "page"] {
        assert!(query.contains_key(name));
    }
}

#[test]
fn an_empty_list_is_sent_as_an_empty_value() {
    let mut params = GetNewsSourcesParams::default();
    params.country = Some(Vec::new());
    let query = params.query_params();
    assert_eq!(query.entries(), &vec![pair("country", "")]);
}

#[test]
fn text_is_passed_on_verbatim() {
    let mut params = GetLatestNewsParams::default();
    params.q = text("a b&c=d,e?f/ü \"quoted\"");
    params.page = text("  17289  ");
    let query = params.query_params();
    assert_eq!(query.get("q"), Some(&"a b&c=d,e?f/ü \"quoted\"".to_string()));
    assert_eq!(query.get("page"), Some(&"  17289  ".to_string()));
}

#[test]
fn flags_are_one_or_zero() {
    for (flag, written) in [(Flag::True, "1"), (Flag::False, "0")] {
        let mut params = GetNewsArchiveParams::default();
        params.full_content = Some(flag);
        params.image = Some(flag);
        params.video = Some(flag);
        let query = params.query_params();
        assert_eq!(
            query.entries(),
            &vec![pair("full_content", written), pair("image", written), pair("video", written)]
        );
    }
}

#[test]
fn size_is_written_in_decimal() {
    for (size, written) in [(1, "1"), (50, "50"), (0, "0"), (-3, "-3"), (i32::MIN, "-2147483648")] {
        let mut params = GetCryptoNewsParams::default();
        params.size = Some(size);
        assert_eq!(params.query_params().entries(), &vec![pair("size", written)]);
    }
}

#[test]
fn search_fields_are_not_checked_against_each_other() {
    let mut params = GetLatestNewsParams::default();
    params.q = text("a");
    params.q_in_title = text("b");
    params.q_in_meta = text("c");
    params.category = list(&["top"]);
    params.exclude_category = list(&["top"]);
    let query = params.query_params();
    assert_eq!(
        query.entries(),
        &vec![
            pair("q", "a"),
            pair("qInTitle", "b"),
            pair("qInMeta", "c"),
            pair("category", "top"),
            pair("excludecategory", "top"),
        ]
    );
}

#[test]
fn same_parameters_give_the_same_query() {
    let first = full_latest().query_params();
    let second = full_latest().query_params();
    assert_eq!(first.entries(), second.entries());
    let params = full_latest();
    assert_eq!(params.query_params().entries(), params.query_params().entries());
    let auth = Auth::new("KEY".to_string());
    let one = params.request(&auth);
    let two = params.request(&auth);
    assert_eq!(one.url, two.url);
    assert_eq!(one.query, two.query);
    assert_eq!(one.headers, two.headers);
}

#[test]
fn fields_encode_by_kind() {
    let field = Field::text("q", &text("rust"));
    assert_eq!((field.name, field.value), ("q", text("rust")));
    let field = Field::list("country", &list(&["us", "gb"]));
    assert_eq!((field.name, field.value), ("country", text("us,gb")));
    let field = Field::flag("image", &Some(Flag::True));
    assert_eq!((field.name, field.value), ("image", text("1")));
    let field = Field::integer("size", &Some(12));
    assert_eq!((field.name, field.value), ("size", text("12")));
    assert!(Field::text("q", &None).value.is_none());
    assert!(Field::list("id", &None).value.is_none());
    assert!(Field::flag("video", &None).value.is_none());
    assert!(Field::integer("size", &None).value.is_none());
}

#[test]
fn build_query_skips_unset_fields_and_lets_the_last_write_win() {
    let fields = vec![
        Field { name: "a", value: text("1") },
        Field { name: "b", value: None },
        Field { name: "c", value: text("3") },
        Field { name: "a", value: text("4") },
    ];
    let query = build_query(&fields);
    assert_eq!(query.entries(), &vec![pair("a", "4"), pair("c", "3")]);
}

use newsmap::FieldName;
use newsmap::JsonValue;
use newsmap::MappingError;
use newsmap::Status;
use newsmap::map_news;

fn jstr(s: &str) -> JsonValue {
    JsonValue::Str(s.to_string())
}

fn jobj(pairs: Vec<(&str, JsonValue)>) -> JsonValue {
    JsonValue::Obj(pairs.into_iter().map(|(k, v)| (k.to_string(), v)).collect())
}

fn article_elem(source: &str, author: JsonValue, title: &str, published: &str) -> JsonValue {
    jobj(vec![
        ("source", jobj(vec![("name", jstr(source))])),
        ("author", author),
        ("title", jstr(title)),
        ("description", jstr("a description")),
        ("url", jstr("https://example.com/a")),
        ("publishedAt", jstr(published)),
        ("content", jstr("some content")),
    ])
}

fn news_payload(status: &str, total: u64, articles: Vec<JsonValue>) -> JsonValue {
    jobj(vec![
        ("status", jstr(status)),
        ("totalResults", JsonValue::Num(Some(total))),
        ("articles", JsonValue::Arr(articles)),
    ])
}

#[test]
fn ok_status_maps_to_okay() {
    let v = news_payload("ok", 3, vec![]);
    let news = map_news(&v).unwrap();
    assert_eq!(news.status, Status::Okay);
    assert_eq!(news.total_results, 3);
}

#[test]
fn error_status_still_maps() {
    let v = news_payload("error", 0, vec![]);
    let news = map_news(&v).unwrap();
    assert_eq!(news.status, Status::Error);
}

#[test]
fn unknown_status_fails_with_status_parse() {
    let v = news_payload("degraded", 1, vec![]);
    let err = map_news(&v).unwrap_err();
    assert_eq!(err, MappingError::StatusParse("degraded".to_string()));
    assert_eq!(err.message(), "status parsing failed: degraded");
}

#[test]
fn status_match_is_exact() {
    for raw in ["Ok", "OK", " ok", "ok ", "Error", ""] {
        let v = news_payload(raw, 1, vec![]);
        assert!(matches!(map_news(&v), Err(MappingError::StatusParse(_))));
    }
}

#[test]
fn article_count_preserved() {
    let arts = vec![
        article_elem("A", jstr("alice"), "first", "2021-01-09T04:55:00Z"),
        article_elem("B", jstr("bob"), "second", "2021-01-09T05:55:00Z"),
        article_elem("C", jstr("carol"), "third", "2021-01-09T06:55:00Z"),
    ];
    let v = news_payload("ok", 30, arts);
    let news = map_news(&v).unwrap();
    assert_eq!(news.get_num_articles(), 3);
    assert_eq!(news.articles.len(), 3);
}

#[test]
fn empty_articles_array_is_valid() {
    let v = news_payload("ok", 0, vec![]);
    let news = map_news(&v).unwrap();
    assert_eq!(news.get_num_articles(), 0);
}

#[test]
fn article_order_preserved() {
    let arts = vec![
        article_elem("A", jstr("alice"), "first", ""),
        article_elem("B", jstr("bob"), "second", ""),
        article_elem("C", jstr("carol"), "third", ""),
    ];
    let v = news_payload("ok", 3, arts);
    let news = map_news(&v).unwrap();
    assert_eq!(news.articles[0].title, "first");
    assert_eq!(news.articles[1].title, "second");
    assert_eq!(news.articles[2].title, "third");
    assert_eq!(news.article_at(1).title, "second");
}

#[test]
fn null_author_maps_to_empty_string() {
    let v = news_payload(
        "ok",
        1,
        vec![article_elem("The Source", JsonValue::Null, "a title", "2021-01-09T04:55:00Z")],
    );
    let news = map_news(&v).unwrap();
    let a = &news.articles[0];
    assert_eq!(a.author, "");
    assert_eq!(a.source_name, "The Source");
    assert_eq!(a.title, "a title");
    assert_eq!(a.desc, "a description");
    assert_eq!(a.url, "https://example.com/a");
    assert_eq!(a.published_at, "2021-01-09T04:55:00Z");
    assert_eq!(a.content, "some content");
}

#[test]
fn absent_author_maps_to_empty_string() {
    let elem = jobj(vec![("title", jstr("headline"))]);
    let v = news_payload("ok", 1, vec![elem]);
    let news = map_news(&v).unwrap();
    assert_eq!(news.articles[0].author, "");
    assert_eq!(news.articles[0].title, "headline");
}

#[test]
fn article_timestamp_normalizes_to_epoch() {
    let v = news_payload(
        "ok",
        1,
        vec![article_elem("A", jstr("alice"), "dated", "2021-01-09T04:55:00+01:00")],
    );
    let news = map_news(&v).unwrap();
    let a = &news.articles[0];
    assert_eq!(a.epoch, Some(1610164500));
    assert!(!a.has_timestamp_warning());
}

#[test]
fn bad_timestamp_kept_verbatim_with_warning() {
    let v = news_payload(
        "ok",
        2,
        vec![
            article_elem("A", jstr("alice"), "dated", "2021-01-09T04:55:00Z"),
            article_elem("B", jstr("bob"), "undated", "not-a-date"),
        ],
    );
    let news = map_news(&v).unwrap();
    assert_eq!(news.get_num_articles(), 2);
    let bad = &news.articles[1];
    assert_eq!(bad.published_at, "not-a-date");
    assert_eq!(bad.epoch, None);
    assert!(bad.has_timestamp_warning());
    assert_eq!(bad.title, "undated");
    assert!(!news.articles[0].has_timestamp_warning());
}

#[test]
fn empty_timestamp_gives_no_warning() {
    let v = news_payload("ok", 1, vec![article_elem("A", jstr("alice"), "t", "")]);
    let news = map_news(&v).unwrap();
    assert_eq!(news.articles[0].epoch, None);
    assert!(!news.articles[0].has_timestamp_warning());
}

#[test]
fn missing_total_results_fails() {
    let v = jobj(vec![
        ("status", jstr("ok")),
        ("articles", JsonValue::Arr(vec![])),
    ]);
    let err = map_news(&v).unwrap_err();
    assert_eq!(err, MappingError::FieldType(FieldName::TotalResults));
    assert_eq!(FieldName::TotalResults.text(), "totalResults");
    assert_eq!(err.message(), "missing or mistyped field: totalResults");
}

#[test]
fn non_integer_total_results_fails() {
    let v = jobj(vec![
        ("status", jstr("ok")),
        ("totalResults", JsonValue::Num(None)),
        ("articles", JsonValue::Arr(vec![])),
    ]);
    assert_eq!(
        map_news(&v).unwrap_err(),
        MappingError::FieldType(FieldName::TotalResults)
    );
    let v2 = jobj(vec![
        ("status", jstr("ok")),
        ("totalResults", jstr("42")),
        ("articles", JsonValue::Arr(vec![])),
    ]);
    assert_eq!(
        map_news(&v2).unwrap_err(),
        MappingError::FieldType(FieldName::TotalResults)
    );
}

#[test]
fn missing_articles_fails() {
    let v = jobj(vec![
        ("status", jstr("ok")),
        ("totalResults", JsonValue::Num(Some(0))),
    ]);
    assert_eq!(
        map_news(&v).unwrap_err(),
        MappingError::FieldType(FieldName::Articles)
    );
}

#[test]
fn non_array_articles_fails() {
    let v = jobj(vec![
        ("status", jstr("ok")),
        ("totalResults", JsonValue::Num(Some(0))),
        ("articles", jstr("none")),
    ]);
    assert_eq!(
        map_news(&v).unwrap_err(),
        MappingError::FieldType(FieldName::Articles)
    );
}

#[test]
fn missing_status_fails() {
    let v = jobj(vec![
        ("totalResults", JsonValue::Num(Some(0))),
        ("articles", JsonValue::Arr(vec![])),
    ]);
    assert_eq!(
        map_news(&v).unwrap_err(),
        MappingError::FieldType(FieldName::Status)
    );
}

#[test]
fn non_object_root_fails() {
    let v = JsonValue::Arr(vec![]);
    assert_eq!(
        map_news(&v).unwrap_err(),
        MappingError::FieldType(FieldName::Status)
    );
}

#[test]
fn non_object_article_element_maps_to_empty_article() {
    let v = news_payload("ok", 1, vec![jstr("not an object")]);
    let news = map_news(&v).unwrap();
    assert_eq!(news.get_num_articles(), 1);
    let a = &news.articles[0];
    assert_eq!(a.title, "");
    assert_eq!(a.author, "");
    assert_eq!(a.epoch, None);
}

#[test]
fn non_string_optional_field_maps_to_empty_string() {
    let elem = jobj(vec![
        ("title", JsonValue::Num(Some(7))),
        ("author", JsonValue::Bool(true)),
    ]);
    let v = news_payload("ok", 1, vec![elem]);
    let news = map_news(&v).unwrap();
    assert_eq!(news.articles[0].title, "");
    assert_eq!(news.articles[0].author, "");
}

#[test]
fn duplicate_keys_first_wins() {
    let v = jobj(vec![
        ("status", jstr("ok")),
        ("status", jstr("error")),
        ("totalResults", JsonValue::Num(Some(0))),
        ("articles", JsonValue::Arr(vec![])),
    ]);
    let news = map_news(&v).unwrap();
    assert_eq!(news.status, Status::Okay);
}

#[test]
fn mapping_is_deterministic() {
    let v = news_payload(
        "ok",
        2,
        vec![
            article_elem("A", JsonValue::Null, "first", "2021-01-09T04:55:00Z"),
            article_elem("B", jstr("bob"), "second", "not-a-date"),
        ],
    );
    let r1 = map_news(&v);
    let r2 = map_news(&v);
    assert_eq!(r1, r2);
    let bad = news_payload("hmm", 2, vec![]);
    assert_eq!(map_news(&bad), map_news(&bad));
}

#[test]
fn render_lists_fields_line_by_line() {
    let v = news_payload(
        "ok",
        1,
        vec![article_elem("Src", jstr("ann"), "headline", "")],
    );
    let news = map_news(&v).unwrap();
    assert_eq!(
        news.articles[0].render(),
        "Src\nann\nheadline\na description\nhttps://example.com/a\n\nsome content"
    );
}

#[test]
fn add_article_keeps_order_and_derives_epoch() {
    let mut news = newsmap::News::new(Status::Okay, 10);
    assert_eq!(news.get_num_articles(), 0);
    news.add_article(
        "s".to_string(),
        "a".to_string(),
        "t1".to_string(),
        "d".to_string(),
        "u".to_string(),
        "2021-01-09T04:55:00Z".to_string(),
        "c".to_string(),
    );
    news.add_article(
        "s".to_string(),
        "a".to_string(),
        "t2".to_string(),
        "d".to_string(),
        "u".to_string(),
        "".to_string(),
        "c".to_string(),
    );
    assert_eq!(news.get_num_articles(), 2);
    assert_eq!(news.articles[0].title, "t1");
    assert_eq!(news.articles[0].epoch, Some(1610168100));
    assert_eq!(news.articles[1].title, "t2");
    assert_eq!(news.articles[1].epoch, None);
}

use podreader::extraction::{
    ArticleRecord, Extract, ExtractError, ExtractorApi, ExtractorApiResponse, FetchFailure,
    Ujeebu, UjeebuArticle, UjeebuResponse,
};
use podreader::json::JsonValue;

fn tree(v: serde_json::Value) -> JsonValue {
    match v {
        serde_json::Value::Null => JsonValue::Null,
        serde_json::Value::Bool(b) => JsonValue::Bool(b),
        serde_json::Value::Number(n) => JsonValue::Number(n.as_i64()),
        serde_json::Value::String(s) => JsonValue::Str(s),
        serde_json::Value::Array(items) => JsonValue::Array(items.into_iter().map(tree).collect()),
        serde_json::Value::Object(m) => {
            JsonValue::Object(m.into_iter().map(|(k, v)| (k, tree(v))).collect())
        }
    }
}

fn reply(body: &str) -> Result<JsonValue, FetchFailure> {
    match serde_json::from_str::<serde_json::Value>(body) {
        Ok(v) => Ok(tree(v)),
        Err(_) => Err(FetchFailure::Malformed),
    }
}

fn record(title: &str, html: &str, text: &str) -> ArticleRecord {
    ArticleRecord { title: title.to_string(), html: html.to_string(), text: text.to_string() }
}

fn extractor() -> ExtractorApi {
    ExtractorApi {
        api_key: "k1".to_string(),
        endpoint: "https://api.example.com/extract".to_string(),
    }
}

fn ujeebu() -> Ujeebu {
    Ujeebu { api_key: "u-key".to_string(), endpoint: "https://api.ujeebu.com/extract".to_string() }
}

const EXTRACTOR_BODY: &str = r#"{"title":"T","html":"<p>H</p>","text":"H","status":"ok","status_code":200,"domain":"news.example","author":[],"images":[],"videos":[]}"#;

fn ujeebu_body(title: &str, html: &str, text: &str) -> String {
    format!(
        r#"{{"article":{{"text":"{text}","html":"{html}","images":["https://news.example/i.png"],"author":"A","pub_date":"2024-01-01","is_article":1,"url":"https://news.example/a","canonical_url":"https://news.example/a","title":"{title}","language":"en","image":"https://news.example/i.png","summary":"S","modified_date":"2024-01-02","site_name":"News","favicon":"https://news.example/f.ico","encoding":"utf-8"}},"time":0.1,"js":false,"pagination":false}}"#
    )
}

#[test]
fn extractor_api_scenario() {
    let api = extractor();
    let req = api.request("https://news.example/a").unwrap();
    assert_eq!(
        req.url,
        "https://api.example.com/extract?apikey=k1&url=https%3A%2F%2Fnews.example%2Fa"
    );
    assert!(req.headers.is_empty());
    let rec = api.record_from_reply(reply(EXTRACTOR_BODY)).unwrap();
    assert_eq!(rec, record("T", "<p>H</p>", "H"));
}

#[test]
fn ujeebu_scenario() {
    let rec = ujeebu().record_from_reply(reply(&ujeebu_body("T2", "<p>H2</p>", "H2"))).unwrap();
    assert_eq!(rec, record("T2", "<p>H2</p>", "H2"));
}

#[test]
fn ujeebu_request_headers() {
    let req = ujeebu().request("https://news.example/a?b=1 c").unwrap();
    assert_eq!(req.url, "https://api.ujeebu.com/extract?url=https%3A%2F%2Fnews.example%2Fa%3Fb%3D1+c");
    let expected = vec![
        ("Access-Control-Allow-Origin".to_string(), "*".to_string()),
        ("Aceess-Control-Allow-Credentials".to_string(), "true".to_string()),
        ("ApiKey".to_string(), "u-key".to_string()),
    ];
    assert_eq!(req.headers, expected);
}

#[test]
fn extractor_fields_follow_source() {
    let body = r#"{"url":"https://news.example/b","title":"Other","html":"<h1>x</h1>","text":"x","status":"ok","status_code":201,"domain":"d","author":["a","b"],"date_published":null,"images":["i"],"videos":[],"extra":5}"#;
    let rec = extractor().record_from_reply(reply(body)).unwrap();
    assert_eq!(rec, record("Other", "<h1>x</h1>", "x"));
    let resp = ExtractorApiResponse::from_json(&reply(body).unwrap()).unwrap();
    assert_eq!(resp.url, "https://news.example/b");
    assert_eq!(resp.status_code, 201);
    assert_eq!(resp.author, vec!["a".to_string(), "b".to_string()]);
    assert_eq!(resp.date_published, None);
    assert_eq!(resp.images, vec!["i".to_string()]);
}

#[test]
fn extractor_missing_url_is_empty() {
    let resp = ExtractorApiResponse::from_json(&reply(EXTRACTOR_BODY).unwrap()).unwrap();
    assert_eq!(resp.url, "");
    assert_eq!(resp.domain, "news.example");
    assert_eq!(resp.date_published, None);
}

#[test]
fn extractor_date_published_kept() {
    let body = r#"{"title":"T","html":"h","text":"t","status":"ok","status_code":200,"domain":"d","author":[],"date_published":"2024-05-01","images":[],"videos":[]}"#;
    let resp = ExtractorApiResponse::from_json(&reply(body).unwrap()).unwrap();
    assert_eq!(resp.date_published, Some("2024-05-01".to_string()));
}

#[test]
fn ujeebu_fields_follow_source() {
    let resp = UjeebuResponse::from_json(&reply(&ujeebu_body("a", "b", "c")).unwrap()).unwrap();
    assert_eq!(resp.article.title, "a");
    assert_eq!(resp.article.is_article, 1);
    assert_eq!(resp.article.site_name, "News");
    assert!(!resp.js);
    assert!(!resp.pagination);
    let article: UjeebuArticle = resp.article.clone();
    assert_eq!(article.images, vec!["https://news.example/i.png".to_string()]);
}

#[test]
fn malformed_bodies_are_errors() {
    let truncated = &EXTRACTOR_BODY[..40];
    assert_eq!(extractor().record_from_reply(reply(truncated)), Err(ExtractError::MalformedBody));
    let body = ujeebu_body("T2", "<p>H2</p>", "H2");
    let truncated = &body[..body.len() - 3];
    assert_eq!(ujeebu().record_from_reply(reply(truncated)), Err(ExtractError::MalformedBody));
    assert_eq!(extractor().record_from_reply(reply("not json")), Err(ExtractError::MalformedBody));
}

#[test]
fn schema_mismatch_is_error() {
    let missing_title = r#"{"html":"h","text":"t","status":"ok","status_code":200,"domain":"d","author":[],"images":[],"videos":[]}"#;
    assert_eq!(extractor().record_from_reply(reply(missing_title)), Err(ExtractError::Schema));
    let float_code = r#"{"title":"T","html":"h","text":"t","status":"ok","status_code":200.5,"domain":"d","author":[],"images":[],"videos":[]}"#;
    assert_eq!(extractor().record_from_reply(reply(float_code)), Err(ExtractError::Schema));
    let bad_author = r#"{"title":"T","html":"h","text":"t","status":"ok","status_code":200,"domain":"d","author":[1],"images":[],"videos":[]}"#;
    assert_eq!(extractor().record_from_reply(reply(bad_author)), Err(ExtractError::Schema));
    let bad_date = r#"{"title":"T","html":"h","text":"t","status":"ok","status_code":200,"domain":"d","author":[],"date_published":3,"images":[],"videos":[]}"#;
    assert_eq!(extractor().record_from_reply(reply(bad_date)), Err(ExtractError::Schema));
    assert_eq!(extractor().record_from_reply(reply("[]")), Err(ExtractError::Schema));
    let flat = ujeebu_body("T", "h", "t").replace(r#""time":0.1"#, r#""time":"soon""#);
    assert_eq!(ujeebu().record_from_reply(reply(&flat)), Err(ExtractError::Schema));
    assert_eq!(ujeebu().record_from_reply(reply(EXTRACTOR_BODY)), Err(ExtractError::Schema));
}

#[test]
fn transport_failure_is_error() {
    assert_eq!(extractor().record_from_reply(Err(FetchFailure::Transport)), Err(ExtractError::Transport));
    assert_eq!(ujeebu().record_from_reply(Err(FetchFailure::Transport)), Err(ExtractError::Transport));
}

#[test]
fn invalid_endpoint_is_error() {
    let api = ExtractorApi { api_key: "k".to_string(), endpoint: "not a url".to_string() };
    assert!(matches!(api.request("https://news.example/a"), Err(ExtractError::InvalidEndpoint)));
    let u = Ujeebu { api_key: "k".to_string(), endpoint: "/relative".to_string() };
    assert!(matches!(u.request("https://news.example/a"), Err(ExtractError::InvalidEndpoint)));
}

#[test]
fn endpoint_query_is_extended() {
    let api = ExtractorApi {
        api_key: "a b&c".to_string(),
        endpoint: "https://api.example.com/extract?v=2#top".to_string(),
    };
    let req = api.request("x").unwrap();
    assert_eq!(req.url, "https://api.example.com/extract?v=2&apikey=a+b%26c&url=x#top");
}

use vstd::prelude::*;
use vstd::string::*;

use crate::json::{
    boolean, field, field_of, flag_of, int_of, integer, is_number, text, text_list,
    text_list_of, text_of, JsonValue,
};

verus! {

/// The article that every backend is reduced to.
#[derive(Debug, Clone, PartialEq)]
pub struct ArticleRecord {
    pub title: String,
    pub html: String,
    pub text: String,
}

/// Why an extraction did not produce an article.
#[derive(Debug, PartialEq, Eq, Structural)]
pub enum ExtractError {
    /// The endpoint is not a URL that a query can be added to.
    InvalidEndpoint,
    /// The request URL would be longer than a URL may grow here.
    UrlTooLong,
    /// The request did not complete (DNS, connection, timeout).
    Transport,
    /// The body was not a JSON document.
    MalformedBody,
    /// The document lacks a field of the backend's reply, or holds one of another type.
    Schema,
}

/// Why a reply could not be handed over as a JSON document.
#[derive(Debug, PartialEq, Eq, Structural)]
pub enum FetchFailure {
    Transport,
    Malformed,
}

pub open spec fn opt_view(o: Option<String>) -> Option<Seq<char>> {
    match o {
        Some(s) => Some(s@),
        None => None,
    }
}

pub open spec fn views(l: Vec<String>) -> Seq<Seq<char>> {
    l@.map_values(|s: String| s@)
}

/// The string held by member `key` of `v`.
pub open spec fn text_field(v: JsonValue, key: Seq<char>) -> Option<Seq<char>> {
    match field_of(v, key) {
        Some(f) => text_of(f),
        None => None,
    }
}

pub open spec fn int_field(v: JsonValue, key: Seq<char>) -> Option<i64> {
    match field_of(v, key) {
        Some(f) => int_of(f),
        None => None,
    }
}

pub open spec fn flag_field(v: JsonValue, key: Seq<char>) -> Option<bool> {
    match field_of(v, key) {
        Some(f) => flag_of(f),
        None => None,
    }
}

pub open spec fn list_field(v: JsonValue, key: Seq<char>) -> Option<Seq<Seq<char>>> {
    match field_of(v, key) {
        Some(f) => text_list_of(f),
        None => None,
    }
}

pub open spec fn number_field(v: JsonValue, key: Seq<char>) -> bool {
    match field_of(v, key) {
        Some(f) => is_number(f),
        None => false,
    }
}

/// A member that may be absent or null, and is a string otherwise.
pub open spec fn optional_text_ok(v: JsonValue, key: Seq<char>) -> bool {
    match field_of(v, key) {
        Some(f) => f is Null || f is Str,
        None => true,
    }
}

pub open spec fn optional_text(v: JsonValue, key: Seq<char>) -> Option<Seq<char>> {
    match field_of(v, key) {
        Some(f) => text_of(f),
        None => None,
    }
}

fn text_member(v: &JsonValue, key: &str) -> (r: Option<String>)
    ensures
        opt_view(r) == text_field(*v, key@),
{
    match field(v, key) {
        Some(f) => text(f),
        None => None,
    }
}

fn int_member(v: &JsonValue, key: &str) -> (r: Option<i64>)
    ensures
        r == int_field(*v, key@),
{
    match field(v, key) {
        Some(f) => integer(f),
        None => None,
    }
}

fn flag_member(v: &JsonValue, key: &str) -> (r: Option<bool>)
    ensures
        r == flag_field(*v, key@),
{
    match field(v, key) {
        Some(f) => boolean(f),
        None => None,
    }
}

fn list_member(v: &JsonValue, key: &str) -> (r: Option<Vec<String>>)
    ensures
        match r {
            Some(l) => list_field(*v, key@) == Some(views(l)),
            None => list_field(*v, key@) is None,
        },
{
    match field(v, key) {
        Some(f) => text_list(f),
        None => None,
    }
}

fn number_member(v: &JsonValue, key: &str) -> (r: bool)
    ensures
        r == number_field(*v, key@),
{
    match field(v, key) {
        Some(JsonValue::Number(_)) => true,
        _ => false,
    }
}

/// `Ok(None)` where the member is absent or null, `Err(())` where it is neither nor a string.
fn optional_text_member(v: &JsonValue, key: &str) -> (r: Result<Option<String>, ()>)
    ensures
        r is Ok <==> optional_text_ok(*v, key@),
        r matches Ok(o) ==> opt_view(o) == optional_text(*v, key@),
{
    match field(v, key) {
        None => Ok(None),
        Some(JsonValue::Null) => Ok(None),
        Some(JsonValue::Str(s)) => Ok(Some(s.clone())),
        Some(_) => Err(()),
    }
}

/// The flat reply of the extractor API.
#[derive(Default, Debug, Clone, PartialEq)]
pub struct ExtractorApiResponse {
    pub url: String,
    pub status: String,
    pub status_code: i64,
    pub domain: String,
    pub title: String,
    pub author: Vec<String>,
    pub date_published: Option<String>,
    pub images: Vec<String>,
    pub videos: Vec<String>,
    pub text: String,
    pub html: String,
}

/// The `url` member of an extractor reply may be left out; where present it is a string.
pub open spec fn url_member_ok(v: JsonValue) -> bool {
    match field_of(v, "url"@) {
        Some(f) => f is Str,
        None => true,
    }
}

/// `v` has every member of an extractor reply, each of its type.
pub open spec fn extractor_reply_ok(v: JsonValue) -> bool {
    &&& url_member_ok(v)
    &&& text_field(v, "status"@) is Some
    &&& int_field(v, "status_code"@) is Some
    &&& text_field(v, "domain"@) is Some
    &&& text_field(v, "title"@) is Some
    &&& list_field(v, "author"@) is Some
    &&& optional_text_ok(v, "date_published"@)
    &&& list_field(v, "images"@) is Some
    &&& list_field(v, "videos"@) is Some
    &&& text_field(v, "text"@) is Some
    &&& text_field(v, "html"@) is Some
}

impl ExtractorApiResponse {
    /// Every field holds the member of `v` of the same name (an absent `url` as empty).
    pub open spec fn decoded_from(self, v: JsonValue) -> bool {
        &&& self.url@ == (match text_field(v, "url"@) {
            Some(u) => u,
            None => Seq::empty(),
        })
        &&& Some(self.status@) == text_field(v, "status"@)
        &&& Some(self.status_code) == int_field(v, "status_code"@)
        &&& Some(self.domain@) == text_field(v, "domain"@)
        &&& Some(self.title@) == text_field(v, "title"@)
        &&& Some(views(self.author)) == list_field(v, "author"@)
        &&& opt_view(self.date_published) == optional_text(v, "date_published"@)
        &&& Some(views(self.images)) == list_field(v, "images"@)
        &&& Some(views(self.videos)) == list_field(v, "videos"@)
        &&& Some(self.text@) == text_field(v, "text"@)
        &&& Some(self.html@) == text_field(v, "html"@)
    }

    /// Reads an extractor reply out of a JSON document.
    pub fn from_json(v: &JsonValue) -> (r: Result<ExtractorApiResponse, ExtractError>)
        ensures
            r is Ok <==> extractor_reply_ok(*v),
            r matches Ok(x) ==> x.decoded_from(*v),
            r matches Err(e) ==> e == ExtractError::Schema,
    {
        let url = match field(v, "url") {
            None => String::new(),
            Some(JsonValue::Str(s)) => s.clone(),
            Some(_) => return Err(ExtractError::Schema),
        };
        let status = match text_member(v, "status") {
            Some(x) => x,
            None => return Err(ExtractError::Schema),
        };
        let status_code = match int_member(v, "status_code") {
            Some(x) => x,
            None => return Err(ExtractError::Schema),
        };
        let domain = match text_member(v, "domain") {
            Some(x) => x,
            None => return Err(ExtractError::Schema),
        };
        let title = match text_member(v, "title") {
            Some(x) => x,
            None => return Err(ExtractError::Schema),
        };
        let author = match list_member(v, "author") {
            Some(x) => x,
            None => return Err(ExtractError::Schema),
        };
        let date_published = match optional_text_member(v, "date_published") {
            Ok(x) => x,
            Err(_) => return Err(ExtractError::Schema),
        };
        let images = match list_member(v, "images") {
            Some(x) => x,
            None => return Err(ExtractError::Schema),
        };
        let videos = match list_member(v, "videos") {
            Some(x) => x,
            None => return Err(ExtractError::Schema),
        };
        let text = match text_member(v, "text") {
            Some(x) => x,
            None => return Err(ExtractError::Schema),
        };
        let html = match text_member(v, "html") {
            Some(x) => x,
            None => return Err(ExtractError::Schema),
        };
        Ok(ExtractorApiResponse {
            url,
            status,
            status_code,
            domain,
            title,
            author,
            date_published,
            images,
            videos,
            text,
            html,
        })
    }

    /// The article that this reply describes.
    pub fn into_record(self) -> (r: ArticleRecord)
        ensures
            r.title == self.title,
            r.html == self.html,
            r.text == self.text,
    {
        ArticleRecord { title: self.title, html: self.html, text: self.text }
    }
}

/// The article part of a Ujeebu reply.
#[derive(Default, Debug, Clone, PartialEq)]
pub struct UjeebuArticle {
    pub text: String,
    pub html: String,
    pub images: Vec<String>,
    pub author: String,
    pub pub_date: String,
    pub is_article: i64,
    pub url: String,
    pub canonical_url: String,
    pub title: String,
    pub language: String,
    pub image: String,
    pub summary: String,
    pub modified_date: String,
    pub site_name: String,
    pub favicon: String,
    pub encoding: String,
}

/// `a` has every member of a Ujeebu article, each of its type.
pub open spec fn ujeebu_article_ok(a: JsonValue) -> bool {
    &&& text_field(a, "text"@) is Some
    &&& text_field(a, "html"@) is Some
    &&& list_field(a, "images"@) is Some
    &&& text_field(a, "author"@) is Some
    &&& text_field(a, "pub_date"@) is Some
    &&& int_field(a, "is_article"@) is Some
    &&& text_field(a, "url"@) is Some
    &&& text_field(a, "canonical_url"@) is Some
    &&& text_field(a, "title"@) is Some
    &&& text_field(a, "language"@) is Some
    &&& text_field(a, "image"@) is Some
    &&& text_field(a, "summary"@) is Some
    &&& text_field(a, "modified_date"@) is Some
    &&& text_field(a, "site_name"@) is Some
    &&& text_field(a, "favicon"@) is Some
    &&& text_field(a, "encoding"@) is Some
}

impl UjeebuArticle {
    /// Every field holds the member of `a` of the same name.
    pub open spec fn decoded_from(self, a: JsonValue) -> bool {
        &&& Some(self.text@) == text_field(a, "text"@)
        &&& Some(self.html@) == text_field(a, "html"@)
        &&& Some(views(self.images)) == list_field(a, "images"@)
        &&& Some(self.author@) == text_field(a, "author"@)
        &&& Some(self.pub_date@) == text_field(a, "pub_date"@)
        &&& Some(self.is_article) == int_field(a, "is_article"@)
        &&& Some(self.url@) == text_field(a, "url"@)
        &&& Some(self.canonical_url@) == text_field(a, "canonical_url"@)
        &&& Some(self.title@) == text_field(a, "title"@)
        &&& Some(self.language@) == text_field(a, "language"@)
        &&& Some(self.image@) == text_field(a, "image"@)
        &&& Some(self.summary@) == text_field(a, "summary"@)
        &&& Some(self.modified_date@) == text_field(a, "modified_date"@)
        &&& Some(self.site_name@) == text_field(a, "site_name"@)
        &&& Some(self.favicon@) == text_field(a, "favicon"@)
        &&& Some(self.encoding@) == text_field(a, "encoding"@)
    }

    /// Reads the article part of a Ujeebu reply out of a JSON document.
    pub fn from_json(a: &JsonValue) -> (r: Result<UjeebuArticle, ExtractError>)
        ensures
            r is Ok <==> ujeebu_article_ok(*a),
            r matches Ok(x) ==> x.decoded_from(*a),
            r matches Err(e) ==> e == ExtractError::Schema,
    {
        let text = match text_member(a, "text") {
            Some(x) => x,
            None => return Err(ExtractError::Schema),
        };
        let html = match text_member(a, "html") {
            Some(x) => x,
            None => return Err(ExtractError::Schema),
        };
        let images = match list_member(a, "images") {
            Some(x) => x,
            None => return Err(ExtractError::Schema),
        };
        let author = match text_member(a, "author") {
            Some(x) => x,
            None => return Err(ExtractError::Schema),
        };
        let pub_date = match text_member(a, "pub_date") {
            Some(x) => x,
            None => return Err(ExtractError::Schema),
        };
        let is_article = match int_member(a, "is_article") {
            Some(x) => x,
            None => return Err(ExtractError::Schema),
        };
        let url = match text_member(a, "url") {
            Some(x) => x,
            None => return Err(ExtractError::Schema),
        };
        let canonical_url = match text_member(a, "canonical_url") {
            Some(x) => x,
            None => return Err(ExtractError::Schema),
        };
        let title = match text_member(a, "title") {
            Some(x) => x,
            None => return Err(ExtractError::Schema),
        };
        let language = match text_member(a, "language") {
            Some(x) => x,
            None => return Err(ExtractError::Schema),
        };
        let image = match text_member(a, "image") {
            Some(x) => x,
            None => return Err(ExtractError::Schema),
        };
        let summary = match text_member(a, "summary") {
            Some(x) => x,
            None => return Err(ExtractError::Schema),
        };
        let modified_date = match text_member(a, "modified_date") {
            Some(x) => x,
            None => return Err(ExtractError::Schema),
        };
        let site_name = match text_member(a, "site_name") {
            Some(x) => x,
            None => return Err(ExtractError::Schema),
        };
        let favicon = match text_member(a, "favicon") {
            Some(x) => x,
            None => return Err(ExtractError::Schema),
        };
        let encoding = match text_member(a, "encoding") {
            Some(x) => x,
            None => return Err(ExtractError::Schema),
        };
        Ok(UjeebuArticle { text, html, images, author, pub_date, is_article, url, canonical_url, title, language, image, summary, modified_date, site_name, favicon, encoding })
    }
}

/// A Ujeebu reply. Its `time` member, a number, is checked and not kept.
#[derive(Default, Debug, Clone, PartialEq)]
pub struct UjeebuResponse {
    pub article: UjeebuArticle,
    pub js: bool,
    pub pagination: bool,
}

/// `v` has every member of a Ujeebu reply, each of its type.
pub open spec fn ujeebu_reply_ok(v: JsonValue) -> bool {
    &&& field_of(v, "article"@) matches Some(a) && ujeebu_article_ok(a)
    &&& number_field(v, "time"@)
    &&& flag_field(v, "js"@) is Some
    &&& flag_field(v, "pagination"@) is Some
}

impl UjeebuResponse {
    pub open spec fn decoded_from(self, v: JsonValue) -> bool {
        &&& field_of(v, "article"@) matches Some(a) && self.article.decoded_from(a)
        &&& Some(self.js) == flag_field(v, "js"@)
        &&& Some(self.pagination) == flag_field(v, "pagination"@)
    }

    /// Reads a Ujeebu reply out of a JSON document.
    pub fn from_json(v: &JsonValue) -> (r: Result<UjeebuResponse, ExtractError>)
        ensures
            r is Ok <==> ujeebu_reply_ok(*v),
            r matches Ok(x) ==> x.decoded_from(*v),
            r matches Err(e) ==> e == ExtractError::Schema,
    {
        let article = match field(v, "article") {
            Some(a) => UjeebuArticle::from_json(a)?,
            None => return Err(ExtractError::Schema),
        };
        if !number_member(v, "time") {
            return Err(ExtractError::Schema);
        }
        let js = match flag_member(v, "js") {
            Some(x) => x,
            None => return Err(ExtractError::Schema),
        };
        let pagination = match flag_member(v, "pagination") {
            Some(x) => x,
            None => return Err(ExtractError::Schema),
        };
        Ok(UjeebuResponse { article, js, pagination })
    }

    /// The article that this reply describes.
    pub fn into_record(self) -> (r: ArticleRecord)
        ensures
            r.title == self.article.title,
            r.html == self.article.html,
            r.text == self.article.text,
    {
        ArticleRecord { title: self.article.title, html: self.article.html, text: self.article.text }
    }
}

/// The largest sum of lengths, in characters, of a URL and a query pair to add to it.
pub const URL_BUDGET: usize = 100_000_000;

/// What `url` becomes once the pair `key`=`value` is added to its query, where it parses.
pub uninterp spec fn query_appended(url: Seq<char>, key: Seq<char>, value: Seq<char>) -> Option<Seq<char>>;

/// Relies on url::Url::parse, then on `query_pairs_mut().append_pair`, which
/// form-urlencodes the pair into the query; the result is the serialization.
/// The bound keeps every offset in the u32 that the url crate stores.
#[verifier::external_body]
fn append_query_pair(url: &str, key: &str, value: &str) -> (r: Option<String>)
    requires
        url@.len() + key@.len() + value@.len() <= URL_BUDGET,
    ensures
        opt_view(r) == query_appended(url@, key@, value@),
{
    match url::Url::parse(url) {
        Ok(mut u) => {
            u.query_pairs_mut().append_pair(key, value);
            Some(String::from(u))
        },
        Err(_) => None,
    }
}

/// Whether three strings together stay within the URL budget.
fn within_budget(a: &str, b: &str, c: &str) -> (r: bool)
    ensures
        r == (a@.len() + b@.len() + c@.len() <= URL_BUDGET),
{
    let la = a.unicode_len();
    let lb = b.unicode_len();
    let lc = c.unicode_len();
    la <= URL_BUDGET && lb <= URL_BUDGET && lc <= URL_BUDGET && la + lb + lc <= URL_BUDGET
}

/// Adds one query pair, or says why it could not be added.
pub open spec fn with_pair(url: Seq<char>, key: Seq<char>, value: Seq<char>) -> Result<Seq<char>, ExtractError> {
    if url.len() + key.len() + value.len() > URL_BUDGET {
        Err(ExtractError::UrlTooLong)
    } else {
        match query_appended(url, key, value) {
            Some(u) => Ok(u),
            None => Err(ExtractError::InvalidEndpoint),
        }
    }
}

fn add_pair(url: &str, key: &str, value: &str) -> (r: Result<String, ExtractError>)
    ensures
        match r {
            Ok(u) => with_pair(url@, key@, value@) == Ok::<Seq<char>, ExtractError>(u@),
            Err(e) => with_pair(url@, key@, value@) == Err::<Seq<char>, ExtractError>(e),
        },
{
    if !within_budget(url, key, value) {
        return Err(ExtractError::UrlTooLong);
    }
    match append_query_pair(url, key, value) {
        Some(u) => Ok(u),
        None => Err(ExtractError::InvalidEndpoint),
    }
}

/// One GET request: the URL and the headers to send with it.
pub struct ApiRequest {
    pub url: String,
    pub headers: Vec<(String, String)>,
}

pub open spec fn header_views(h: Vec<(String, String)>) -> Seq<(Seq<char>, Seq<char>)> {
    h@.map_values(|p: (String, String)| (p.0@, p.1@))
}

/// A request for `url` with the given headers, or the reason it cannot be made.
pub open spec fn request_is(
    r: Result<ApiRequest, ExtractError>,
    url: Result<Seq<char>, ExtractError>,
    headers: Seq<(Seq<char>, Seq<char>)>,
) -> bool {
    match (r, url) {
        (Ok(req), Ok(u)) => req.url@ == u && header_views(req.headers) == headers,
        (Err(e), Err(f)) => e == f,
        _ => false,
    }
}

/// The article a reply leads to, or why there is none.
pub open spec fn reply_outcome_ok(reply: Result<JsonValue, FetchFailure>, r: Result<ArticleRecord, ExtractError>) -> bool {
    match reply {
        Err(FetchFailure::Transport) => r == Err::<ArticleRecord, ExtractError>(ExtractError::Transport),
        Err(FetchFailure::Malformed) => r == Err::<ArticleRecord, ExtractError>(ExtractError::MalformedBody),
        Ok(_) => true,
    }
}

/// Turns a URL into an article through a third-party extraction service.
///
/// The service is reached in two steps: `request` says what to send, and
/// `record_from_reply` reads what came back (or how the exchange failed).
pub trait Extract {
    fn request(&self, target: &str) -> Result<ApiRequest, ExtractError>;

    fn record_from_reply(&self, reply: Result<JsonValue, FetchFailure>) -> Result<ArticleRecord, ExtractError>;
}

/// The extractor API: the key and the target travel as query pairs.
pub struct ExtractorApi {
    pub api_key: String,
    pub endpoint: String,
}

impl ExtractorApi {
    /// The request URL: `apikey` and then `url` added to the endpoint's query.
    pub open spec fn request_url_spec(self, target: Seq<char>) -> Result<Seq<char>, ExtractError> {
        match with_pair(self.endpoint@, "apikey"@, self.api_key@) {
            Ok(u) => with_pair(u, "url"@, target),
            Err(e) => Err(e),
        }
    }
}

impl Extract for ExtractorApi {
    /// `target` is the serialization of the page to extract.
    fn request(&self, target: &str) -> (r: Result<ApiRequest, ExtractError>)
        ensures
            request_is(r, self.request_url_spec(target@), Seq::empty()),
    {
        let with_key = add_pair(self.endpoint.as_str(), "apikey", self.api_key.as_str())?;
        let url = add_pair(with_key.as_str(), "url", target)?;
        let headers: Vec<(String, String)> = Vec::new();
        assert(header_views(headers) =~= Seq::empty());
        Ok(ApiRequest { url, headers })
    }

    fn record_from_reply(&self, reply: Result<JsonValue, FetchFailure>) -> (r: Result<ArticleRecord, ExtractError>)
        ensures
            reply_outcome_ok(reply, r),
            reply matches Ok(v) ==> (r is Ok <==> extractor_reply_ok(v)),
            reply matches Ok(v) ==> (r matches Err(e) ==> e == ExtractError::Schema),
            reply matches Ok(v) ==> (r matches Ok(rec) ==> {
                &&& Some(rec.title@) == text_field(v, "title"@)
                &&& Some(rec.html@) == text_field(v, "html"@)
                &&& Some(rec.text@) == text_field(v, "text"@)
            }),
    {
        match reply {
            Err(FetchFailure::Transport) => Err(ExtractError::Transport),
            Err(FetchFailure::Malformed) => Err(ExtractError::MalformedBody),
            Ok(v) => {
                let res = ExtractorApiResponse::from_json(&v)?;
                Ok(res.into_record())
            },
        }
    }
}

/// Ujeebu: the target travels as a query pair, the key as a header.
pub struct Ujeebu {
    pub api_key: String,
    pub endpoint: String,
}

impl Ujeebu {
    /// The request URL: `url` added to the endpoint's query.
    pub open spec fn request_url_spec(self, target: Seq<char>) -> Result<Seq<char>, ExtractError> {
        with_pair(self.endpoint@, "url"@, target)
    }

    /// The headers that go with each request, the key among them.
    /// The misspelt credentials header is the name the service expects.
    pub open spec fn headers_spec(self) -> Seq<(Seq<char>, Seq<char>)> {
        seq![
            ("Access-Control-Allow-Origin"@, "*"@),
            ("Aceess-Control-Allow-Credentials"@, "true"@),
            ("ApiKey"@, self.api_key@),
        ]
    }
}

impl Extract for Ujeebu {
    /// `target` is the serialization of the page to extract.
    fn request(&self, target: &str) -> (r: Result<ApiRequest, ExtractError>)
        ensures
            request_is(r, self.request_url_spec(target@), self.headers_spec()),
    {
        let url = add_pair(self.endpoint.as_str(), "url", target)?;
        let mut headers: Vec<(String, String)> = Vec::new();
        headers.push((String::from_str("Access-Control-Allow-Origin"), String::from_str("*")));
        headers.push((String::from_str("Aceess-Control-Allow-Credentials"), String::from_str("true")));
        headers.push((String::from_str("ApiKey"), self.api_key.clone()));
        assert(header_views(headers) =~= self.headers_spec());
        Ok(ApiRequest { url, headers })
    }

    fn record_from_reply(&self, reply: Result<JsonValue, FetchFailure>) -> (r: Result<ArticleRecord, ExtractError>)
        ensures
            reply_outcome_ok(reply, r),
            reply matches Ok(v) ==> (r is Ok <==> ujeebu_reply_ok(v)),
            reply matches Ok(v) ==> (r matches Err(e) ==> e == ExtractError::Schema),
            reply matches Ok(v) ==> (r matches Ok(rec) ==> {
                &&& field_of(v, "article"@) matches Some(a)
                &&& Some(rec.title@) == text_field(a, "title"@)
                &&& Some(rec.html@) == text_field(a, "html"@)
                &&& Some(rec.text@) == text_field(a, "text"@)
            }),
    {
        match reply {
            Err(FetchFailure::Transport) => Err(ExtractError::Transport),
            Err(FetchFailure::Malformed) => Err(ExtractError::MalformedBody),
            Ok(v) => {
                let res = UjeebuResponse::from_json(&v)?;
                Ok(res.into_record())
            },
        }
    }
}

} // verus!

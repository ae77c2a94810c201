use podreader::pages::{
    article_title_text, author_heading, author_link_text, decimal_string, Article, Route,
};

#[test]
fn route_paths() {
    assert_eq!(Route::Home.path(), "/");
    assert_eq!(Route::Submission.path(), "/submit");
    assert_eq!(Route::Archive.path(), "/archive");
    assert_eq!(Route::ArticlePage { article_id: 7 }.path(), "/article/7");
    assert_eq!(Route::AuthorPage { author_id: 1203 }.path(), "/author/1203");
}

#[test]
fn decimal_edges() {
    assert_eq!(decimal_string(0), "0");
    assert_eq!(decimal_string(10), "10");
    assert_eq!(decimal_string(usize::MAX), usize::MAX.to_string());
}

#[test]
fn labels_follow_feed() {
    assert_eq!(author_link_text(None), "Loading...");
    assert_eq!(author_link_text(Some("https://pod.example")), "PLACEHOLDER: https://pod.example");
    assert_eq!(article_title_text(None), "loading");
    assert_eq!(article_title_text(Some("Show")), "PLACEHOLDER: Show");
    assert_eq!(author_heading(3), "Author 3");
}

#[test]
fn sample_article_lines() {
    let a = Article::sample(4);
    assert_eq!(a.id, 4);
    assert_eq!(a.preview, "Preview text preview text preview text");
    let (number, byline) = a.reading_lines();
    assert_eq!(number, "Article 4");
    assert_eq!(byline, "Author - Title");
}

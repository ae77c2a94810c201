use podreader::clipboard::{clipboard_text, ClipboardRead};
use podreader::feed::{feed_url, FeedCache, FeedStep};

#[test]
fn feed_fetched_once() {
    let mut cache: FeedCache<String> = FeedCache::new();
    assert_eq!(cache.next_step(), FeedStep::Fetch);
    assert_eq!(cache.cached(), None);
    cache.store("first feed".to_string());
    assert_eq!(cache.next_step(), FeedStep::UseCached);
    assert_eq!(cache.cached(), Some(&"first feed".to_string()));
    cache.store("changed remote feed".to_string());
    assert_eq!(cache.next_step(), FeedStep::UseCached);
    assert_eq!(cache.cached(), Some(&"first feed".to_string()));
}

#[test]
fn feed_url_is_fixed() {
    assert_eq!(feed_url(), "https://feeds.simplecast.com/qm_9xx0g");
}

#[test]
fn clipboard_waits_for_callback() {
    let mut read = ClipboardRead::new();
    for _ in 0..3 {
        assert_eq!(read.poll(), None);
    }
    read.complete("https://news.example/a".to_string());
    assert_eq!(read.poll(), Some("https://news.example/a".to_string()));
    read.complete("later".to_string());
    assert_eq!(read.poll(), Some("https://news.example/a".to_string()));
}

#[test]
fn clipboard_text_and_unavailable_note() {
    assert_eq!(clipboard_text(Ok("copied".to_string())), "copied");
    assert_eq!(
        clipboard_text(Err("already mutably borrowed".to_string())),
        "Clipboard data unavailable: already mutably borrowed"
    );
}

use ttrss_sync::envelope::{
    decode_articles_response, decode_feeds_response, decode_headlines_response,
    decode_login_response,
};
use ttrss_sync::pipeline::{article_op_for, correlate, ids_string, phase_is_fatal, write_maildir,
    SyncPhase};
use ttrss_sync::protocol::{TtrssOperation, TtrssRequest};
use ttrss_sync::records::{Article, Config, Headline};

fn headline(id: u32) -> Headline {
    Headline {
        id,
        unread: true,
        marked: false,
        title: format!("headline {}", id),
        feed_id: 1,
        author: String::from("a"),
        link: format!("http://l/{}", id),
        comments_link: String::new(),
    }
}

fn article(id: u32, content: &str) -> Article {
    Article { id, content: String::from(content) }
}

#[test]
fn correlation_joins_by_id_and_reports_gaps() {
    let hls = vec![headline(10), headline(11), headline(12)];
    let ars = vec![article(12, "twelve"), article(10, "ten")];
    let (units, gaps) = correlate(&hls, &ars);
    assert_eq!(units.len(), 2);
    assert_eq!(units[0].headline.id, 10);
    assert_eq!(units[0].article.id, 10);
    assert_eq!(units[0].article.content, "ten");
    assert_eq!(units[1].headline.id, 12);
    assert_eq!(units[1].article.id, 12);
    assert_eq!(units[1].article.content, "twelve");
    assert_eq!(gaps, vec![11]);
}

#[test]
fn correlation_ids_do_not_depend_on_article_order() {
    let hls = vec![headline(10), headline(11), headline(12)];
    let first = vec![article(12, "twelve"), article(10, "ten")];
    let second = vec![article(10, "ten"), article(12, "twelve")];
    let (units_a, gaps_a) = correlate(&hls, &first);
    let (units_b, gaps_b) = correlate(&hls, &second);
    let ids_a: Vec<u32> = units_a.iter().map(|u| u.headline.id).collect();
    let ids_b: Vec<u32> = units_b.iter().map(|u| u.headline.id).collect();
    assert_eq!(ids_a, ids_b);
    assert_eq!(gaps_a, gaps_b);
}

#[test]
fn correlation_is_idempotent_for_unchanged_state() {
    let hls = vec![headline(3), headline(4)];
    let ars = vec![article(4, "d"), article(3, "c")];
    let (units_a, gaps_a) = correlate(&hls, &ars);
    let (units_b, gaps_b) = correlate(&hls, &ars);
    let ids_a: Vec<u32> = units_a.iter().map(|u| u.headline.id).collect();
    let ids_b: Vec<u32> = units_b.iter().map(|u| u.headline.id).collect();
    assert_eq!(ids_a, ids_b);
    assert_eq!(gaps_a, gaps_b);
}

#[test]
fn empty_headlines_issue_no_article_call() {
    let hls: Vec<Headline> = Vec::new();
    assert!(article_op_for(&hls).is_none());
    let ars = vec![article(1, "stray")];
    let (units, gaps) = correlate(&hls, &ars);
    assert!(units.is_empty());
    assert!(gaps.is_empty());
}

#[test]
fn id_list_preserves_headline_order() {
    let hls = vec![headline(10), headline(11)];
    assert_eq!(ids_string(&hls), "10,11");
    let rev = vec![headline(11), headline(10)];
    assert_eq!(ids_string(&rev), "11,10");
    let one = vec![headline(7)];
    assert_eq!(ids_string(&one), "7");
    let none: Vec<Headline> = Vec::new();
    assert_eq!(ids_string(&none), "");
}

#[test]
fn id_list_renders_the_largest_id() {
    let hls = vec![headline(u32::MAX), headline(0)];
    assert_eq!(ids_string(&hls), "4294967295,0");
}

#[test]
fn article_op_carries_joined_ids() {
    let hls = vec![headline(10), headline(11)];
    match article_op_for(&hls) {
        Some(TtrssOperation::GetArticle(ids)) => assert_eq!(ids, "10,11"),
        _ => panic!("expected a batched article operation"),
    }
}

#[test]
fn headline_ordering_is_by_id_first() {
    assert!(headline(10) < headline(11));
    assert!(headline(11) > headline(10));
    assert_eq!(headline(10), headline(10));
}

#[test]
fn config_and_login_failures_are_fatal_feed_failures_are_not() {
    assert!(phase_is_fatal(&SyncPhase::ConfigLoad));
    assert!(phase_is_fatal(&SyncPhase::Login));
    assert!(!phase_is_fatal(&SyncPhase::FeedSync));
}

#[test]
fn end_to_end_single_feed_run() {
    let config = Config {
        api_url: String::from("http://example.invalid/api/"),
        user: String::from("alice"),
        pass: String::from("x"),
        maildir: String::from("/tmp/mail"),
    };
    let login_req = TtrssRequest::new_login(config.clone());
    let login_body = login_req.request_body(TtrssOperation::Login);
    assert_eq!(login_body, r#"{"op":"login","password":"x","user":"alice"}"#);

    let login_resp = r#"{"seq":0,"status":0,"content":{"session_id":"abc123"}}"#;
    let login = decode_login_response(login_resp).unwrap();
    assert_eq!(login.session_id, "abc123");

    let req = TtrssRequest::new(login_req, login.session_id);
    let feeds_resp = r#"{"seq":1,"status":0,"content":[{"title":"Example","feed_url":"http://e/","id":1,"last_updated":5,"cat_id":0,"order_id":0}]}"#;
    let feeds = decode_feeds_response(feeds_resp).unwrap();
    assert_eq!(feeds.len(), 1);
    assert_eq!(feeds[0].id, 1);

    let _hl_body = req.request_body(TtrssOperation::GetHeadlines(feeds[0].id, 0));
    let hls_resp = r#"{"seq":2,"status":0,"content":[
        {"id":10,"unread":true,"marked":false,"title":"First","feed_id":1,"author":"a","link":"http://l/1","comments_link":""},
        {"id":11,"unread":true,"marked":false,"title":"Second","feed_id":1,"author":"a","link":"http://l/2","comments_link":""}
    ]}"#;
    let hls = decode_headlines_response(hls_resp).unwrap();

    let op = article_op_for(&hls).unwrap();
    match &op {
        TtrssOperation::GetArticle(ids) => assert_eq!(ids, "10,11"),
        _ => panic!("expected a batched article operation"),
    }
    let _ar_body = req.request_body(op);
    let ars_resp =
        r#"{"seq":3,"status":0,"content":[{"id":10,"content":"A"},{"id":11,"content":"B"}]}"#;
    let ars = decode_articles_response(ars_resp).unwrap();

    let (units, gaps) = correlate(&hls, &ars);
    assert!(gaps.is_empty());
    assert_eq!(units.len(), 2);
    assert_eq!(units[0].headline.id, 10);
    assert_eq!(units[0].article.content, "A");
    assert_eq!(units[1].headline.id, 11);
    assert_eq!(units[1].article.content, "B");

    write_maildir(&config, &feeds[0], units);
}

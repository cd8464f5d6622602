use ttrss_sync::envelope::{
    decode_articles_response, decode_feeds_response, decode_headlines_response,
    decode_login_response,
};
use ttrss_sync::errors::SyncError;

#[test]
fn login_success_yields_session_token() {
    let body = r#"{"seq":0,"status":0,"content":{"session_id":"abc123"}}"#;
    let login = decode_login_response(body).unwrap();
    assert_eq!(login.session_id, "abc123");
}

#[test]
fn nonzero_status_is_protocol_error_with_good_content() {
    let body = r#"{"seq":0,"status":1,"content":{"session_id":"abc123"}}"#;
    assert_eq!(decode_login_response(body).unwrap_err(), SyncError::BadStatus(1));
}

#[test]
fn nonzero_status_is_protocol_error_with_malformed_content() {
    let body = r#"{"status":7,"content":[17,"junk"]}"#;
    assert_eq!(decode_feeds_response(body).unwrap_err(), SyncError::BadStatus(7));
}

#[test]
fn nonzero_status_is_protocol_error_with_absent_content() {
    let body = r#"{"status":2}"#;
    assert_eq!(decode_articles_response(body).unwrap_err(), SyncError::BadStatus(2));
}

#[test]
fn malformed_body_is_decode_error() {
    assert_eq!(decode_login_response("this is not json").unwrap_err(), SyncError::BadRssJson);
}

#[test]
fn missing_status_is_decode_error() {
    let body = r#"{"seq":0,"content":{"session_id":"abc123"}}"#;
    assert_eq!(decode_login_response(body).unwrap_err(), SyncError::BadRssJson);
}

#[test]
fn status_ok_with_mismatched_content_is_decode_error() {
    let body = r#"{"seq":0,"status":0,"content":{"bogus":true}}"#;
    assert_eq!(decode_feeds_response(body).unwrap_err(), SyncError::BadRssJson);
}

#[test]
fn status_ok_with_extra_envelope_field_is_decode_error() {
    let body = r#"{"seq":0,"status":0,"content":[],"extra":1}"#;
    assert_eq!(decode_feeds_response(body).unwrap_err(), SyncError::BadRssJson);
}

#[test]
fn feed_with_missing_field_is_decode_error() {
    let body = r#"{"seq":0,"status":0,"content":[{"title":"Example","feed_url":"http://e/","id":1,"last_updated":5,"cat_id":0}]}"#;
    assert_eq!(decode_feeds_response(body).unwrap_err(), SyncError::BadRssJson);
}

#[test]
fn feed_with_extra_field_is_decode_error() {
    let body = r#"{"seq":0,"status":0,"content":[{"title":"Example","feed_url":"http://e/","id":1,"last_updated":5,"cat_id":0,"order_id":0,"surprise":true}]}"#;
    assert_eq!(decode_feeds_response(body).unwrap_err(), SyncError::BadRssJson);
}

#[test]
fn feed_with_mistyped_field_is_decode_error() {
    let body = r#"{"seq":0,"status":0,"content":[{"title":"Example","feed_url":"http://e/","id":"one","last_updated":5,"cat_id":0,"order_id":0}]}"#;
    assert_eq!(decode_feeds_response(body).unwrap_err(), SyncError::BadRssJson);
}

#[test]
fn feeds_decode_in_order() {
    let body = r#"{"seq":0,"status":0,"content":[
        {"title":"Example","feed_url":"http://e/","id":1,"last_updated":5,"cat_id":0,"order_id":0},
        {"title":"Other","feed_url":"http://o/","id":2,"last_updated":9,"cat_id":3,"order_id":1}
    ]}"#;
    let feeds = decode_feeds_response(body).unwrap();
    assert_eq!(feeds.len(), 2);
    assert_eq!(feeds[0].id, 1);
    assert_eq!(feeds[0].title, "Example");
    assert_eq!(feeds[1].id, 2);
    assert_eq!(feeds[1].feed_url, "http://o/");
}

#[test]
fn empty_feed_list_decodes() {
    let body = r#"{"seq":0,"status":0,"content":[]}"#;
    let feeds = decode_feeds_response(body).unwrap();
    assert!(feeds.is_empty());
}

#[test]
fn headlines_decode_with_all_fields() {
    let body = r#"{"seq":0,"status":0,"content":[
        {"id":10,"unread":true,"marked":false,"title":"First","feed_id":1,"author":"a","link":"http://l/1","comments_link":""}
    ]}"#;
    let hls = decode_headlines_response(body).unwrap();
    assert_eq!(hls.len(), 1);
    assert_eq!(hls[0].id, 10);
    assert!(hls[0].unread);
    assert!(!hls[0].marked);
    assert_eq!(hls[0].title, "First");
    assert_eq!(hls[0].feed_id, 1);
}

#[test]
fn articles_decode_with_content() {
    let body = r#"{"seq":0,"status":0,"content":[{"id":10,"content":"A"},{"id":11,"content":"B"}]}"#;
    let ars = decode_articles_response(body).unwrap();
    assert_eq!(ars.len(), 2);
    assert_eq!(ars[0].id, 10);
    assert_eq!(ars[0].content, "A");
    assert_eq!(ars[1].id, 11);
    assert_eq!(ars[1].content, "B");
}

#[test]
fn feed_id_above_u32_is_decode_error() {
    let body = r#"{"seq":0,"status":0,"content":[{"title":"Example","feed_url":"http://e/","id":4294967296,"last_updated":5,"cat_id":0,"order_id":0}]}"#;
    assert_eq!(decode_feeds_response(body).unwrap_err(), SyncError::BadRssJson);
}

#[test]
fn status_above_u32_is_still_protocol_error() {
    let body = r#"{"seq":0,"status":4294967296,"content":null}"#;
    assert_eq!(decode_login_response(body).unwrap_err(), SyncError::BadStatus(4294967296));
}

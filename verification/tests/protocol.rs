use ttrss_sync::protocol::{TtrssOperation, TtrssRequest};
use ttrss_sync::records::Config;

fn test_config() -> Config {
    Config {
        api_url: String::from("http://example.invalid/api/"),
        user: String::from("alice"),
        pass: String::from("x"),
        maildir: String::from("/tmp/mail"),
    }
}

#[test]
fn login_request_has_credentials_and_no_sid() {
    let req = TtrssRequest::new_login(test_config());
    let body = req.request_body(TtrssOperation::Login);
    assert_eq!(body, r#"{"op":"login","password":"x","user":"alice"}"#);
    assert!(!body.contains("sid"));
}

#[test]
fn get_feeds_request_has_sid() {
    let login_req = TtrssRequest::new_login(test_config());
    let req = TtrssRequest::new(login_req, String::from("abc123"));
    let body = req.request_body(TtrssOperation::GetFeeds);
    assert_eq!(body, r#"{"op":"getFeeds","sid":"abc123"}"#);
}

#[test]
fn get_headlines_request_resends_credentials_with_sid() {
    let login_req = TtrssRequest::new_login(test_config());
    let req = TtrssRequest::new(login_req, String::from("abc123"));
    let body = req.request_body(TtrssOperation::GetHeadlines(1, 0));
    assert_eq!(
        body,
        r#"{"feed_id":1,"op":"getHeadlines","password":"x","sid":"abc123","since_id":0,"user":"alice"}"#
    );
}

#[test]
fn get_article_request_carries_id_list_and_sid() {
    let login_req = TtrssRequest::new_login(test_config());
    let req = TtrssRequest::new(login_req, String::from("abc123"));
    let body = req.request_body(TtrssOperation::GetArticle(String::from("10,11")));
    assert_eq!(
        body,
        r#"{"article_id":"10,11","op":"getArticle","password":"x","sid":"abc123","user":"alice"}"#
    );
}

#[test]
fn session_states_follow_login() {
    let login_req = TtrssRequest::new_login(test_config());
    assert!(login_req.session_id.is_none());
    let req = TtrssRequest::new(login_req, String::from("abc123"));
    assert_eq!(req.session_id.as_deref(), Some("abc123"));
    assert_eq!(req.config.user, "alice");
}

use vstd::prelude::*;

use crate::json_model::{Js, js_of, obj_get, obj_len, as_u64, as_string, as_bool};

verus! {

/// Static run parameters: endpoint, credentials, output root. Loaded
/// once before any network call and immutable thereafter.
#[derive(Clone, Debug)]
pub struct Config {
    pub api_url: String,
    pub user: String,
    pub pass: String,
    pub maildir: String,
}

pub struct ConfigV {
    pub api_url: Seq<char>,
    pub user: Seq<char>,
    pub pass: Seq<char>,
    pub maildir: Seq<char>,
}

impl View for Config {
    type V = ConfigV;

    open spec fn view(&self) -> ConfigV {
        ConfigV {
            api_url: self.api_url@,
            user: self.user@,
            pass: self.pass@,
            maildir: self.maildir@,
        }
    }
}

/// A subscribed source, as the server describes it.
#[derive(Debug)]
pub struct Feed {
    pub title: String,
    pub feed_url: String,
    pub id: u32,
    pub last_updated: u32,
    pub cat_id: u32,
    pub order_id: u32,
}

pub struct FeedV {
    pub title: Seq<char>,
    pub feed_url: Seq<char>,
    pub id: u32,
    pub last_updated: u32,
    pub cat_id: u32,
    pub order_id: u32,
}

impl View for Feed {
    type V = FeedV;

    open spec fn view(&self) -> FeedV {
        FeedV {
            title: self.title@,
            feed_url: self.feed_url@,
            id: self.id,
            last_updated: self.last_updated,
            cat_id: self.cat_id,
            order_id: self.order_id,
        }
    }
}

impl DeepView for Feed {
    type V = FeedV;

    open spec fn deep_view(&self) -> FeedV {
        self.view()
    }
}

/// One item of a feed: metadata without body content. The derived
/// total order (by id, then the remaining fields) exists purely for
/// deterministic comparison in tests, not as anything the server
/// promises.
#[derive(Debug, PartialEq, Eq, PartialOrd, Ord)]
pub struct Headline {
    pub id: u32,
    pub unread: bool,
    pub marked: bool,
    pub title: String,
    pub feed_id: u32,
    pub author: String,
    pub link: String,
    pub comments_link: String,
}

pub struct HeadlineV {
    pub id: u32,
    pub unread: bool,
    pub marked: bool,
    pub title: Seq<char>,
    pub feed_id: u32,
    pub author: Seq<char>,
    pub link: Seq<char>,
    pub comments_link: Seq<char>,
}

impl View for Headline {
    type V = HeadlineV;

    open spec fn view(&self) -> HeadlineV {
        HeadlineV {
            id: self.id,
            unread: self.unread,
            marked: self.marked,
            title: self.title@,
            feed_id: self.feed_id,
            author: self.author@,
            link: self.link@,
            comments_link: self.comments_link@,
        }
    }
}

impl DeepView for Headline {
    type V = HeadlineV;

    open spec fn deep_view(&self) -> HeadlineV {
        self.view()
    }
}

impl Headline {
    /// A field-for-field copy with the same view.
    pub fn duplicate(&self) -> (r: Headline)
        ensures
            r@ == self@,
    {
        Headline {
            id: self.id,
            unread: self.unread,
            marked: self.marked,
            title: self.title.clone(),
            feed_id: self.feed_id,
            author: self.author.clone(),
            link: self.link.clone(),
            comments_link: self.comments_link.clone(),
        }
    }
}

/// The body content for one headline, fetched in a batched call.
#[derive(Debug)]
pub struct Article {
    pub id: u32,
    pub content: String,
}

pub struct ArticleV {
    pub id: u32,
    pub content: Seq<char>,
}

impl View for Article {
    type V = ArticleV;

    open spec fn view(&self) -> ArticleV {
        ArticleV { id: self.id, content: self.content@ }
    }
}

impl DeepView for Article {
    type V = ArticleV;

    open spec fn deep_view(&self) -> ArticleV {
        self.view()
    }
}

impl Article {
    /// A field-for-field copy with the same view.
    pub fn duplicate(&self) -> (r: Article)
        ensures
            r@ == self@,
    {
        Article { id: self.id, content: self.content.clone() }
    }
}

/// The content of a successful login: the server-issued session token.
#[derive(Debug)]
pub struct Login {
    pub session_id: String,
}

impl View for Login {
    type V = Seq<char>;

    open spec fn view(&self) -> Seq<char> {
        self.session_id@
    }
}

/// The entry of an object under a key, when the value is an object.
pub open spec fn js_get(j: Js, k: Seq<char>) -> Option<Js> {
    match j {
        Js::Obj(m) => if m.contains_key(k) {
            Some(m[k])
        } else {
            None
        },
        _ => None,
    }
}

/// An entry read as an unsigned 32-bit integer.
pub open spec fn js_u32(j: Option<Js>) -> Option<u32> {
    match j {
        Some(Js::U(n)) => if n <= u32::MAX {
            Some(n as u32)
        } else {
            None
        },
        _ => None,
    }
}

/// An entry read as a string.
pub open spec fn js_str(j: Option<Js>) -> Option<Seq<char>> {
    match j {
        Some(Js::Str(s)) => Some(s),
        _ => None,
    }
}

/// An entry read as a boolean.
pub open spec fn js_bool(j: Option<Js>) -> Option<bool> {
    match j {
        Some(Js::Bool(b)) => Some(b),
        _ => None,
    }
}

/// Whether the value is an object with exactly `n` keys. Decoding is
/// all-or-nothing: an extra field is as much of a mismatch as a missing
/// one, so every record decoder pins the exact number of keys.
pub open spec fn js_obj_size_is(j: Js, n: nat) -> bool {
    match j {
        Js::Obj(m) => m.dom().finite() && m.dom().len() == n,
        _ => false,
    }
}

/// Strict decoding of a feed record: exactly the six declared fields,
/// each of its declared type.
pub open spec fn feed_of_js(j: Js) -> Option<FeedV> {
    if js_obj_size_is(j, 6) {
        match (js_str(js_get(j, "title"@)), js_str(js_get(j, "feed_url"@)),
               js_u32(js_get(j, "id"@)), js_u32(js_get(j, "last_updated"@)),
               js_u32(js_get(j, "cat_id"@)), js_u32(js_get(j, "order_id"@))) {
            (Some(title), Some(feed_url), Some(id), Some(last_updated), Some(cat_id), Some(order_id)) =>
                Some(FeedV { title, feed_url, id, last_updated, cat_id, order_id }),
            _ => None,
        }
    } else {
        None
    }
}

/// Strict decoding of a headline record: exactly the eight declared
/// fields, each of its declared type.
pub open spec fn headline_of_js(j: Js) -> Option<HeadlineV> {
    if js_obj_size_is(j, 8) {
        match (js_u32(js_get(j, "id"@)), js_bool(js_get(j, "unread"@)),
               js_bool(js_get(j, "marked"@)), js_str(js_get(j, "title"@)),
               js_u32(js_get(j, "feed_id"@)), js_str(js_get(j, "author"@)),
               js_str(js_get(j, "link"@)), js_str(js_get(j, "comments_link"@))) {
            (Some(id), Some(unread), Some(marked), Some(title), Some(feed_id), Some(author), Some(link), Some(comments_link)) =>
                Some(HeadlineV { id, unread, marked, title, feed_id, author, link, comments_link }),
            _ => None,
        }
    } else {
        None
    }
}

/// Strict decoding of an article record: exactly the two declared
/// fields, each of its declared type.
pub open spec fn article_of_js(j: Js) -> Option<ArticleV> {
    if js_obj_size_is(j, 2) {
        match (js_u32(js_get(j, "id"@)), js_str(js_get(j, "content"@))) {
            (Some(id), Some(content)) => Some(ArticleV { id, content }),
            _ => None,
        }
    } else {
        None
    }
}

/// Strict decoding of the login content: exactly the one declared
/// field, a string session token.
pub open spec fn login_of_js(j: Js) -> Option<Seq<char>> {
    if js_obj_size_is(j, 1) {
        js_str(js_get(j, "session_id"@))
    } else {
        None
    }
}

/// Reads one feed record out of a parsed JSON value, exactly as
/// `feed_of_js` describes.
pub fn decode_feed(v: &serde_json::Value) -> (r: Option<Feed>)
    ensures
        match r {
            Some(f) => feed_of_js(js_of(*v)) == Some(f@),
            None => feed_of_js(js_of(*v)) is None,
        },
{
    let n = obj_len(v);
    if !(matches!(n, Some(6usize))) {
        return None;
    }
    let title = match obj_get(v, "title") {
        Some(w) => match as_string(&w) { Some(s) => s, None => { return None; } },
        None => { return None; },
    };
    let feed_url = match obj_get(v, "feed_url") {
        Some(w) => match as_string(&w) { Some(s) => s, None => { return None; } },
        None => { return None; },
    };
    let id = match obj_get(v, "id") {
        Some(w) => match get_u32(&w) { Some(x) => x, None => { return None; } },
        None => { return None; },
    };
    let last_updated = match obj_get(v, "last_updated") {
        Some(w) => match get_u32(&w) { Some(x) => x, None => { return None; } },
        None => { return None; },
    };
    let cat_id = match obj_get(v, "cat_id") {
        Some(w) => match get_u32(&w) { Some(x) => x, None => { return None; } },
        None => { return None; },
    };
    let order_id = match obj_get(v, "order_id") {
        Some(w) => match get_u32(&w) { Some(x) => x, None => { return None; } },
        None => { return None; },
    };
    Some(Feed { title, feed_url, id, last_updated, cat_id, order_id })
}

/// Reads one headline record out of a parsed JSON value, exactly as
/// `headline_of_js` describes.
pub fn decode_headline(v: &serde_json::Value) -> (r: Option<Headline>)
    ensures
        match r {
            Some(h) => headline_of_js(js_of(*v)) == Some(h@),
            None => headline_of_js(js_of(*v)) is None,
        },
{
    let n = obj_len(v);
    if !(matches!(n, Some(8usize))) {
        return None;
    }
    let id = match obj_get(v, "id") {
        Some(w) => match get_u32(&w) { Some(x) => x, None => { return None; } },
        None => { return None; },
    };
    let unread = match obj_get(v, "unread") {
        Some(w) => match as_bool(&w) { Some(b) => b, None => { return None; } },
        None => { return None; },
    };
    let marked = match obj_get(v, "marked") {
        Some(w) => match as_bool(&w) { Some(b) => b, None => { return None; } },
        None => { return None; },
    };
    let title = match obj_get(v, "title") {
        Some(w) => match as_string(&w) { Some(s) => s, None => { return None; } },
        None => { return None; },
    };
    let feed_id = match obj_get(v, "feed_id") {
        Some(w) => match get_u32(&w) { Some(x) => x, None => { return None; } },
        None => { return None; },
    };
    let author = match obj_get(v, "author") {
        Some(w) => match as_string(&w) { Some(s) => s, None => { return None; } },
        None => { return None; },
    };
    let link = match obj_get(v, "link") {
        Some(w) => match as_string(&w) { Some(s) => s, None => { return None; } },
        None => { return None; },
    };
    let comments_link = match obj_get(v, "comments_link") {
        Some(w) => match as_string(&w) { Some(s) => s, None => { return None; } },
        None => { return None; },
    };
    Some(Headline { id, unread, marked, title, feed_id, author, link, comments_link })
}

/// Reads one article record out of a parsed JSON value, exactly as
/// `article_of_js` describes.
pub fn decode_article(v: &serde_json::Value) -> (r: Option<Article>)
    ensures
        match r {
            Some(a) => article_of_js(js_of(*v)) == Some(a@),
            None => article_of_js(js_of(*v)) is None,
        },
{
    let n = obj_len(v);
    if !(matches!(n, Some(2usize))) {
        return None;
    }
    let id = match obj_get(v, "id") {
        Some(w) => match get_u32(&w) { Some(x) => x, None => { return None; } },
        None => { return None; },
    };
    let content = match obj_get(v, "content") {
        Some(w) => match as_string(&w) { Some(s) => s, None => { return None; } },
        None => { return None; },
    };
    Some(Article { id, content })
}

/// Reads the login content out of a parsed JSON value, exactly as
/// `login_of_js` describes.
pub fn decode_login(v: &serde_json::Value) -> (r: Option<Login>)
    ensures
        match r {
            Some(l) => login_of_js(js_of(*v)) == Some(l@),
            None => login_of_js(js_of(*v)) is None,
        },
{
    let n = obj_len(v);
    if !(matches!(n, Some(1usize))) {
        return None;
    }
    let session_id = match obj_get(v, "session_id") {
        Some(w) => match as_string(&w) { Some(s) => s, None => { return None; } },
        None => { return None; },
    };
    Some(Login { session_id })
}

/// Reads a `u64` JSON number that fits in 32 bits.
fn get_u32(v: &serde_json::Value) -> (r: Option<u32>)
    ensures
        r == js_u32(Some(js_of(*v))),
{
    match as_u64(v) {
        Some(n) => if n <= u32::MAX as u64 {
            Some(n as u32)
        } else {
            None
        },
        None => None,
    }
}

} // verus!

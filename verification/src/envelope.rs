use vstd::prelude::*;

use crate::errors::SyncError;
use crate::json_model::{Js, js_of, js_text, parse_value, obj_get, obj_len, as_u64, arr_len, arr_get};
use crate::records::{Feed, FeedV, Headline, HeadlineV, Article, ArticleV, Login,
    js_get, js_u32, feed_of_js, headline_of_js, article_of_js, login_of_js,
    decode_feed, decode_headline, decode_article, decode_login};

verus! {

/// The status code of a response envelope: the integer `status` field
/// of the parsed body, if the body is an object that carries one.
pub open spec fn envelope_status(j: Js) -> Option<u64> {
    match js_get(j, "status"@) {
        Some(Js::U(n)) => Some(n),
        _ => None,
    }
}

/// A well-formed success envelope: an object of exactly the three
/// declared fields `seq`, `status` and `content`, with a 32-bit `seq`.
pub open spec fn envelope_ok(j: Js) -> bool {
    match j {
        Js::Obj(m) => {
            &&& m.dom().finite()
            &&& m.dom().len() == 3
            &&& m.contains_key("seq"@)
            &&& m.contains_key("status"@)
            &&& m.contains_key("content"@)
            &&& js_u32(js_get(j, "seq"@)) is Some
        },
        _ => false,
    }
}

/// The content field of an envelope.
pub open spec fn envelope_content(j: Js) -> Js {
    match js_get(j, "content"@) {
        Some(c) => c,
        None => Js::Other,
    }
}

/// The outcome of validating a response body before any typed
/// decoding: the content value if the envelope reports success and is
/// well formed, otherwise the error the envelope dictates. The status
/// code is inspected first, and a nonzero status hides every defect of
/// the rest of the envelope.
pub open spec fn envelope_of(body: Seq<char>) -> Result<Js, SyncError> {
    match js_text(body) {
        None => Err(SyncError::BadRssJson),
        Some(j) => match envelope_status(j) {
            None => Err(SyncError::BadRssJson),
            Some(st) => if st != 0 {
                Err(SyncError::BadStatus(st))
            } else if !envelope_ok(j) {
                Err(SyncError::BadRssJson)
            } else {
                Ok(envelope_content(j))
            },
        },
    }
}

/// Validates the generic response envelope and hands back the still
/// untyped content, exactly as `envelope_of` describes: the body must
/// parse, carry an integer status, and the status must be zero before
/// the content is trusted at all.
pub fn check_envelope(body: &str) -> (r: Result<serde_json::Value, SyncError>)
    ensures
        match r {
            Ok(c) => envelope_of(body@) == Ok::<Js, SyncError>(js_of(c)),
            Err(e) => envelope_of(body@) == Err::<Js, SyncError>(e),
        },
{
    let v = match parse_value(body) {
        Some(v) => v,
        None => { return Err(SyncError::BadRssJson); },
    };
    let st = match obj_get(&v, "status") {
        Some(w) => match as_u64(&w) {
            Some(n) => n,
            None => { return Err(SyncError::BadRssJson); },
        },
        None => { return Err(SyncError::BadRssJson); },
    };
    if st != 0 {
        return Err(SyncError::BadStatus(st));
    }
    match obj_len(&v) {
        Some(n) => if n != 3 {
            return Err(SyncError::BadRssJson);
        },
        None => { return Err(SyncError::BadRssJson); },
    }
    match obj_get(&v, "seq") {
        Some(w) => match as_u64(&w) {
            Some(n) => if n > u32::MAX as u64 {
                return Err(SyncError::BadRssJson);
            },
            None => { return Err(SyncError::BadRssJson); },
        },
        None => { return Err(SyncError::BadRssJson); },
    }
    match obj_get(&v, "content") {
        Some(c) => Ok(c),
        None => Err(SyncError::BadRssJson),
    }
}

/// Strict decoding of a JSON array of feed records: all or nothing.
pub open spec fn feeds_of_js(j: Js) -> Option<Seq<FeedV>> {
    match j {
        Js::Arr(a) => if forall|i: int| 0 <= i < a.len() ==> feed_of_js(a[i]) is Some {
            Some(Seq::new(a.len(), |i: int| feed_of_js(a[i])->Some_0))
        } else {
            None
        },
        _ => None,
    }
}

/// Strict decoding of a JSON array of headline records.
pub open spec fn headlines_of_js(j: Js) -> Option<Seq<HeadlineV>> {
    match j {
        Js::Arr(a) => if forall|i: int| 0 <= i < a.len() ==> headline_of_js(a[i]) is Some {
            Some(Seq::new(a.len(), |i: int| headline_of_js(a[i])->Some_0))
        } else {
            None
        },
        _ => None,
    }
}

/// Strict decoding of a JSON array of article records.
pub open spec fn articles_of_js(j: Js) -> Option<Seq<ArticleV>> {
    match j {
        Js::Arr(a) => if forall|i: int| 0 <= i < a.len() ==> article_of_js(a[i]) is Some {
            Some(Seq::new(a.len(), |i: int| article_of_js(a[i])->Some_0))
        } else {
            None
        },
        _ => None,
    }
}

/// What a whole response body yields for an operation whose content is
/// the login record: either the session token or the error the
/// envelope or the content shape dictates.
pub open spec fn login_response_of(body: Seq<char>) -> Result<Seq<char>, SyncError> {
    match envelope_of(body) {
        Err(e) => Err(e),
        Ok(c) => match login_of_js(c) {
            Some(s) => Ok(s),
            None => Err(SyncError::BadRssJson),
        },
    }
}

/// What a whole response body yields for an operation whose content is
/// an array of feeds.
pub open spec fn feeds_response_of(body: Seq<char>) -> Result<Seq<FeedV>, SyncError> {
    match envelope_of(body) {
        Err(e) => Err(e),
        Ok(c) => match feeds_of_js(c) {
            Some(fs) => Ok(fs),
            None => Err(SyncError::BadRssJson),
        },
    }
}

/// What a whole response body yields for an operation whose content is
/// an array of headlines.
pub open spec fn headlines_response_of(body: Seq<char>) -> Result<Seq<HeadlineV>, SyncError> {
    match envelope_of(body) {
        Err(e) => Err(e),
        Ok(c) => match headlines_of_js(c) {
            Some(hs) => Ok(hs),
            None => Err(SyncError::BadRssJson),
        },
    }
}

/// What a whole response body yields for an operation whose content is
/// an array of articles.
pub open spec fn articles_response_of(body: Seq<char>) -> Result<Seq<ArticleV>, SyncError> {
    match envelope_of(body) {
        Err(e) => Err(e),
        Ok(c) => match articles_of_js(c) {
            Some(ars) => Ok(ars),
            None => Err(SyncError::BadRssJson),
        },
    }
}

/// Decodes a login response body, exactly as `login_response_of`
/// describes.
pub fn decode_login_response(body: &str) -> (r: Result<Login, SyncError>)
    ensures
        match r {
            Ok(l) => login_response_of(body@) == Ok::<Seq<char>, SyncError>(l@),
            Err(e) => login_response_of(body@) == Err::<Seq<char>, SyncError>(e),
        },
{
    let c = match check_envelope(body) {
        Ok(c) => c,
        Err(e) => { return Err(e); },
    };
    match decode_login(&c) {
        Some(l) => Ok(l),
        None => Err(SyncError::BadRssJson),
    }
}

/// Decodes a feed-list response body, exactly as `feeds_response_of`
/// describes.
pub fn decode_feeds_response(body: &str) -> (r: Result<Vec<Feed>, SyncError>)
    ensures
        match r {
            Ok(fs) => feeds_response_of(body@) == Ok::<Seq<FeedV>, SyncError>(fs.deep_view()),
            Err(e) => feeds_response_of(body@) == Err::<Seq<FeedV>, SyncError>(e),
        },
{
    let c = match check_envelope(body) {
        Ok(c) => c,
        Err(e) => { return Err(e); },
    };
    match decode_feed_array(&c) {
        Some(fs) => Ok(fs),
        None => Err(SyncError::BadRssJson),
    }
}

/// Decodes a headline-list response body, exactly as
/// `headlines_response_of` describes.
pub fn decode_headlines_response(body: &str) -> (r: Result<Vec<Headline>, SyncError>)
    ensures
        match r {
            Ok(hs) => headlines_response_of(body@) == Ok::<Seq<HeadlineV>, SyncError>(hs.deep_view()),
            Err(e) => headlines_response_of(body@) == Err::<Seq<HeadlineV>, SyncError>(e),
        },
{
    let c = match check_envelope(body) {
        Ok(c) => c,
        Err(e) => { return Err(e); },
    };
    match decode_headline_array(&c) {
        Some(hs) => Ok(hs),
        None => Err(SyncError::BadRssJson),
    }
}

/// Decodes an article-list response body, exactly as
/// `articles_response_of` describes.
pub fn decode_articles_response(body: &str) -> (r: Result<Vec<Article>, SyncError>)
    ensures
        match r {
            Ok(ars) => articles_response_of(body@) == Ok::<Seq<ArticleV>, SyncError>(ars.deep_view()),
            Err(e) => articles_response_of(body@) == Err::<Seq<ArticleV>, SyncError>(e),
        },
{
    let c = match check_envelope(body) {
        Ok(c) => c,
        Err(e) => { return Err(e); },
    };
    match decode_article_array(&c) {
        Some(ars) => Ok(ars),
        None => Err(SyncError::BadRssJson),
    }
}

/// Reads an array of feed records, exactly as `feeds_of_js` describes.
fn decode_feed_array(v: &serde_json::Value) -> (r: Option<Vec<Feed>>)
    ensures
        match r {
            Some(fs) => feeds_of_js(js_of(*v)) == Some(fs.deep_view()),
            None => feeds_of_js(js_of(*v)) is None,
        },
{
    let n = match arr_len(v) {
        Some(n) => n,
        None => { return None; },
    };
    let ghost a = js_of(*v)->Arr_0;
    let mut out: Vec<Feed> = Vec::new();
    let mut i: usize = 0;
    while i < n
        invariant
            js_of(*v) == Js::Arr(a),
            n == a.len(),
            i <= n,
            out.len() == i,
            forall|k: int| 0 <= k < i ==> feed_of_js(a[k]) is Some,
            forall|k: int| 0 <= k < i ==> #[trigger] out.deep_view()[k] == feed_of_js(a[k])->Some_0,
        decreases n - i,
    {
        let w = match arr_get(v, i) {
            Some(w) => w,
            None => { return None; },
        };
        match decode_feed(&w) {
            Some(f) => {
                let ghost prev_dv = out.deep_view();
                let ghost fv = f@;
                out.push(f);
                proof {
                    assert(out.deep_view() =~= prev_dv.push(fv));
                }
            },
            None => { return None; },
        }
        i = i + 1;
    }
    proof {
        assert(feeds_of_js(js_of(*v)) == Some(out.deep_view())) by {
            assert(out.deep_view() =~= Seq::new(a.len(), |k: int| feed_of_js(a[k])->Some_0));
        }
    }
    Some(out)
}

/// Reads an array of headline records, exactly as `headlines_of_js`
/// describes.
fn decode_headline_array(v: &serde_json::Value) -> (r: Option<Vec<Headline>>)
    ensures
        match r {
            Some(hs) => headlines_of_js(js_of(*v)) == Some(hs.deep_view()),
            None => headlines_of_js(js_of(*v)) is None,
        },
{
    let n = match arr_len(v) {
        Some(n) => n,
        None => { return None; },
    };
    let ghost a = js_of(*v)->Arr_0;
    let mut out: Vec<Headline> = Vec::new();
    let mut i: usize = 0;
    while i < n
        invariant
            js_of(*v) == Js::Arr(a),
            n == a.len(),
            i <= n,
            out.len() == i,
            forall|k: int| 0 <= k < i ==> headline_of_js(a[k]) is Some,
            forall|k: int| 0 <= k < i ==> #[trigger] out.deep_view()[k] == headline_of_js(a[k])->Some_0,
        decreases n - i,
    {
        let w = match arr_get(v, i) {
            Some(w) => w,
            None => { return None; },
        };
        match decode_headline(&w) {
            Some(h) => {
                let ghost prev_dv = out.deep_view();
                let ghost hv = h@;
                out.push(h);
                proof {
                    assert(out.deep_view() =~= prev_dv.push(hv));
                }
            },
            None => { return None; },
        }
        i = i + 1;
    }
    proof {
        assert(headlines_of_js(js_of(*v)) == Some(out.deep_view())) by {
            assert(out.deep_view() =~= Seq::new(a.len(), |k: int| headline_of_js(a[k])->Some_0));
        }
    }
    Some(out)
}

/// Reads an array of article records, exactly as `articles_of_js`
/// describes.
fn decode_article_array(v: &serde_json::Value) -> (r: Option<Vec<Article>>)
    ensures
        match r {
            Some(ars) => articles_of_js(js_of(*v)) == Some(ars.deep_view()),
            None => articles_of_js(js_of(*v)) is None,
        },
{
    let n = match arr_len(v) {
        Some(n) => n,
        None => { return None; },
    };
    let ghost a = js_of(*v)->Arr_0;
    let mut out: Vec<Article> = Vec::new();
    let mut i: usize = 0;
    while i < n
        invariant
            js_of(*v) == Js::Arr(a),
            n == a.len(),
            i <= n,
            out.len() == i,
            forall|k: int| 0 <= k < i ==> article_of_js(a[k]) is Some,
            forall|k: int| 0 <= k < i ==> #[trigger] out.deep_view()[k] == article_of_js(a[k])->Some_0,
        decreases n - i,
    {
        let w = match arr_get(v, i) {
            Some(w) => w,
            None => { return None; },
        };
        match decode_article(&w) {
            Some(ar) => {
                let ghost prev_dv = out.deep_view();
                let ghost av = ar@;
                out.push(ar);
                proof {
                    assert(out.deep_view() =~= prev_dv.push(av));
                }
            },
            None => { return None; },
        }
        i = i + 1;
    }
    proof {
        assert(articles_of_js(js_of(*v)) == Some(out.deep_view())) by {
            assert(out.deep_view() =~= Seq::new(a.len(), |k: int| article_of_js(a[k])->Some_0));
        }
    }
    Some(out)
}

/// A response whose envelope carries a nonzero status always yields
/// the protocol status error, whatever the shape of the content, and
/// even when the rest of the envelope is malformed or absent.
pub proof fn lemma_nonzero_status_is_protocol_error(body: Seq<char>)
    requires
        js_text(body) is Some,
        envelope_status(js_text(body)->Some_0) is Some,
        envelope_status(js_text(body)->Some_0)->Some_0 != 0,
    ensures
        ({
            let st = envelope_status(js_text(body)->Some_0)->Some_0;
            &&& login_response_of(body) == Err::<Seq<char>, SyncError>(SyncError::BadStatus(st))
            &&& feeds_response_of(body) == Err::<Seq<FeedV>, SyncError>(SyncError::BadStatus(st))
            &&& headlines_response_of(body) == Err::<Seq<HeadlineV>, SyncError>(SyncError::BadStatus(st))
            &&& articles_response_of(body) == Err::<Seq<ArticleV>, SyncError>(SyncError::BadStatus(st))
        }),
{
}

/// A response with a success status decodes all or nothing: when the
/// envelope or the content does not match the operation's declared
/// shape, the operation yields the decode error and never a
/// silently-wrong value; when both match, it yields exactly the
/// decoded content.
pub proof fn lemma_status_ok_decodes_all_or_nothing(body: Seq<char>)
    requires
        js_text(body) is Some,
        envelope_status(js_text(body)->Some_0) == Some(0u64),
    ensures
        ({
            let j = js_text(body)->Some_0;
            let c = envelope_content(j);
            &&& (!envelope_ok(j) || login_of_js(c) is None) ==> login_response_of(body) == Err::<
                Seq<char>,
                SyncError,
            >(SyncError::BadRssJson)
            &&& (!envelope_ok(j) || feeds_of_js(c) is None) ==> feeds_response_of(body) == Err::<
                Seq<FeedV>,
                SyncError,
            >(SyncError::BadRssJson)
            &&& (!envelope_ok(j) || headlines_of_js(c) is None) ==> headlines_response_of(body)
                == Err::<Seq<HeadlineV>, SyncError>(SyncError::BadRssJson)
            &&& (!envelope_ok(j) || articles_of_js(c) is None) ==> articles_response_of(body)
                == Err::<Seq<ArticleV>, SyncError>(SyncError::BadRssJson)
            &&& (envelope_ok(j) && login_of_js(c) is Some) ==> login_response_of(body) == Ok::<
                Seq<char>,
                SyncError,
            >(login_of_js(c)->Some_0)
            &&& (envelope_ok(j) && feeds_of_js(c) is Some) ==> feeds_response_of(body) == Ok::<
                Seq<FeedV>,
                SyncError,
            >(feeds_of_js(c)->Some_0)
            &&& (envelope_ok(j) && headlines_of_js(c) is Some) ==> headlines_response_of(body)
                == Ok::<Seq<HeadlineV>, SyncError>(headlines_of_js(c)->Some_0)
            &&& (envelope_ok(j) && articles_of_js(c) is Some) ==> articles_response_of(body)
                == Ok::<Seq<ArticleV>, SyncError>(articles_of_js(c)->Some_0)
        }),
{
}

} // verus!

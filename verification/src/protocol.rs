use vstd::prelude::*;

use crate::json_build::{WireField, obj_fields, rendered, obj_new, obj_insert_str, obj_insert_num,
    obj_render};
use crate::records::{Config, ConfigV};

verus! {

/// A remote operation, as a tagged variant carrying only its own
/// parameters: login, the feed list, the headlines of one feed since
/// an id, or a batch of articles keyed by a comma-joined id list.
pub enum TtrssOperation {
    Login,
    GetFeeds,
    GetHeadlines(u32, u32),
    GetArticle(String),
}

pub enum OpV {
    Login,
    GetFeeds,
    GetHeadlines(u32, u32),
    GetArticle(Seq<char>),
}

impl View for TtrssOperation {
    type V = OpV;

    open spec fn view(&self) -> OpV {
        match self {
            TtrssOperation::Login => OpV::Login,
            TtrssOperation::GetFeeds => OpV::GetFeeds,
            TtrssOperation::GetHeadlines(feed_id, since_id) => OpV::GetHeadlines(*feed_id, *since_id),
            TtrssOperation::GetArticle(ids) => OpV::GetArticle(ids@),
        }
    }
}

/// Whether an operation may only be issued on an authenticated
/// session. Every operation except login requires the token; a missing
/// token there is a contract violation of the caller, not a runtime
/// error.
pub open spec fn needs_session(op: OpV) -> bool {
    !(op is Login)
}

/// The session-authenticated request builder: an optional server
/// token (absent exactly until a successful login) beside the
/// immutable run configuration.
pub struct TtrssRequest {
    pub session_id: Option<String>,
    pub config: Config,
}

pub struct TtrssRequestV {
    pub session_id: Option<Seq<char>>,
    pub config: ConfigV,
}

impl View for TtrssRequest {
    type V = TtrssRequestV;

    open spec fn view(&self) -> TtrssRequestV {
        TtrssRequestV {
            session_id: match self.session_id {
                Some(s) => Some(s@),
                None => None,
            },
            config: self.config@,
        }
    }
}

/// The exact field set each operation serializes, keyed by wire field
/// name: the single exhaustive mapping from operation to request
/// shape. Some operations resend the credentials and some do not; the
/// asymmetry is the server's wire protocol and is kept exactly.
pub open spec fn wire_fields(rq: TtrssRequestV, op: OpV) -> Map<Seq<char>, WireField> {
    match op {
        OpV::Login => Map::<Seq<char>, WireField>::empty()
            .insert("op"@, WireField::S("login"@))
            .insert("user"@, WireField::S(rq.config.user))
            .insert("password"@, WireField::S(rq.config.pass)),
        OpV::GetFeeds => Map::<Seq<char>, WireField>::empty()
            .insert("op"@, WireField::S("getFeeds"@))
            .insert("sid"@, WireField::S(rq.session_id->Some_0)),
        OpV::GetHeadlines(feed_id, since_id) => Map::<Seq<char>, WireField>::empty()
            .insert("op"@, WireField::S("getHeadlines"@))
            .insert("user"@, WireField::S(rq.config.user))
            .insert("password"@, WireField::S(rq.config.pass))
            .insert("sid"@, WireField::S(rq.session_id->Some_0))
            .insert("feed_id"@, WireField::U(feed_id))
            .insert("since_id"@, WireField::U(since_id)),
        OpV::GetArticle(ids) => Map::<Seq<char>, WireField>::empty()
            .insert("op"@, WireField::S("getArticle"@))
            .insert("user"@, WireField::S(rq.config.user))
            .insert("sid"@, WireField::S(rq.session_id->Some_0))
            .insert("article_id"@, WireField::S(ids))
            .insert("password"@, WireField::S(rq.config.pass)),
    }
}

impl TtrssRequest {
    /// An unauthenticated request builder: no token yet, so only the
    /// login operation is valid on it.
    pub fn new_login(config: Config) -> (r: TtrssRequest)
        ensures
            r@.session_id is None,
            r@.config == config@,
    {
        TtrssRequest { session_id: None, config }
    }

    /// The authenticated request builder: the prior builder consumed,
    /// its configuration kept, and the server-issued token installed.
    pub fn new(login_req: TtrssRequest, session_id: String) -> (r: TtrssRequest)
        ensures
            r@.session_id == Some(session_id@),
            r@.config == login_req@.config,
    {
        TtrssRequest { session_id: Some(session_id), config: login_req.config }
    }

    /// Builds the request object for an operation, holding exactly the
    /// fields of `wire_fields`: no field may be silently omitted or
    /// smuggled in.
    pub fn get_req_json(&self, op: TtrssOperation) -> (r: serde_json::Map<
        String,
        serde_json::Value,
    >)
        requires
            needs_session(op@) ==> self.session_id is Some,
        ensures
            obj_fields(r) == wire_fields(self@, op@),
    {
        let mut m = obj_new();
        match op {
            TtrssOperation::Login => {
                obj_insert_str(&mut m, "op", "login");
                obj_insert_str(&mut m, "user", self.config.user.as_str());
                obj_insert_str(&mut m, "password", self.config.pass.as_str());
            },
            TtrssOperation::GetFeeds => {
                obj_insert_str(&mut m, "op", "getFeeds");
                obj_insert_str(&mut m, "sid", self.session_id.as_ref().unwrap().as_str());
            },
            TtrssOperation::GetHeadlines(feed_id, since_id) => {
                obj_insert_str(&mut m, "op", "getHeadlines");
                obj_insert_str(&mut m, "user", self.config.user.as_str());
                obj_insert_str(&mut m, "password", self.config.pass.as_str());
                obj_insert_str(&mut m, "sid", self.session_id.as_ref().unwrap().as_str());
                obj_insert_num(&mut m, "feed_id", feed_id);
                obj_insert_num(&mut m, "since_id", since_id);
            },
            TtrssOperation::GetArticle(ids) => {
                obj_insert_str(&mut m, "op", "getArticle");
                obj_insert_str(&mut m, "user", self.config.user.as_str());
                obj_insert_str(&mut m, "sid", self.session_id.as_ref().unwrap().as_str());
                obj_insert_str(&mut m, "article_id", ids.as_str());
                obj_insert_str(&mut m, "password", self.config.pass.as_str());
            },
        }
        m
    }

    /// The serialized body of an operation's request: the canonical
    /// rendering of exactly the operation's field set.
    pub fn request_body(&self, op: TtrssOperation) -> (r: String)
        requires
            needs_session(op@) ==> self.session_id is Some,
        ensures
            r@ == rendered(wire_fields(self@, op@)),
    {
        let m = self.get_req_json(op);
        obj_render(&m)
    }
}

/// Every operation except login serializes a `sid` field that carries
/// the session token, and login's request carries no `sid` field at
/// all.
pub proof fn lemma_sid_field(rq: TtrssRequestV, op: OpV)
    requires
        needs_session(op) ==> rq.session_id is Some,
    ensures
        needs_session(op) ==> wire_fields(rq, op).contains_key("sid"@)
            && wire_fields(rq, op)["sid"@] == WireField::S(rq.session_id->Some_0),
        !needs_session(op) ==> !wire_fields(rq, op).contains_key("sid"@),
{
    reveal_strlit("op");
    reveal_strlit("user");
    reveal_strlit("password");
    reveal_strlit("sid");
    reveal_strlit("feed_id");
    reveal_strlit("since_id");
    reveal_strlit("article_id");
    assert("sid"@.len() == 3);
    assert("op"@.len() == 2);
    assert("user"@.len() == 4);
    assert("password"@.len() == 8);
    assert("feed_id"@.len() == 7);
    assert("since_id"@.len() == 8);
    assert("article_id"@.len() == 10);
    assert("sid"@ != "op"@);
    assert("sid"@ != "user"@);
    assert("sid"@ != "password"@);
    assert("sid"@ != "feed_id"@);
    assert("sid"@ != "since_id"@);
    assert("sid"@ != "article_id"@);
}

} // verus!

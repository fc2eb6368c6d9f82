use vstd::prelude::*;
use crate::error::AppError;
use crate::ids::{uuid_parsed, uuid_text, uuid_text_of, parse_uuid, new_uuid};
use crate::roles::{Role, role_name};
use crate::text::joined;

verus! {

#[verifier::external_type_specification]
#[verifier::external_body]
pub struct ExJsonError(serde_json::Error);

/// How long a session lives in the cache: thirty days, in seconds.
pub const SESSION_TTL_SECONDS: u64 = 2_592_000;

/// The name of the cookie that carries the session id.
pub const SESSION_COOKIE: &'static str = "session_id";

/// The JSON object text with the string fields `user_id`, `email` and `role`.
pub uninterp spec fn session_json_of(user_id: Seq<char>, email: Seq<char>, role: Seq<char>) -> Seq<char>;

/// Who a session belongs to.
#[derive(Debug, Clone)]
pub struct SessionData {
    pub user_id: u128,
    pub email: String,
    pub role: String,
}

/// The string fields of a stored session object, each where present.
pub struct SessionFields {
    pub user_id: Option<String>,
    pub email: Option<String>,
    pub role: Option<String>,
}

impl View for SessionData {
    type V = (u128, Seq<char>, Seq<char>);

    open spec fn view(&self) -> (u128, Seq<char>, Seq<char>) {
        (self.user_id, self.email@, self.role@)
    }
}

/// The three field texts that a JSON text was written from, where it was.
pub open spec fn session_json_source(text: Seq<char>) -> Option<(Seq<char>, Seq<char>, Seq<char>)> {
    if exists|f: (Seq<char>, Seq<char>, Seq<char>)| text == #[trigger] session_json_of(f.0, f.1, f.2) {
        Some(choose|f: (Seq<char>, Seq<char>, Seq<char>)| text == #[trigger] session_json_of(f.0, f.1, f.2))
    } else {
        None
    }
}

/// Whether an optional text is present and holds `s`.
pub open spec fn holds_text(o: Option<String>, s: Seq<char>) -> bool {
    o matches Some(x) && x@ == s
}

/// A JSON text written from three fields reads back as those fields.
pub open spec fn fields_read_back(r: Result<SessionFields, serde_json::Error>, text: Seq<char>) -> bool {
    session_json_source(text) matches Some(f) ==> (r matches Ok(g) && holds_text(g.user_id, f.0)
        && holds_text(g.email, f.1) && holds_text(g.role, f.2))
}

/// The session that a stored text holds, where it holds one.
pub open spec fn stored_session(text: Seq<char>) -> Option<(u128, Seq<char>, Seq<char>)> {
    match session_json_source(text) {
        Some(f) => match uuid_parsed(f.0) {
            Some(id) => Some((id, f.1, f.2)),
            None => None,
        },
        None => None,
    }
}

/// The cache key under which a session id is stored.
pub open spec fn session_key_of(id: Seq<char>) -> Seq<char> {
    "session:"@ + id
}

/// What reading session `id` from a cache holding `cache` gives.
pub open spec fn read_model(cache: Map<Seq<char>, Seq<char>>, id: Seq<char>) -> Option<(u128, Seq<char>, Seq<char>)> {
    if cache.contains_key(session_key_of(id)) {
        stored_session(cache[session_key_of(id)])
    } else {
        None
    }
}

/// Relies on serde_json's `to_string` on a map of three strings, which
/// cannot fail (string keys, string values): a JSON object text, from which
/// `from_str` reads the same three strings back.
#[verifier::external_body]
fn json_write_session(user_id: &str, email: &str, role: &str) -> (r: Result<String, serde_json::Error>)
    ensures
        r is Ok,
        r matches Ok(t) ==> t@ == session_json_of(user_id@, email@, role@),
        r matches Ok(t) ==> session_json_source(t@) == Some((user_id@, email@, role@)),
{
    let mut fields = std::collections::BTreeMap::new();
    fields.insert("user_id", user_id);
    fields.insert("email", email);
    fields.insert("role", role);
    serde_json::to_string(&fields)
}

/// Relies on serde_json's `from_str` into a JSON object: the string fields
/// `user_id`, `email` and `role`, each where present.
#[verifier::external_body]
fn json_read_session(text: &str) -> (r: Result<SessionFields, serde_json::Error>)
    ensures
        fields_read_back(r, text@),
{
    serde_json::from_str::<std::collections::BTreeMap<String, serde_json::Value>>(text).map(|m| SessionFields {
        user_id: m.get("user_id").and_then(|v| v.as_str()).map(String::from),
        email: m.get("email").and_then(|v| v.as_str()).map(String::from),
        role: m.get("role").and_then(|v| v.as_str()).map(String::from),
    })
}

impl SessionData {
    /// The session of a user who has just signed in with `role`.
    pub fn for_user(user_id: u128, email: &str, role: Role) -> (r: SessionData)
        ensures
            r@ == (user_id, email@, role_name(role)),
    {
        SessionData { user_id, email: String::from_str(email), role: role.to_string() }
    }
}

/// A fresh random session id: the text of a random UUID.
pub fn new_session_id() -> (r: String)
    ensures
        exists|u: u128| #[trigger] uuid_text_of(u) == r@,
{
    uuid_text(new_uuid())
}

/// The cache key under which a session id is stored.
pub fn session_key(session_id: &str) -> (r: String)
    ensures
        r@ == session_key_of(session_id@),
{
    joined("session:", session_id)
}

/// The text stored in the cache for a session.
pub fn encode_session(data: &SessionData) -> (r: Result<String, AppError>)
    ensures
        r matches Ok(t) && stored_session(t@) == Some(data@),
{
    let id = uuid_text(data.user_id);
    match json_write_session(id.as_str(), data.email.as_str(), data.role.as_str()) {
        Ok(t) => Ok(t),
        Err(e) => Err(AppError::InternalError(
            joined("Failed to serialize session: ", e.to_string().as_str()),
        )),
    }
}

/// The session held by a stored text.
pub fn decode_session(text: &str) -> (r: Result<SessionData, AppError>)
    ensures
        stored_session(text@) matches Some(v) ==> (r matches Ok(d) && d@ == v),
        r matches Err(e) ==> e is InternalError,
{
    match json_read_session(text) {
        Ok(SessionFields { user_id: Some(u), email: Some(email), role: Some(role) }) => {
            match parse_uuid(u.as_str()) {
                Some(user_id) => Ok(SessionData { user_id, email, role }),
                None => Err(AppError::internal("Failed to deserialize session: invalid user_id")),
            }
        },
        Ok(_) => Err(AppError::internal("Failed to deserialize session: missing field")),
        Err(e) => Err(AppError::InternalError(
            joined("Failed to deserialize session: ", e.to_string().as_str()),
        )),
    }
}

/// The session that a cache lookup found: none where the cache held nothing.
pub fn get_session_data(raw: Option<String>) -> (r: Result<Option<SessionData>, AppError>)
    ensures
        raw is None ==> r matches Ok(None),
        raw matches Some(t) ==> (stored_session(t@) matches Some(v) ==> (r matches Ok(Some(d)) && d@ == v)),
        r matches Err(e) ==> e is InternalError,
{
    match raw {
        None => Ok(None),
        Some(t) => match decode_session(t.as_str()) {
            Ok(d) => Ok(Some(d)),
            Err(e) => Err(e),
        },
    }
}

/// Two session ids share a cache key only when they are the same id.
pub proof fn lemma_session_key_injective(a: Seq<char>, b: Seq<char>)
    ensures
        session_key_of(a) == session_key_of(b) ==> a == b,
{
    if session_key_of(a) == session_key_of(b) {
        let n = "session:"@.len();
        assert(a =~= session_key_of(a).subrange(n as int, session_key_of(a).len() as int));
        assert(b =~= session_key_of(b).subrange(n as int, session_key_of(b).len() as int));
    }
}

/// Reading a session gives back what was stored for it; after it is deleted,
/// or where it was never stored, reading gives nothing; storing or deleting
/// one session leaves every other session as it was.
pub proof fn lemma_session_store(cache: Map<Seq<char>, Seq<char>>, id: Seq<char>, other: Seq<char>, text: Seq<char>, data: (u128, Seq<char>, Seq<char>))
    requires
        stored_session(text) == Some(data),
        other != id,
    ensures
        read_model(cache.insert(session_key_of(id), text), id) == Some(data),
        read_model(cache.insert(session_key_of(id), text).remove(session_key_of(id)), id) is None,
        read_model(Map::<Seq<char>, Seq<char>>::empty(), id) is None,
        read_model(cache.insert(session_key_of(id), text), other) == read_model(cache, other),
        read_model(cache.remove(session_key_of(id)), other) == read_model(cache, other),
{
    lemma_session_key_injective(id, other);
}

} // verus!

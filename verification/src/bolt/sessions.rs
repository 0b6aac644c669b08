//! Sessions and API tokens in the sled store: new ones, the token listing
//! (newest first) and the lookup of a token by id or by the start of its id.
use vstd::prelude::*;
use crate::bolt::keys::{owned_bucket, owned_bucket_name, token_id, token_id_text};
use crate::bolt::store::{BoltStore, counter_or_zero};
use crate::error::{DbError, not_found};
use crate::model::{APIToken, Session};
use crate::sort::{Order, sort_stable, sorted_by, stable_arrangement};
use crate::table::Duplicate;
use crate::text::{chars_of, starts_with_chars, str_equal};
use crate::time::{before, now};

verus! {

/// The message for a session that does not exist.
pub open spec fn session_missing() -> Seq<char> {
    "Сессия не найдена"@
}

/// The message for a token that does not exist.
pub open spec fn token_missing() -> Seq<char> {
    "Токен не найден"@
}

impl BoltStore {
    /// A new session as it is stored, with the bucket `sessions_<user id>`
    /// it goes to: created and active now, under the next id of that bucket.
    pub fn new_session(&mut self, session: Session) -> (r: (String, Session))
        requires
            counter_or_zero(old(self).counters(), owned_bucket_name("sessions_"@, session.user_id as int)) < i32::MAX,
        ensures
            final(self).buckets() == old(self).buckets(),
            final(self).path() == old(self).path(),
            ({
                let bucket = owned_bucket_name("sessions_"@, session.user_id as int);
                let id = counter_or_zero(old(self).counters(), bucket) + 1;
                &&& r.0@ == bucket
                &&& r.1.id == id
                &&& final(self).counters() == old(self).counters().insert(bucket, id as i32)
                &&& r.1.created == r.1.last_active
                &&& r.1 == (Session { id: r.1.id, created: r.1.created, last_active: r.1.last_active, ..session })
            }),
    {
        let bucket = owned_bucket("sessions_", session.user_id);
        let id = self.next_id(bucket.as_str());
        let t = now();
        (bucket, Session { id, created: t, last_active: t, ..session })
    }

    /// A new API token as it is stored, with the bucket `tokens_<user id>`
    /// it goes to: created now, not expired, its id `token_` and the hex of
    /// `i64::MAX` less the next number of that bucket.
    pub fn new_api_token(&mut self, token: APIToken) -> (r: (String, APIToken))
        requires
            counter_or_zero(old(self).counters(), owned_bucket_name("tokens_"@, token.user_id as int)) < i32::MAX,
        ensures
            final(self).buckets() == old(self).buckets(),
            final(self).path() == old(self).path(),
            ({
                let bucket = owned_bucket_name("tokens_"@, token.user_id as int);
                let n = counter_or_zero(old(self).counters(), bucket) + 1;
                &&& r.0@ == bucket
                &&& r.1.id@ == token_id_text(n)
                &&& final(self).counters() == old(self).counters().insert(bucket, n as i32)
                &&& r.1.user_id == token.user_id
                &&& !r.1.expired
            }),
    {
        let bucket = owned_bucket("tokens_", token.user_id);
        let n = self.next_id(bucket.as_str());
        proof { assert(n >= 1); }
        (bucket, APIToken { id: token_id(n), user_id: token.user_id, created: now(), expired: false })
    }
}

/// Tokens ordered newest first.
pub struct NewestFirst;

impl Order<APIToken> for NewestFirst {
    open spec fn le(&self, a: APIToken, b: APIToken) -> bool {
        !before(a.created, b.created)
    }

    proof fn lemma_total(&self, a: APIToken, b: APIToken) {
    }

    proof fn lemma_trans(&self, a: APIToken, b: APIToken, c: APIToken) {
    }

    fn le_exec(&self, a: &APIToken, b: &APIToken) -> (r: bool) {
        !a.created.is_before(&b.created)
    }
}

/// The tokens of a user, newest first; tokens created at the same time in
/// stored order.
pub fn sort_tokens(tokens: &Vec<APIToken>) -> (r: Vec<APIToken>)
    ensures
        sorted_by(r@, NewestFirst),
        r@.to_multiset() == tokens@.to_multiset(),
        exists|p: Seq<int>| stable_arrangement(r@, tokens@, NewestFirst, p),
{
    sort_stable(tokens, &NewestFirst)
}

/// The position of the first token whose id begins with `prefix`, or the
/// error that there is none.
pub fn find_token_by_prefix(tokens: &Vec<APIToken>, prefix: &str) -> (r: Result<usize, DbError>)
    ensures
        match r {
            Ok(i) => i < tokens@.len() && prefix@.is_prefix_of(tokens@[i as int].id@)
                && forall|j: int| 0 <= j < i ==> !prefix@.is_prefix_of(#[trigger] tokens@[j].id@),
            Err(e) => (e matches DbError::NotFound(m) && m@ == token_missing())
                && forall|j: int| 0 <= j < tokens@.len() ==> !prefix@.is_prefix_of(#[trigger] tokens@[j].id@),
        },
{
    let p = chars_of(prefix);
    let mut i: usize = 0;
    while i < tokens.len()
        invariant
            i <= tokens@.len(),
            p@ == prefix@,
            forall|j: int| 0 <= j < i ==> !prefix@.is_prefix_of(#[trigger] tokens@[j].id@),
        decreases tokens.len() - i,
    {
        if starts_with_chars(&chars_of(tokens[i].id.as_str()), &p) {
            return Ok(i);
        }
        i = i + 1;
    }
    Err(not_found("Токен не найден"))
}

/// Whether `t` is the first token of `tokens` with the id `id`.
pub open spec fn is_first_token(tokens: Seq<APIToken>, id: Seq<char>, t: APIToken) -> bool {
    exists|i: int| 0 <= i < tokens.len() && tokens[i] == t && t.id@ == id
        && forall|j: int| 0 <= j < i ==> (#[trigger] tokens[j]).id@ != id
}

/// A token is found by its id, as long as no token before it holds the
/// same id: the lookup gives that token and no other, and does not fail.
pub proof fn law_token_found_by_id(tokens: Seq<APIToken>, i: int, t: APIToken)
    requires
        0 <= i < tokens.len(),
        forall|j: int| 0 <= j < i ==> (#[trigger] tokens[j]).id@ != tokens[i].id@,
    ensures
        is_first_token(tokens, tokens[i].id@, tokens[i]),
        is_first_token(tokens, tokens[i].id@, t) ==> t == tokens[i],
        !(forall|j: int| 0 <= j < tokens.len() ==> (#[trigger] tokens[j]).id@ != tokens[i].id@),
{
    if is_first_token(tokens, tokens[i].id@, t) {
        let k = choose|k: int| 0 <= k < tokens.len() && tokens[k] == t && t.id@ == tokens[i].id@
            && forall|j: int| 0 <= j < k ==> (#[trigger] tokens[j]).id@ != tokens[i].id@;
        if k < i {
            assert(tokens[k].id@ != tokens[i].id@);
        } else if k > i {
            assert(tokens[i].id@ != tokens[i].id@);
        }
    }
    assert(tokens[i].id@ == tokens[i].id@);
}

/// The first token with the given id, in the order given, or the error
/// that there is none.
pub fn find_api_token(tokens: &Vec<APIToken>, id: &str) -> (r: Result<APIToken, DbError>)
    ensures
        match r {
            Ok(t) => is_first_token(tokens@, id@, t),
            Err(e) => (e matches DbError::NotFound(m) && m@ == token_missing())
                && forall|j: int| 0 <= j < tokens@.len() ==> (#[trigger] tokens@[j]).id@ != id@,
        },
{
    let mut i: usize = 0;
    while i < tokens.len()
        invariant
            i <= tokens@.len(),
            forall|j: int| 0 <= j < i ==> (#[trigger] tokens@[j]).id@ != id@,
        decreases tokens.len() - i,
    {
        if str_equal(tokens[i].id.as_str(), id) {
            return Ok(tokens[i].duplicate());
        }
        i = i + 1;
    }
    Err(not_found("Токен не найден"))
}

} // verus!

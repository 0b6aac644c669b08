//! Users in the sled store: new accounts, the text search, the login lookup
//! and the listing of administrators.
use vstd::prelude::*;
use crate::bolt::sequence::{sequence_failed, took_sequence};
use crate::bolt::store::BoltStore;
use crate::error::{DbError, not_found};
use crate::model::{RetrieveQueryParams, User, copy_opt_string};
use crate::table::Duplicate;
use crate::page::{Selector, keep_fn, paged, take_page};
use crate::password::{bcrypt_error_text, bcrypt_verdict, hash_password};
use crate::text::{chars_of, contains_chars, contains_seq, lowercase, str_equal, to_lowercase};
use crate::time::now;

verus! {

/// The bucket of the users.
pub open spec fn users_bucket() -> Seq<char> {
    "users"@
}

/// The message for a user that does not exist.
pub open spec fn user_missing() -> Seq<char> {
    "Пользователь не найден"@
}

/// Whether `a` and `b` agree on everything but the id, the creation time,
/// the password and the external flag.
pub open spec fn same_profile(a: User, b: User) -> bool {
    &&& a.username@ == b.username@
    &&& a.name@ == b.name@
    &&& a.email@ == b.email@
    &&& a.admin == b.admin
    &&& a.alert == b.alert
    &&& a.pro == b.pro
    &&& a.totp == b.totp
    &&& a.email_otp == b.email_otp
}

impl BoltStore {
    /// A new account as it is stored: the password replaced by its hash,
    /// created now, under the next number of the sequence of `users`.
    pub fn new_user(&mut self, user: User, password: &str) -> (r: Result<User, DbError>)
        ensures
            final(self).counters() == old(self).counters(),
            final(self).path() == old(self).path(),
            match r {
                Ok(u) => {
                    &&& took_sequence(old(self).buckets(), final(self).buckets(), users_bucket(), u.id)
                    &&& same_profile(u, user)
                    &&& u.external == user.external
                    &&& bcrypt_verdict(password@, u.password@) == Some(true)
                },
                Err(e) => sequence_failed(old(self).buckets(), final(self).buckets(), users_bucket(), e)
                    || (final(self).buckets() == old(self).buckets()
                        && exists|t: Seq<char>| e matches DbError::Other(m) && m@ == #[trigger] bcrypt_error_text(t)),
            },
    {
        let hashed = match hash_password(password) {
            Ok(h) => h,
            Err(e) => { return Err(e); },
        };
        let id = match self.next_sequence("users") {
            Ok(id) => id,
            Err(e) => { return Err(e); },
        };
        Ok(User { id, created: now(), password: hashed, ..user })
    }

    /// A new account without a password, kept as external: created now,
    /// under the next number of the sequence of `users`.
    pub fn new_external_user(&mut self, user: User) -> (r: Result<User, DbError>)
        ensures
            final(self).counters() == old(self).counters(),
            final(self).path() == old(self).path(),
            match r {
                Ok(u) => {
                    &&& took_sequence(old(self).buckets(), final(self).buckets(), users_bucket(), u.id)
                    &&& same_profile(u, user)
                    &&& u.external
                    &&& u.password@ == user.password@
                },
                Err(e) => sequence_failed(old(self).buckets(), final(self).buckets(), users_bucket(), e),
            },
    {
        let id = match self.next_sequence("users") {
            Ok(id) => id,
            Err(e) => { return Err(e); },
        };
        Ok(User { id, created: now(), external: true, ..user })
    }
}

/// The text search of the user listing: a filter that is absent or empty
/// keeps everyone; otherwise a user is kept where the lower-cased filter is
/// part of the lower-cased username, name or email.
pub struct UserSearch {
    pub filter: Option<String>,
}

/// Whether the user search `filter` keeps `u`.
pub open spec fn user_matches(filter: Option<String>, u: User) -> bool {
    match filter {
        None => true,
        Some(f) => f@.len() == 0
            || contains_seq(lowercase(u.username@), lowercase(f@))
            || contains_seq(lowercase(u.name@), lowercase(f@))
            || contains_seq(lowercase(u.email@), lowercase(f@)),
    }
}

impl Selector<User> for UserSearch {
    open spec fn accepts(&self, u: User) -> bool {
        user_matches(self.filter, u)
    }

    fn test(&self, u: &User) -> (b: bool) {
        match &self.filter {
            None => true,
            Some(f) => {
                if f.as_str().is_empty() {
                    return true;
                }
                let needle = chars_of(to_lowercase(f.as_str()).as_str());
                contains_chars(&chars_of(to_lowercase(u.username.as_str()).as_str()), &needle)
                    || contains_chars(&chars_of(to_lowercase(u.name.as_str()).as_str()), &needle)
                    || contains_chars(&chars_of(to_lowercase(u.email.as_str()).as_str()), &needle)
            },
        }
    }
}

/// The page of the user listing: the stored users (newest first) after the
/// first `params.offset`, those the text search keeps, up to the one that
/// makes their number exceed `params.count`.
pub fn select_users(users: &Vec<User>, params: &RetrieveQueryParams) -> (r: Vec<User>)
    ensures
        r@ == paged(users@, params.offset as int, UserSearch { filter: params.filter }, params.count),
{
    let search = UserSearch { filter: copy_opt_string(&params.filter) };
    take_page(users, &search, params.offset, params.count)
}

/// Whether `u` has the username `login` or the email `email`.
pub open spec fn login_matches(u: User, login: Seq<char>, email: Seq<char>) -> bool {
    u.username@ == login || u.email@ == email
}

/// The first stored user whose username is `login` or whose email is
/// `email`, or the error that there is none.
pub fn find_user_by_login_or_email(users: &Vec<User>, login: &str, email: &str) -> (r: Result<User, DbError>)
    ensures
        match r {
            Ok(u) => exists|i: int| 0 <= i < users@.len() && users@[i] == u && login_matches(users@[i], login@, email@)
                && forall|j: int| 0 <= j < i ==> !login_matches(#[trigger] users@[j], login@, email@),
            Err(e) => (e matches DbError::NotFound(m) && m@ == user_missing())
                && forall|i: int| 0 <= i < users@.len() ==> !login_matches(#[trigger] users@[i], login@, email@),
        },
{
    let mut i: usize = 0;
    while i < users.len()
        invariant
            i <= users@.len(),
            forall|j: int| 0 <= j < i ==> !login_matches(#[trigger] users@[j], login@, email@),
        decreases users.len() - i,
    {
        if str_equal(users[i].username.as_str(), login) || str_equal(users[i].email.as_str(), email) {
            return Ok(users[i].duplicate());
        }
        i = i + 1;
    }
    Err(not_found("Пользователь не найден"))
}

/// Keeps the administrators.
pub struct AdminsOnly;

impl Selector<User> for AdminsOnly {
    open spec fn accepts(&self, u: User) -> bool {
        u.admin
    }

    fn test(&self, u: &User) -> (b: bool) {
        u.admin
    }
}

/// The administrators among the stored users, in stored order.
pub fn select_admins(users: &Vec<User>) -> (r: Vec<User>)
    ensures
        r@ == users@.filter(keep_fn(AdminsOnly)),
{
    let r = take_page(users, &AdminsOnly, 0, None);
    assert(users@.subrange(0, users@.len() as int) =~= users@);
    r
}

} // verus!

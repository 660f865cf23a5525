use vstd::prelude::*;

use crate::error::AppError;
use crate::ids::{format_uuid, uuid_text};

verus! {

/// A user account (without its password hash).
#[derive(Debug, Clone)]
pub struct User {
    pub id: u128,
    pub name: String,
    pub email: String,
    pub is_admin: bool,
    pub created_at: i64,
    pub updated_at: i64,
}

/// The escape of one character in a LIKE pattern: the escape character `\`,
/// and the wildcards `%` and `_`, get a `\` in front.
pub open spec fn escape_char_text(c: char) -> Seq<char> {
    if c == '\\' || c == '%' || c == '_' {
        seq!['\\', c]
    } else {
        seq![c]
    }
}

/// A text with every LIKE wildcard and escape character escaped.
pub open spec fn escape_like_text(s: Seq<char>) -> Seq<char>
    decreases s.len(),
{
    if s.len() == 0 {
        Seq::empty()
    } else {
        escape_like_text(s.drop_last()) + escape_char_text(s.last())
    }
}

/// Escapes `\`, `%` and `_` so that a text matches itself in a LIKE pattern
/// with `ESCAPE '\'`.
pub fn escape_like(input: &str) -> (r: String)
    ensures
        r@ == escape_like_text(input@),
{
    let n = input.unicode_len();
    let mut out = String::new();
    let mut i: usize = 0;
    while i < n
        invariant
            n == input@.len(),
            0 <= i <= n,
            out@ == escape_like_text(input@.take(i as int)),
        decreases n - i,
    {
        let c = input.get_char(i);
        proof {
            reveal_strlit("\\\\");
            reveal_strlit("\\%");
            reveal_strlit("\\_");
            assert(input@.take(i + 1).drop_last() =~= input@.take(i as int));
            assert(input@.take(i + 1).last() == c);
        }
        if c == '\\' {
            out = out.concat("\\\\");
        } else if c == '%' {
            out = out.concat("\\%");
        } else if c == '_' {
            out = out.concat("\\_");
        } else {
            let one = input.substring_char(i, i + 1);
            assert(one@ =~= seq![c]);
            out = out.concat(one);
        }
        assert(out@ =~= escape_like_text(input@.take(i + 1)));
        i = i + 1;
    }
    assert(input@.take(n as int) =~= input@);
    out
}

/// The LIKE pattern of a user search: the escaped query between `%` wildcards,
/// so that it matches names and e-mail addresses that contain the query.
pub open spec fn search_pattern_text(query: Seq<char>) -> Seq<char> {
    "%"@ + escape_like_text(query) + "%"@
}

/// Builds the LIKE pattern of a user search.
pub fn search_pattern(query: &str) -> (p: String)
    ensures
        p@ == search_pattern_text(query@),
{
    let escaped = escape_like(query);
    String::from_str("%").concat(escaped.as_str()).concat("%")
}

/// Message of a missing user.
pub open spec fn user_not_found_text(id: u128) -> Seq<char> {
    "user "@ + uuid_text(id) + " not found"@
}

/// The result of a lookup of user `id`: the user, or not found.
pub fn found_user(id: u128, found: Option<User>) -> (r: Result<User, AppError>)
    ensures
        found is Some ==> r == Ok::<User, AppError>(found->0),
        found is None ==> r is Err && r->Err_0 is NotFound && r->Err_0.text() == user_not_found_text(id),
{
    match found {
        Some(u) => Ok(u),
        None => {
            let msg = String::from_str("user ").concat(format_uuid(id).as_str()).concat(" not found");
            Err(AppError::NotFound(msg))
        },
    }
}

/// Message of a missing e-mail address.
pub open spec fn email_not_found_text(email: Seq<char>) -> Seq<char> {
    "user with email "@ + email + " not found"@
}

/// The result of a lookup of a user by e-mail address.
pub fn found_user_by_email(email: &str, found: Option<User>) -> (r: Result<User, AppError>)
    ensures
        found is Some ==> r == Ok::<User, AppError>(found->0),
        found is None ==> r is Err && r->Err_0 is NotFound && r->Err_0.text() == email_not_found_text(email@),
{
    match found {
        Some(u) => Ok(u),
        None => Err(AppError::NotFound(String::from_str("user with email ").concat(email).concat(" not found"))),
    }
}

/// Decides a login: the user found for the e-mail address is let in only when
/// the password check passed; a missing user and a wrong password are refused
/// alike; a failing password check is passed on.
pub fn authenticate(found: Option<User>, password_check: Result<bool, AppError>) -> (r: Result<User, AppError>)
    ensures
        found is None ==> r is Err && r->Err_0 is InvalidCredentials,
        found is Some && password_check is Err ==> r is Err && r->Err_0 == password_check->Err_0,
        found is Some && password_check is Ok ==> (r is Ok <==> password_check->Ok_0),
        found is Some && password_check is Ok && !password_check->Ok_0 ==> r is Err && r->Err_0 is InvalidCredentials,
        r is Ok ==> r->Ok_0 == found->0,
{
    match found {
        None => Err(AppError::InvalidCredentials),
        Some(u) => {
            match password_check {
                Err(e) => Err(e),
                Ok(true) => Ok(u),
                Ok(false) => Err(AppError::InvalidCredentials),
            }
        },
    }
}

/// An escaped text has no unescaped wildcard: every `%` and `_` in it follows
/// a `\`, and escaping never shortens a text.
pub proof fn lemma_escape_like_guards_wildcards(s: Seq<char>)
    ensures
        escape_like_text(s).len() >= s.len(),
        forall|i: int| 0 <= i < escape_like_text(s).len() && (#[trigger] escape_like_text(s)[i] == '%' || escape_like_text(s)[i] == '_')
            ==> i > 0 && escape_like_text(s)[i - 1] == '\\',
    decreases s.len(),
{
    if s.len() > 0 {
        lemma_escape_like_guards_wildcards(s.drop_last());
        let rest = escape_like_text(s.drop_last());
        let t = escape_like_text(s);
        assert forall|i: int| 0 <= i < t.len() && (#[trigger] t[i] == '%' || t[i] == '_') implies i > 0 && t[i - 1] == '\\' by {
            if i < rest.len() {
                assert(t[i] == rest[i]);
                assert(t[i - 1] == rest[i - 1]);
            }
        }
    }
}

} // verus!

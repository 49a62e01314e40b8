use vstd::prelude::*;

use crate::models::{User, UserSession};

verus! {

/// Why a lookup in the users or sessions table gave no single answer.
#[derive(PartialEq, Eq, Structural, Clone, Copy, Debug)]
pub enum LookupError {
    NoUserFound,
    NoTokenFound,
}

impl LookupError {
    pub open spec fn spec_message(self) -> Seq<char> {
        match self {
            LookupError::NoUserFound => "no user found"@,
            LookupError::NoTokenFound => "no token found"@,
        }
    }

    /// The text shown for this error.
    pub fn message(&self) -> (m: String)
        ensures
            m@ == self.spec_message(),
    {
        match self {
            LookupError::NoUserFound => "no user found".to_owned(),
            LookupError::NoTokenFound => "no token found".to_owned(),
        }
    }
}

/// Which column of the users table a login name is matched against.
#[derive(Debug)]
pub enum UserKey {
    Email(String),
    Nickname(String),
}

pub enum UserKeyView {
    Email(Seq<char>),
    Nickname(Seq<char>),
}

impl View for UserKey {
    type V = UserKeyView;

    open spec fn view(&self) -> UserKeyView {
        match self {
            UserKey::Email(s) => UserKeyView::Email(s@),
            UserKey::Nickname(s) => UserKeyView::Nickname(s@),
        }
    }
}

/// A login name with an `@` in it is an email address; any other is a nickname.
pub open spec fn spec_user_key(name: Seq<char>) -> UserKeyView {
    if name.contains('@') {
        UserKeyView::Email(name)
    } else {
        UserKeyView::Nickname(name)
    }
}

/// Whether `c` occurs in `s`.
pub fn contains_char(s: &str, c: char) -> (r: bool)
    ensures
        r == s@.contains(c),
{
    let mut chars = s.chars();
    let ghost mut i: int = 0;
    proof {
        broadcast use vstd::string::axiom_spec_iter;
    }
    loop
        invariant
            0 <= i <= s@.len(),
            vstd::std_specs::iter::IteratorSpec::remaining(&chars) == s@.skip(i),
            forall|j: int| 0 <= j < i ==> s@[j] != c,
        decreases s@.len() - i,
    {
        match chars.next() {
            Some(d) => {
                proof {
                    assert(s@.skip(i)[0] == s@[i]);
                    assert(s@.skip(i).drop_first() =~= s@.skip(i + 1));
                }
                if d == c {
                    return true;
                }
                proof {
                    i = i + 1;
                }
            },
            None => {
                proof {
                    assert(s@.skip(i).len() == 0);
                }
                return false;
            },
        }
    }
}

/// The column a login name is looked up by.
pub fn user_key(name: String) -> (k: UserKey)
    ensures
        k@ == spec_user_key(name@),
{
    if contains_char(name.as_str(), '@') {
        UserKey::Email(name)
    } else {
        UserKey::Nickname(name)
    }
}

/// The stored password hash, when the query found exactly one user.
pub fn password_hash_from_rows(rows: &Vec<User>) -> (r: Result<String, LookupError>)
    ensures
        rows@.len() == 1 ==> (r matches Ok(h) && h@ == rows@[0].password@),
        rows@.len() != 1 ==> r == Err::<String, LookupError>(LookupError::NoUserFound),
{
    if rows.len() == 1 {
        Ok(rows[0].password.clone())
    } else {
        Err(LookupError::NoUserFound)
    }
}

/// The user's id, when the query found exactly one user.
pub fn user_id_from_rows(rows: &Vec<User>) -> (r: Result<i32, LookupError>)
    ensures
        rows@.len() == 1 ==> r == Ok::<i32, LookupError>(rows@[0].id),
        rows@.len() != 1 ==> r == Err::<i32, LookupError>(LookupError::NoUserFound),
{
    if rows.len() == 1 {
        Ok(rows[0].id)
    } else {
        Err(LookupError::NoUserFound)
    }
}

/// The user a session token belongs to, when the query found exactly one session.
pub fn session_user_id_from_rows(rows: &Vec<UserSession>) -> (r: Result<i64, LookupError>)
    ensures
        rows@.len() == 1 ==> r == Ok::<i64, LookupError>(rows@[0].user_id as i64),
        rows@.len() != 1 ==> r == Err::<i64, LookupError>(LookupError::NoTokenFound),
{
    if rows.len() == 1 {
        Ok(rows[0].user_id as i64)
    } else {
        Err(LookupError::NoTokenFound)
    }
}

/// A user id names an account when the query found exactly one user.
pub fn user_found(rows: &Vec<User>) -> (r: bool)
    ensures
        r == (rows@.len() == 1),
{
    rows.len() == 1
}

/// A nickname or email is taken when the query found any user with it.
pub fn value_taken(rows: &Vec<User>) -> (r: bool)
    ensures
        r == (rows@.len() != 0),
{
    rows.len() != 0
}

/// The nickname of the first user found.
pub fn nickname_from_rows(rows: &Vec<User>) -> (r: String)
    requires
        rows@.len() >= 1,
    ensures
        r@ == rows@[0].nickname@,
{
    rows[0].nickname.clone()
}

/// The email of the first user found.
pub fn email_from_rows(rows: &Vec<User>) -> (r: String)
    requires
        rows@.len() >= 1,
    ensures
        r@ == rows@[0].email@,
{
    rows[0].email.clone()
}

} // verus!

use vstd::prelude::*;

verus! {

/// A row of the `users` table.
#[derive(Debug)]
pub struct User {
    pub id: i32,
    pub nickname: String,
    pub password: String,
    pub email: String,
}

/// The values a new row of the `users` table is inserted with.
#[derive(Debug)]
pub struct NewUser {
    pub nickname: String,
    pub password: String,
    pub email: String,
}

/// A row of the `user_sessions` table.
#[derive(Debug)]
pub struct UserSession {
    pub id: i32,
    pub user_id: i32,
    pub token: String,
}

/// The values a new row of the `user_sessions` table is inserted with.
#[derive(Debug)]
pub struct NewUserSession {
    pub user_id: i32,
    pub token: String,
}

/// Mathematical value of a user row.
pub struct UserView {
    pub id: i32,
    pub nickname: Seq<char>,
    pub password: Seq<char>,
    pub email: Seq<char>,
}

/// Mathematical value of a new user row.
pub struct NewUserView {
    pub nickname: Seq<char>,
    pub password: Seq<char>,
    pub email: Seq<char>,
}

/// Mathematical value of a session row.
pub struct UserSessionView {
    pub id: i32,
    pub user_id: i32,
    pub token: Seq<char>,
}

/// Mathematical value of a new session row.
pub struct NewUserSessionView {
    pub user_id: i32,
    pub token: Seq<char>,
}

/// No two rows of the users table share a nickname, and no two share an email.
pub open spec fn users_unique(users: Seq<UserView>) -> bool {
    forall|i: int, j: int|
        0 <= i < j < users.len() ==> #[trigger] users[i].nickname != #[trigger] users[j].nickname
            && users[i].email != users[j].email
}

/// Some row of the users table has this nickname.
pub open spec fn has_nickname(users: Seq<UserView>, nickname: Seq<char>) -> bool {
    exists|i: int| 0 <= i < users.len() && #[trigger] users[i].nickname == nickname
}

/// Some row of the users table has this email.
pub open spec fn has_email(users: Seq<UserView>, email: Seq<char>) -> bool {
    exists|i: int| 0 <= i < users.len() && #[trigger] users[i].email == email
}

/// The users table after the row with nickname `nickname` is given a new
/// nickname.
pub open spec fn rename_user(users: Seq<UserView>, nickname: Seq<char>, new_nickname: Seq<char>) -> Seq<
    UserView,
> {
    users.map_values(
        |r: UserView|
            if r.nickname == nickname {
                UserView { nickname: new_nickname, ..r }
            } else {
                r
            },
    )
}

/// The users table after the row with nickname `nickname` is given a new
/// email.
pub open spec fn change_user_email(users: Seq<UserView>, nickname: Seq<char>, new_email: Seq<char>) -> Seq<
    UserView,
> {
    users.map_values(
        |r: UserView|
            if r.nickname == nickname {
                UserView { email: new_email, ..r }
            } else {
                r
            },
    )
}

impl View for User {
    type V = UserView;

    open spec fn view(&self) -> UserView {
        UserView {
            id: self.id,
            nickname: self.nickname@,
            password: self.password@,
            email: self.email@,
        }
    }
}

impl View for NewUser {
    type V = NewUserView;

    open spec fn view(&self) -> NewUserView {
        NewUserView { nickname: self.nickname@, password: self.password@, email: self.email@ }
    }
}

impl View for UserSession {
    type V = UserSessionView;

    open spec fn view(&self) -> UserSessionView {
        UserSessionView { id: self.id, user_id: self.user_id, token: self.token@ }
    }
}

impl View for NewUserSession {
    type V = NewUserSessionView;

    open spec fn view(&self) -> NewUserSessionView {
        NewUserSessionView { user_id: self.user_id, token: self.token@ }
    }
}

impl NewUser {
    /// The row to insert for a registration.
    pub fn new(nickname: String, password: String, email: String) -> (r: NewUser)
        ensures
            r@ == (NewUserView { nickname: nickname@, password: password@, email: email@ }),
    {
        NewUser { nickname, password, email }
    }
}

impl NewUserSession {
    /// The row to insert when a user logs in.
    pub fn new(user_id: i32, token: String) -> (r: NewUserSession)
        ensures
            r@ == (NewUserSessionView { user_id, token: token@ }),
    {
        NewUserSession { user_id, token }
    }
}

} // verus!

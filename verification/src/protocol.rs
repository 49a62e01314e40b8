use vstd::prelude::*;

use crate::lookup::{LookupError, UserKey, UserKeyView};
use crate::models::{NewUser, NewUserSession, NewUserView, NewUserSessionView};
use crate::pages::{Response, ResponseView};

verus! {

/// Outside work a request handler asks for: reading or writing the session
/// cookie, querying or changing the database. The last one answers the request.
#[derive(Debug)]
pub enum Action {
    /// Read the private `session_token` cookie; answered by `Event::Cookie`.
    ReadSessionCookie,
    /// Find the session with this token; answered by `Event::SessionUser`.
    FindSessionUser(String),
    /// Whether a user with this id exists; answered by `Event::Found`.
    CheckUser(i32),
    /// Find the password hash of the user with this name or email; answered
    /// by `Event::PasswordHash`.
    FindPasswordHash(UserKey),
    /// Find the password hash of the user with this id; answered by
    /// `Event::PasswordHash`.
    FindPasswordHashById(i32),
    /// Find the id of the user with this name or email; answered by
    /// `Event::UserId`.
    FindUserId(UserKey),
    /// Whether some user has this nickname; answered by `Event::Found`.
    IsNicknameTaken(String),
    /// Whether some user has this email; answered by `Event::Found`.
    IsEmailTaken(String),
    /// The nickname of the user with this id; answered by `Event::Text`.
    FindNickname(i32),
    /// The email of the user with this id; answered by `Event::Text`.
    FindEmail(i32),
    /// Insert a user; answered by `Event::Done`.
    CreateUser(NewUser),
    /// Insert a session; answered by `Event::Done`.
    CreateSession(NewUserSession),
    /// Set the private `session_token` cookie for 24 hours; answered by `Event::Done`.
    SetSessionCookie(String),
    /// Set the nickname of the user with the first nickname to the second; answered by `Event::Done`.
    UpdateNickname(String, String),
    /// Set the email of the user with this nickname; answered by `Event::Done`.
    UpdateEmail(String, String),
    /// Set the password hash of the user with this nickname; answered by `Event::Done`.
    UpdatePassword(String, String),
    /// Delete the account with this nickname and id; answered by `Event::Done`.
    RemoveAccount(String, i32),
    /// Delete the sessions with this token; answered by `Event::Done`.
    RemoveSession(String),
    /// Remove the private `session_token` cookie; answered by `Event::Done`.
    RemoveSessionCookie,
    /// Load this user's transactions for the wallet page; answered by `Event::Done`.
    LoadTransactions(i32),
    /// Summarize this user's transactions for the dashboard; answered by `Event::Done`.
    SummarizeTransactions(i32),
    /// Store the submitted transaction for this user; answered by `Event::Done`.
    AddTransaction(i32),
    /// Delete the submitted transactions of this user; answered by `Event::Done`.
    RemoveTransactions(i32),
    /// Answer the request.
    Respond(Response),
}

/// The outcome of the outside work that an action asked for.
#[derive(Debug)]
pub enum Event {
    Cookie(Option<String>),
    SessionUser(Result<i64, LookupError>),
    Found(bool),
    PasswordHash(Result<String, LookupError>),
    UserId(Result<i32, LookupError>),
    Text(String),
    Done,
}

pub enum ActionView {
    ReadSessionCookie,
    FindSessionUser(Seq<char>),
    CheckUser(i32),
    FindPasswordHash(UserKeyView),
    FindPasswordHashById(i32),
    FindUserId(UserKeyView),
    IsNicknameTaken(Seq<char>),
    IsEmailTaken(Seq<char>),
    FindNickname(i32),
    FindEmail(i32),
    CreateUser(NewUserView),
    CreateSession(NewUserSessionView),
    SetSessionCookie(Seq<char>),
    UpdateNickname(Seq<char>, Seq<char>),
    UpdateEmail(Seq<char>, Seq<char>),
    UpdatePassword(Seq<char>, Seq<char>),
    RemoveAccount(Seq<char>, i32),
    RemoveSession(Seq<char>),
    RemoveSessionCookie,
    LoadTransactions(i32),
    SummarizeTransactions(i32),
    AddTransaction(i32),
    RemoveTransactions(i32),
    Respond(ResponseView),
}

pub enum EventView {
    Cookie(Option<Seq<char>>),
    SessionUser(Result<i64, LookupError>),
    Found(bool),
    PasswordHash(Result<Seq<char>, LookupError>),
    UserId(Result<i32, LookupError>),
    Text(Seq<char>),
    Done,
}

impl View for Action {
    type V = ActionView;

    open spec fn view(&self) -> ActionView {
        match self {
            Action::ReadSessionCookie => ActionView::ReadSessionCookie,
            Action::FindSessionUser(t) => ActionView::FindSessionUser(t@),
            Action::CheckUser(i) => ActionView::CheckUser(*i),
            Action::FindPasswordHash(k) => ActionView::FindPasswordHash(k@),
            Action::FindPasswordHashById(i) => ActionView::FindPasswordHashById(*i),
            Action::FindUserId(k) => ActionView::FindUserId(k@),
            Action::IsNicknameTaken(s) => ActionView::IsNicknameTaken(s@),
            Action::IsEmailTaken(s) => ActionView::IsEmailTaken(s@),
            Action::FindNickname(i) => ActionView::FindNickname(*i),
            Action::FindEmail(i) => ActionView::FindEmail(*i),
            Action::CreateUser(u) => ActionView::CreateUser(u@),
            Action::CreateSession(s) => ActionView::CreateSession(s@),
            Action::SetSessionCookie(t) => ActionView::SetSessionCookie(t@),
            Action::UpdateNickname(a, b) => ActionView::UpdateNickname(a@, b@),
            Action::UpdateEmail(a, b) => ActionView::UpdateEmail(a@, b@),
            Action::UpdatePassword(a, b) => ActionView::UpdatePassword(a@, b@),
            Action::RemoveAccount(a, i) => ActionView::RemoveAccount(a@, *i),
            Action::RemoveSession(t) => ActionView::RemoveSession(t@),
            Action::RemoveSessionCookie => ActionView::RemoveSessionCookie,
            Action::LoadTransactions(i) => ActionView::LoadTransactions(*i),
            Action::SummarizeTransactions(i) => ActionView::SummarizeTransactions(*i),
            Action::AddTransaction(i) => ActionView::AddTransaction(*i),
            Action::RemoveTransactions(i) => ActionView::RemoveTransactions(*i),
            Action::Respond(r) => ActionView::Respond(r@),
        }
    }
}

impl View for Event {
    type V = EventView;

    open spec fn view(&self) -> EventView {
        match self {
            Event::Cookie(c) => EventView::Cookie(
                match c {
                    Some(t) => Some(t@),
                    None => None,
                },
            ),
            Event::SessionUser(r) => EventView::SessionUser(*r),
            Event::Found(b) => EventView::Found(*b),
            Event::PasswordHash(r) => EventView::PasswordHash(
                match r {
                    Ok(h) => Ok(h@),
                    Err(e) => Err(*e),
                },
            ),
            Event::UserId(r) => EventView::UserId(*r),
            Event::Text(t) => EventView::Text(t@),
            Event::Done => EventView::Done,
        }
    }
}

} // verus!

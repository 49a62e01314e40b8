use vstd::prelude::*;

use crate::protocol::{Action, ActionView, Event, EventView};

verus! {

/// The steps of finding who is logged in: read the session cookie, find the
/// session's user, check that the user exists.
#[derive(PartialEq, Eq, Structural, Clone, Copy, Debug)]
pub enum Auth {
    ReadingCookie,
    FindingSession,
    CheckingUser(i32),
}

/// Where finding the logged-in user stands after one event.
pub enum AuthStep {
    /// Still going: the next session check state and the outside work it asks for.
    Ask(Auth, Action),
    /// The session belongs to an existing user with this id.
    LoggedIn(i32),
    /// No session cookie, or no session with the cookie's token.
    NoSession,
    /// The session's user id names no user.
    NotAUser,
}

pub enum AuthStepView {
    Ask(Auth, ActionView),
    LoggedIn(i32),
    NoSession,
    NotAUser,
}

impl View for AuthStep {
    type V = AuthStepView;

    open spec fn view(&self) -> AuthStepView {
        match self {
            AuthStep::Ask(g, a) => AuthStepView::Ask(*g, a@),
            AuthStep::LoggedIn(u) => AuthStepView::LoggedIn(*u),
            AuthStep::NoSession => AuthStepView::NoSession,
            AuthStep::NotAUser => AuthStepView::NotAUser,
        }
    }
}

/// Whether `e` is the kind of outcome the session check waits for.
pub open spec fn auth_expects(g: Auth, e: EventView) -> bool {
    match g {
        Auth::ReadingCookie => e is Cookie,
        Auth::FindingSession => e is SessionUser,
        Auth::CheckingUser(_) => e is Found,
    }
}

pub open spec fn auth_next(g: Auth, e: EventView) -> AuthStepView {
    match g {
        Auth::ReadingCookie => match e {
            EventView::Cookie(Some(t)) => AuthStepView::Ask(
                Auth::FindingSession,
                ActionView::FindSessionUser(t),
            ),
            _ => AuthStepView::NoSession,
        },
        Auth::FindingSession => match e {
            EventView::SessionUser(Ok(id)) => AuthStepView::Ask(
                Auth::CheckingUser(id as i32),
                ActionView::CheckUser(id as i32),
            ),
            _ => AuthStepView::NoSession,
        },
        Auth::CheckingUser(u) => match e {
            EventView::Found(true) => AuthStepView::LoggedIn(u),
            _ => AuthStepView::NotAUser,
        },
    }
}

pub fn auth_expects_event(g: Auth, e: &Event) -> (r: bool)
    ensures
        r == auth_expects(g, e@),
{
    match g {
        Auth::ReadingCookie => matches!(e, Event::Cookie(_)),
        Auth::FindingSession => matches!(e, Event::SessionUser(_)),
        Auth::CheckingUser(_) => matches!(e, Event::Found(_)),
    }
}

/// One step of finding the logged-in user.
pub fn auth_step(g: Auth, e: Event) -> (r: AuthStep)
    requires
        auth_expects(g, e@),
    ensures
        r@ == auth_next(g, e@),
{
    match g {
        Auth::ReadingCookie => match e {
            Event::Cookie(Some(t)) => AuthStep::Ask(Auth::FindingSession, Action::FindSessionUser(t)),
            _ => AuthStep::NoSession,
        },
        Auth::FindingSession => match e {
            Event::SessionUser(Ok(id)) => {
                let u = id as i32;
                AuthStep::Ask(Auth::CheckingUser(u), Action::CheckUser(u))
            },
            _ => AuthStep::NoSession,
        },
        Auth::CheckingUser(u) => match e {
            Event::Found(true) => AuthStep::LoggedIn(u),
            _ => AuthStep::NotAUser,
        },
    }
}

/// The steps of logging out: read the session cookie, delete its session,
/// remove the cookie.
#[derive(PartialEq, Eq, Structural, Clone, Copy, Debug)]
pub enum Logout {
    ReadingCookie,
    RemovingSession,
    RemovingCookie,
}

pub enum LogoutStep {
    Ask(Logout, Action),
    Finished,
}

pub enum LogoutStepView {
    Ask(Logout, ActionView),
    Finished,
}

impl View for LogoutStep {
    type V = LogoutStepView;

    open spec fn view(&self) -> LogoutStepView {
        match self {
            LogoutStep::Ask(l, a) => LogoutStepView::Ask(*l, a@),
            LogoutStep::Finished => LogoutStepView::Finished,
        }
    }
}

pub open spec fn logout_expects(l: Logout, e: EventView) -> bool {
    match l {
        Logout::ReadingCookie => e is Cookie,
        _ => e is Done,
    }
}

pub open spec fn logout_next(l: Logout, e: EventView) -> LogoutStepView {
    match l {
        Logout::ReadingCookie => match e {
            EventView::Cookie(Some(t)) => LogoutStepView::Ask(
                Logout::RemovingSession,
                ActionView::RemoveSession(t),
            ),
            _ => LogoutStepView::Finished,
        },
        Logout::RemovingSession => LogoutStepView::Ask(
            Logout::RemovingCookie,
            ActionView::RemoveSessionCookie,
        ),
        Logout::RemovingCookie => LogoutStepView::Finished,
    }
}

pub fn logout_expects_event(l: Logout, e: &Event) -> (r: bool)
    ensures
        r == logout_expects(l, e@),
{
    match l {
        Logout::ReadingCookie => matches!(e, Event::Cookie(_)),
        _ => matches!(e, Event::Done),
    }
}

/// One step of logging out.
pub fn logout_step(l: Logout, e: Event) -> (r: LogoutStep)
    requires
        logout_expects(l, e@),
    ensures
        r@ == logout_next(l, e@),
{
    match l {
        Logout::ReadingCookie => match e {
            Event::Cookie(Some(t)) => LogoutStep::Ask(
                Logout::RemovingSession,
                Action::RemoveSession(t),
            ),
            _ => LogoutStep::Finished,
        },
        Logout::RemovingSession => LogoutStep::Ask(Logout::RemovingCookie, Action::RemoveSessionCookie),
        Logout::RemovingCookie => LogoutStep::Finished,
    }
}

} // verus!

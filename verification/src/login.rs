use vstd::prelude::*;

use crate::lookup::{spec_user_key, user_key};
use crate::models::{NewUserSession, NewUserSessionView};
use crate::pages::{LoginContextView, Page, PageView, Response, ResponseView, TemplateContextLogin};
use crate::password::{check_password, spec_check_password, PasswordCheck};
use crate::protocol::{Action, ActionView, Event, EventView};
use crate::token::{generate_session_token, is_session_token};
use crate::validation::error_login_validate_empty_form;

verus! {

/// The login form.
#[derive(Debug)]
pub struct UserLoginForm {
    pub username: String,
    pub password: String,
}

pub struct LoginFormView {
    pub username: Seq<char>,
    pub password: Seq<char>,
}

impl View for UserLoginForm {
    type V = LoginFormView;

    open spec fn view(&self) -> LoginFormView {
        LoginFormView { username: self.username@, password: self.password@ }
    }
}

/// Where a login stands.
pub enum LoginState {
    /// Waiting for the stored password hash of the login name.
    AwaitingHash { username: String, password: String },
    /// The password matched; waiting for the user's id.
    AwaitingUserId { token: String },
    /// Waiting for the session row to be stored.
    CreatingSession { token: String },
    /// Waiting for the session cookie to be set.
    SettingCookie,
    /// Answered.
    Finished,
}

pub enum LoginStateView {
    AwaitingHash { username: Seq<char>, password: Seq<char> },
    AwaitingUserId { token: Seq<char> },
    CreatingSession { token: Seq<char> },
    SettingCookie,
    Finished,
}

impl View for LoginState {
    type V = LoginStateView;

    open spec fn view(&self) -> LoginStateView {
        match self {
            LoginState::AwaitingHash { username, password } => LoginStateView::AwaitingHash {
                username: username@,
                password: password@,
            },
            LoginState::AwaitingUserId { token } => LoginStateView::AwaitingUserId { token: token@ },
            LoginState::CreatingSession { token } => LoginStateView::CreatingSession { token: token@ },
            LoginState::SettingCookie => LoginStateView::SettingCookie,
            LoginState::Finished => LoginStateView::Finished,
        }
    }
}

/// The `POST /login` handler: checks the form, checks the password against
/// the stored bcrypt hash, then stores a new session and sets its cookie.
pub struct LoginFlow {
    state: LoginState,
    /// The submitted form.
    form: Ghost<LoginFormView>,
    /// The stored hash the password was checked against, once there is one.
    hash: Ghost<Seq<char>>,
}

pub struct LoginFlowView {
    pub state: LoginStateView,
    pub form: LoginFormView,
    pub hash: Seq<char>,
}

impl View for LoginFlow {
    type V = LoginFlowView;

    closed spec fn view(&self) -> LoginFlowView {
        LoginFlowView { state: self.state@, form: self.form@, hash: self.hash@ }
    }
}

pub open spec fn login_page(name: Seq<char>, error_username: bool, error_password: bool) -> ActionView {
    ActionView::Respond(
        ResponseView::Render(PageView::Login(LoginContextView { name, error_username, error_password })),
    )
}

/// The first state and action for a submitted form: an empty field answers
/// with the login page at once, otherwise the password hash is looked up.
pub open spec fn login_start(form: LoginFormView) -> (LoginFlowView, ActionView) {
    let error_username = form.username.len() == 0;
    let error_password = form.password.len() == 0;
    if error_username || error_password {
        (
            LoginFlowView { state: LoginStateView::Finished, form, hash: Seq::empty() },
            login_page("Error - empty space"@, error_username, error_password),
        )
    } else {
        (
            LoginFlowView {
                state: LoginStateView::AwaitingHash { username: form.username, password: form.password },
                form,
                hash: Seq::empty(),
            },
            ActionView::FindPasswordHash(spec_user_key(form.username)),
        )
    }
}

pub open spec fn login_expects(s: LoginFlowView, e: EventView) -> bool {
    match s.state {
        LoginStateView::AwaitingHash { .. } => e is PasswordHash,
        LoginStateView::AwaitingUserId { .. } => e is UserId,
        LoginStateView::CreatingSession { .. } => e is Done,
        LoginStateView::SettingCookie => e is Done,
        LoginStateView::Finished => false,
    }
}

/// One step of a login: `s2` and `a` are the state and action after `s` got `e`.
/// The session token is random: of it only its form is stated.
pub open spec fn login_step(s: LoginFlowView, e: EventView, s2: LoginFlowView, a: ActionView) -> bool {
    let finish = LoginFlowView { state: LoginStateView::Finished, ..s };
    match s.state {
        LoginStateView::AwaitingHash { username, password } => match e {
            EventView::PasswordHash(Err(err)) => s2 == finish && a == login_page(
                "Error login - "@ + err.spec_message(),
                true,
                true,
            ),
            EventView::PasswordHash(Ok(hash)) => match spec_check_password(password, hash) {
                PasswordCheck::VerifyFailed => s2 == finish && a == login_page(
                    "Error login - verifying password incorrect"@,
                    false,
                    true,
                ),
                PasswordCheck::DoesNotMatch => s2 == finish && a == login_page(
                    "Error login - password incorrect"@,
                    false,
                    true,
                ),
                PasswordCheck::Matches => {
                    &&& s2.state matches LoginStateView::AwaitingUserId { token }
                    &&& is_session_token(token, 64)
                    &&& s2.form == s.form
                    &&& s2.hash == hash
                    &&& a == ActionView::FindUserId(spec_user_key(username))
                },
            },
            _ => false,
        },
        LoginStateView::AwaitingUserId { token } => match e {
            EventView::UserId(Ok(user_id)) => s2 == LoginFlowView {
                state: LoginStateView::CreatingSession { token },
                ..s
            } && a == ActionView::CreateSession(NewUserSessionView { user_id, token }),
            EventView::UserId(Err(_)) => s2 == finish && a == ActionView::Respond(
                ResponseView::Redirect("/"@),
            ),
            _ => false,
        },
        LoginStateView::CreatingSession { token } => s2 == LoginFlowView {
            state: LoginStateView::SettingCookie,
            ..s
        } && a == ActionView::SetSessionCookie(token),
        LoginStateView::SettingCookie => s2 == finish && a == ActionView::Respond(
            ResponseView::Redirect("/"@),
        ),
        LoginStateView::Finished => false,
    }
}

/// Both fields were filled and the submitted password matches the stored
/// hash the store answered with.
pub open spec fn login_authenticated(s: LoginFlowView) -> bool {
    &&& s.form.username.len() > 0
    &&& s.form.password.len() > 0
    &&& spec_check_password(s.form.password, s.hash) == PasswordCheck::Matches
}

/// What holds in every state a login reaches.
pub open spec fn login_inv(s: LoginFlowView) -> bool {
    match s.state {
        LoginStateView::AwaitingHash { username, password } => {
            &&& username == s.form.username
            &&& password == s.form.password
            &&& username.len() > 0
            &&& password.len() > 0
        },
        LoginStateView::AwaitingUserId { token } => login_authenticated(s) && is_session_token(
            token,
            64,
        ),
        LoginStateView::CreatingSession { token } => login_authenticated(s) && is_session_token(
            token,
            64,
        ),
        LoginStateView::SettingCookie => login_authenticated(s),
        LoginStateView::Finished => true,
    }
}

/// A login starts in a state of its invariant.
pub proof fn lemma_login_start_inv(form: LoginFormView)
    ensures
        login_inv(login_start(form).0),
{
}

/// Every step of a login keeps its invariant.
pub proof fn lemma_login_step_inv(s: LoginFlowView, e: EventView, s2: LoginFlowView, a: ActionView)
    requires
        login_inv(s),
        login_step(s, e, s2, a),
    ensures
        login_inv(s2),
{
}

/// A login stores a session, or sets the session cookie, only when both
/// fields were filled and the submitted password matched the stored hash;
/// the stored session carries a fresh 64-byte token, and the cookie the same
/// token as the stored session.
pub proof fn lemma_login_session_needs_password(
    s: LoginFlowView,
    e: EventView,
    s2: LoginFlowView,
    a: ActionView,
)
    requires
        login_inv(s),
        login_step(s, e, s2, a),
    ensures
        a is CreateSession ==> login_authenticated(s2) && is_session_token(a->CreateSession_0.token, 64)
            && s2.state == (LoginStateView::CreatingSession { token: a->CreateSession_0.token }),
        a is SetSessionCookie ==> login_authenticated(s) && s.state == (LoginStateView::CreatingSession {
            token: a->SetSessionCookie_0,
        }),
{
}

/// A wrong password, or an unknown login name, answers with the login page
/// and ends the login.
pub proof fn lemma_login_rejects_wrong_password(
    s: LoginFlowView,
    e: EventView,
    s2: LoginFlowView,
    a: ActionView,
)
    requires
        login_step(s, e, s2, a),
        s.state is AwaitingHash,
        match e {
            EventView::PasswordHash(Ok(hash)) => spec_check_password(s.state->password, hash)
                != PasswordCheck::Matches,
            _ => true,
        },
    ensures
        s2.state is Finished,
        a matches ActionView::Respond(ResponseView::Render(PageView::Login(c))) && c.error_password,
{
}

/// How many outside steps a login can still take before it answers.
pub open spec fn login_rank(s: LoginFlowView) -> nat {
    match s.state {
        LoginStateView::AwaitingHash { .. } => 4,
        LoginStateView::AwaitingUserId { .. } => 3,
        LoginStateView::CreatingSession { .. } => 2,
        LoginStateView::SettingCookie => 1,
        LoginStateView::Finished => 0,
    }
}

/// A login answers the request exactly when it finishes, and every step
/// brings it closer to the answer: it answers after at most four outside steps.
pub proof fn lemma_login_answers(s: LoginFlowView, e: EventView, s2: LoginFlowView, a: ActionView)
    requires
        login_step(s, e, s2, a),
    ensures
        (a is Respond) == (s2.state is Finished),
        login_rank(s2) < login_rank(s),
        login_rank(login_start(s.form).0) <= 4,
        (login_start(s.form).1 is Respond) == (login_start(s.form).0.state is Finished),
{
}

fn login_response(name: String, error_username: bool, error_password: bool) -> (a: Action)
    ensures
        a@ == login_page(name@, error_username, error_password),
{
    Action::Respond(Response::Render(Page::Login(TemplateContextLogin::new(name, error_username, error_password))))
}

impl LoginFlow {
    /// Starts a login with the submitted form; returns the flow and its first action.
    pub fn new(form: UserLoginForm) -> (r: (LoginFlow, Action))
        ensures
            (r.0@, r.1@) == login_start(form@),
    {
        let ghost fv = form@;
        let error_username = error_login_validate_empty_form(form.username.clone());
        let error_password = error_login_validate_empty_form(form.password.clone());
        if error_username || error_password {
            let flow = LoginFlow { state: LoginState::Finished, form: Ghost(fv), hash: Ghost(Seq::empty()) };
            (flow, login_response("Error - empty space".to_owned(), error_username, error_password))
        } else {
            let key = user_key(form.username.clone());
            let flow = LoginFlow {
                state: LoginState::AwaitingHash { username: form.username, password: form.password },
                form: Ghost(fv),
                hash: Ghost(Seq::empty()),
            };
            (flow, Action::FindPasswordHash(key))
        }
    }

    /// Whether `e` answers the pending action.
    pub fn expects(&self, e: &Event) -> (r: bool)
        ensures
            r == login_expects(self@, e@),
    {
        match &self.state {
            LoginState::AwaitingHash { .. } => matches!(e, Event::PasswordHash(_)),
            LoginState::AwaitingUserId { .. } => matches!(e, Event::UserId(_)),
            LoginState::CreatingSession { .. } => matches!(e, Event::Done),
            LoginState::SettingCookie => matches!(e, Event::Done),
            LoginState::Finished => false,
        }
    }

    /// Takes the outcome of the pending action; returns the next action.
    pub fn step(&mut self, e: Event) -> (a: Action)
        requires
            login_expects(old(self)@, e@),
        ensures
            login_step(old(self)@, e@, final(self)@, a@),
    {
        let mut state = LoginState::Finished;
        std::mem::swap(&mut state, &mut self.state);
        match state {
            LoginState::AwaitingHash { username, password } => match e {
                Event::PasswordHash(Err(err)) => {
                    let mut name = "Error login - ".to_owned();
                    name.append(err.message().as_str());
                    login_response(name, true, true)
                },
                Event::PasswordHash(Ok(hash)) => match check_password(&password, &hash) {
                    PasswordCheck::VerifyFailed => login_response(
                        "Error login - verifying password incorrect".to_owned(),
                        false,
                        true,
                    ),
                    PasswordCheck::DoesNotMatch => login_response(
                        "Error login - password incorrect".to_owned(),
                        false,
                        true,
                    ),
                    PasswordCheck::Matches => match generate_session_token(64) {
                        Ok(token) => {
                            self.state = LoginState::AwaitingUserId { token };
                            self.hash = Ghost(hash@);
                            Action::FindUserId(user_key(username))
                        },
                        Err(_) => login_response(
                            "Error login - token generation issue".to_owned(),
                            false,
                            true,
                        ),
                    },
                },
                _ => vstd::pervasive::unreached(),
            },
            LoginState::AwaitingUserId { token } => match e {
                Event::UserId(Ok(user_id)) => {
                    let session = NewUserSession::new(user_id, token.clone());
                    self.state = LoginState::CreatingSession { token };
                    Action::CreateSession(session)
                },
                _ => Action::Respond(Response::Redirect("/".to_owned())),
            },
            LoginState::CreatingSession { token } => {
                self.state = LoginState::SettingCookie;
                Action::SetSessionCookie(token)
            },
            LoginState::SettingCookie => Action::Respond(Response::Redirect("/".to_owned())),
            LoginState::Finished => vstd::pervasive::unreached(),
        }
    }
}

} // verus!

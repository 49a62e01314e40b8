use vstd::prelude::*;

use crate::login::{login_start, login_step, LoginFlowView, LoginFormView, LoginStateView};
use crate::token::is_session_token;
use crate::lookup::UserKeyView;
use crate::models::{has_email, has_nickname, users_unique, NewUser, NewUserView, UserView};
use crate::pages::{Page, PageView, RegisterContextView, Response, ResponseView, TemplateContextRegister};
use crate::password::{hash_password, spec_check_password, PasswordCheck};
use crate::protocol::{Action, ActionView, Event, EventView};
use crate::text::utf8_len;
use crate::validation::{
    email_format_error,
    error_register_validate_confirm_password,
    error_register_validate_password,
    too_short,
    username_format_error,
};

verus! {

/// The registration form.
#[derive(Debug)]
pub struct UserForm {
    pub username: String,
    pub email: String,
    pub password: String,
    pub confirm_password: String,
}

pub struct UserFormView {
    pub username: Seq<char>,
    pub email: Seq<char>,
    pub password: Seq<char>,
    pub confirm_password: Seq<char>,
}

impl View for UserForm {
    type V = UserFormView;

    open spec fn view(&self) -> UserFormView {
        UserFormView {
            username: self.username@,
            email: self.email@,
            password: self.password@,
            confirm_password: self.confirm_password@,
        }
    }
}

/// Where a registration stands.
#[derive(PartialEq, Eq, Structural, Clone, Copy, Debug)]
pub enum RegisterState {
    /// Waiting for whether the nickname is taken.
    CheckingUsername,
    /// Waiting for whether the email is taken.
    CheckingEmail { error_username: bool },
    /// Waiting for the new user to be stored.
    CreatingUser,
    /// Answered.
    Finished,
}

/// The `POST /register` handler: validates the form (nickname and email must
/// be free), hashes the password and stores the new user.
pub struct RegisterFlow {
    form: UserForm,
    state: RegisterState,
    /// What the store answered when asked whether the nickname is taken,
    /// once it was asked.
    nickname_taken: Ghost<Option<bool>>,
    /// What hashing the password gave (`None` for a failure), once it was tried.
    hashed: Ghost<Option<Option<Seq<char>>>>,
}

pub struct RegisterFlowView {
    pub form: UserFormView,
    pub state: RegisterState,
    pub nickname_taken: Option<bool>,
    pub hashed: Option<Option<Seq<char>>>,
}

impl View for RegisterFlow {
    type V = RegisterFlowView;

    closed spec fn view(&self) -> RegisterFlowView {
        RegisterFlowView {
            form: self.form@,
            state: self.state,
            nickname_taken: self.nickname_taken@,
            hashed: self.hashed@,
        }
    }
}

pub open spec fn register_page(
    name: Seq<char>,
    error_username: bool,
    error_email: bool,
    error_password: bool,
    error_confirm_password: bool,
) -> ActionView {
    ActionView::Respond(
        ResponseView::Render(
            PageView::Register(
                RegisterContextView {
                    name,
                    error_username,
                    error_email,
                    error_password,
                    error_confirm_password,
                },
            ),
        ),
    )
}

/// All four fields checked: answer with the errors, or hash the password and
/// store the user with the hash; only a failed hash answers "Registration
/// faild". The salt is random: of the hash only that it is 60 bytes and
/// matches the password is stated.
pub open spec fn register_decided(
    s: RegisterFlowView,
    error_username: bool,
    error_email: bool,
    s2: RegisterFlowView,
    a: ActionView,
) -> bool {
    let form = s.form;
    let error_password = too_short(form.password);
    let error_confirm_password = form.password != form.confirm_password;
    let finish = RegisterFlowView { state: RegisterState::Finished, ..s };
    if error_username || error_email || error_password || error_confirm_password {
        s2 == finish && a == register_page(
            "Registration faild - error"@,
            error_username,
            error_email,
            error_password,
            error_confirm_password,
        )
    } else {
        match s2.hashed {
            Some(None) => s2 == RegisterFlowView {
                state: RegisterState::Finished,
                hashed: Some(None),
                ..s
            } && a == register_page("Registration faild"@, false, false, false, false),
            Some(Some(h)) => {
                &&& s2 == RegisterFlowView {
                    state: RegisterState::CreatingUser,
                    hashed: Some(Some(h)),
                    ..s
                }
                &&& a == ActionView::CreateUser(
                    NewUserView { nickname: form.username, password: h, email: form.email },
                )
                &&& utf8_len(h) == 60
                &&& spec_check_password(form.password, h) == PasswordCheck::Matches
            },
            None => false,
        }
    }
}

/// The email check: a non-empty email is looked up, an empty one is in error.
pub open spec fn register_email_stage(
    s: RegisterFlowView,
    error_username: bool,
    s2: RegisterFlowView,
    a: ActionView,
) -> bool {
    if s.form.email.len() > 0 {
        s2 == (RegisterFlowView { state: RegisterState::CheckingEmail { error_username }, ..s })
            && a == ActionView::IsEmailTaken(s.form.email)
    } else {
        register_decided(s, error_username, true, s2, a)
    }
}

/// The first state and action: a nickname long enough is looked up, a short
/// one is in error.
pub open spec fn register_start(form: UserFormView, s2: RegisterFlowView, a: ActionView) -> bool {
    let s = RegisterFlowView { form, state: RegisterState::Finished, nickname_taken: None, hashed: None };
    if !too_short(form.username) {
        s2 == (RegisterFlowView { state: RegisterState::CheckingUsername, ..s })
            && a == ActionView::IsNicknameTaken(form.username)
    } else {
        register_email_stage(s, true, s2, a)
    }
}

pub open spec fn register_expects(s: RegisterFlowView, e: EventView) -> bool {
    match s.state {
        RegisterState::CheckingUsername => e is Found,
        RegisterState::CheckingEmail { .. } => e is Found,
        RegisterState::CreatingUser => e is Done,
        RegisterState::Finished => false,
    }
}

pub open spec fn register_step(s: RegisterFlowView, e: EventView, s2: RegisterFlowView, a: ActionView) -> bool {
    match s.state {
        RegisterState::CheckingUsername => match e {
            EventView::Found(taken) => register_email_stage(
                RegisterFlowView { nickname_taken: Some(taken), ..s },
                taken,
                s2,
                a,
            ),
            _ => false,
        },
        RegisterState::CheckingEmail { error_username } => match e {
            EventView::Found(taken) => register_decided(s, error_username, taken, s2, a),
            _ => false,
        },
        RegisterState::CreatingUser => s2 == (RegisterFlowView {
            state: RegisterState::Finished,
            ..s
        }) && a == ActionView::Respond(ResponseView::Redirect("/login"@)),
        RegisterState::Finished => false,
    }
}

/// The form passes every rule that does not need the store.
pub open spec fn registration_form_valid(form: UserFormView) -> bool {
    &&& !too_short(form.username)
    &&& form.email.len() > 0
    &&& !too_short(form.password)
    &&& form.password == form.confirm_password
}

/// What holds in every state a registration reaches.
pub open spec fn register_inv(s: RegisterFlowView) -> bool {
    match s.state {
        RegisterState::CheckingUsername => !too_short(s.form.username),
        RegisterState::CheckingEmail { error_username } => {
            &&& s.form.email.len() > 0
            &&& !error_username ==> !too_short(s.form.username) && s.nickname_taken == Some(false)
        },
        RegisterState::CreatingUser => registration_form_valid(s.form) && s.nickname_taken == Some(
            false,
        ),
        _ => true,
    }
}

/// A registration starts in a state of its invariant.
pub proof fn lemma_register_start_inv(form: UserFormView, s2: RegisterFlowView, a: ActionView)
    requires
        register_start(form, s2, a),
    ensures
        register_inv(s2),
{
}

/// Every step of a registration keeps its invariant.
pub proof fn lemma_register_step_inv(s: RegisterFlowView, e: EventView, s2: RegisterFlowView, a: ActionView)
    requires
        register_inv(s),
        register_step(s, e, s2, a),
    ensures
        register_inv(s2),
{
}

/// A registration stores a user only when the form passes every rule, the
/// store said the nickname and the email are free, and then with the
/// submitted nickname and email and a hash that the submitted password
/// matches.
pub proof fn lemma_register_creates_only_valid_users(
    s: RegisterFlowView,
    e: EventView,
    s2: RegisterFlowView,
    a: ActionView,
)
    requires
        register_inv(s),
        register_step(s, e, s2, a),
        a is CreateUser,
    ensures
        registration_form_valid(s.form),
        s.state == (RegisterState::CheckingEmail { error_username: false }),
        s.nickname_taken == Some(false),
        e == EventView::Found(false),
        a->CreateUser_0.nickname == s.form.username,
        a->CreateUser_0.email == s.form.email,
        spec_check_password(s.form.password, a->CreateUser_0.password) == PasswordCheck::Matches,
{
}

/// A registration never stores a user at its first step: it asks the store
/// about the nickname or the email first, or answers with the errors.
pub proof fn lemma_register_start_never_stores(form: UserFormView, s2: RegisterFlowView, a: ActionView)
    requires
        register_start(form, s2, a),
    ensures
        !(a is CreateUser),
{
}

/// What registration stores, logging in accepts: log in with the registered
/// nickname (when it has no `@`) or the registered email (when it has one)
/// and the registered password. The login asks for that name's hash by the
/// right column; when the store answers with the hash registration stored
/// and then with the user's id, the login stores a new session for that id,
/// sets its cookie to the same token, and redirects home.
pub proof fn lemma_registered_user_logs_in(
    rs: RegisterFlowView,
    re: EventView,
    rs2: RegisterFlowView,
    ra: ActionView,
    name: Seq<char>,
    user_id: i32,
    ls1: LoginFlowView,
    la1: ActionView,
    ls2: LoginFlowView,
    la2: ActionView,
    ls3: LoginFlowView,
    la3: ActionView,
    ls4: LoginFlowView,
    la4: ActionView,
)
    requires
        register_inv(rs),
        register_step(rs, re, rs2, ra),
        ra is CreateUser,
        (name == rs.form.username && !name.contains('@')) || (name == rs.form.email && name.contains(
            '@',
        )),
        login_step(
            login_start(LoginFormView { username: name, password: rs.form.password }).0,
            EventView::PasswordHash(Ok(ra->CreateUser_0.password)),
            ls1,
            la1,
        ),
        login_step(ls1, EventView::UserId(Ok(user_id)), ls2, la2),
        login_step(ls2, EventView::Done, ls3, la3),
        login_step(ls3, EventView::Done, ls4, la4),
    ensures
        ({
            let key = if name.contains('@') {
                UserKeyView::Email(name)
            } else {
                UserKeyView::Nickname(name)
            };
            let (ls, la) = login_start(LoginFormView { username: name, password: rs.form.password });
            &&& ls.state == (LoginStateView::AwaitingHash { username: name, password: rs.form.password })
            &&& la == ActionView::FindPasswordHash(key)
            &&& la1 == ActionView::FindUserId(key)
        }),
        la2 matches ActionView::CreateSession(session) && session.user_id == user_id
            && is_session_token(session.token, 64),
        la3 == ActionView::SetSessionCookie(la2->CreateSession_0.token),
        la4 == ActionView::Respond(ResponseView::Redirect("/"@)),
        ls4.state is Finished,
{
    lemma_register_creates_only_valid_users(rs, re, rs2, ra);
}

/// Registration keeps nicknames and emails unique: when the store answered
/// both lookups from the users table `users` (no other request changing it
/// meanwhile) and no two of its rows share a nickname or an email, adding the
/// row registration stores keeps it so.
pub proof fn lemma_register_keeps_users_unique(
    users: Seq<UserView>,
    new_id: i32,
    s: RegisterFlowView,
    e: EventView,
    s2: RegisterFlowView,
    a: ActionView,
)
    requires
        users_unique(users),
        register_inv(s),
        register_step(s, e, s2, a),
        a is CreateUser,
        s.nickname_taken == Some(has_nickname(users, s.form.username)),
        e == EventView::Found(has_email(users, s.form.email)),
    ensures
        users_unique(
            users.push(
                UserView {
                    id: new_id,
                    nickname: a->CreateUser_0.nickname,
                    password: a->CreateUser_0.password,
                    email: a->CreateUser_0.email,
                },
            ),
        ),
{
    lemma_register_creates_only_valid_users(s, e, s2, a);
    let u = a->CreateUser_0;
    let added = users.push(UserView { id: new_id, nickname: u.nickname, password: u.password, email: u.email });
    assert forall|i: int, j: int| 0 <= i < j < added.len() implies #[trigger] added[i].nickname
        != #[trigger] added[j].nickname && added[i].email != added[j].email by {
        assert(added[i] == users[i]);
        if j == users.len() {
            assert(users[i].nickname != u.nickname);
            assert(users[i].email != u.email);
        } else {
            assert(added[j] == users[j]);
        }
    }
}

/// A registration whose form passes every rule, and whose nickname and
/// email the store said are free, hashes the password and stores the user
/// with the form's nickname and email and that hash, which the password
/// matches; it answers "Registration faild" instead only when hashing failed.
pub proof fn lemma_register_stores_valid_user(
    s: RegisterFlowView,
    e: EventView,
    s2: RegisterFlowView,
    a: ActionView,
)
    requires
        register_inv(s),
        register_step(s, e, s2, a),
        registration_form_valid(s.form),
        s.state == (RegisterState::CheckingEmail { error_username: false }),
        e == EventView::Found(false),
    ensures
        s2.hashed is Some,
        s2.hashed matches Some(Some(h)) ==> {
            &&& a == ActionView::CreateUser(
                NewUserView { nickname: s.form.username, password: h, email: s.form.email },
            )
            &&& s2.state == RegisterState::CreatingUser
            &&& spec_check_password(s.form.password, h) == PasswordCheck::Matches
        },
        s2.hashed == Some(None::<Seq<char>>) ==> a == register_page(
            "Registration faild"@,
            false,
            false,
            false,
            false,
        ),
{
}

/// A registration answers "Registration faild" only after hashing the
/// password failed.
pub proof fn lemma_register_fails_only_on_hashing(
    s: RegisterFlowView,
    e: EventView,
    s2: RegisterFlowView,
    a: ActionView,
)
    requires
        register_step(s, e, s2, a),
        a == register_page("Registration faild"@, false, false, false, false),
    ensures
        s2.hashed == Some(None::<Seq<char>>),
{
    reveal_strlit("Registration faild");
    reveal_strlit("Registration faild - error");
}

/// How many outside steps a registration can still take before it answers.
pub open spec fn register_rank(s: RegisterFlowView) -> nat {
    match s.state {
        RegisterState::CheckingUsername => 3,
        RegisterState::CheckingEmail { .. } => 2,
        RegisterState::CreatingUser => 1,
        RegisterState::Finished => 0,
    }
}

/// A registration answers the request exactly when it finishes, and every
/// step brings it closer to the answer.
pub proof fn lemma_register_answers(
    form: UserFormView,
    s1: RegisterFlowView,
    a1: ActionView,
    s: RegisterFlowView,
    e: EventView,
    s2: RegisterFlowView,
    a: ActionView,
)
    requires
        register_start(form, s1, a1),
        register_step(s, e, s2, a),
    ensures
        (a1 is Respond) == (s1.state is Finished),
        (a is Respond) == (s2.state is Finished),
        register_rank(s2) < register_rank(s),
{
}

fn register_response(
    name: String,
    error_username: bool,
    error_email: bool,
    error_password: bool,
    error_confirm_password: bool,
) -> (a: Action)
    ensures
        a@ == register_page(name@, error_username, error_email, error_password, error_confirm_password),
{
    Action::Respond(
        Response::Render(
            Page::Register(
                TemplateContextRegister::new(
                    name,
                    error_username,
                    error_email,
                    error_password,
                    error_confirm_password,
                ),
            ),
        ),
    )
}

impl RegisterFlow {
    fn decide(&mut self, error_username: bool, error_email: bool) -> (a: Action)
        ensures
            register_decided(old(self)@, error_username, error_email, final(self)@, a@),
    {
        let error_password = error_register_validate_password(self.form.password.clone());
        let error_confirm_password = error_register_validate_confirm_password(
            self.form.password.clone(),
            self.form.confirm_password.clone(),
        );
        self.state = RegisterState::Finished;
        if error_username || error_email || error_password || error_confirm_password {
            register_response(
                "Registration faild - error".to_owned(),
                error_username,
                error_email,
                error_password,
                error_confirm_password,
            )
        } else {
            let hashed = hash_password(&self.form.password);
            self.hashed = Ghost(
                Some(
                    match &hashed {
                        Some(h) => Some(h@),
                        None => None,
                    },
                ),
            );
            match hashed {
                Some(hashed_password) => {
                    self.state = RegisterState::CreatingUser;
                    Action::CreateUser(
                        NewUser::new(self.form.username.clone(), hashed_password, self.form.email.clone()),
                    )
                },
                None => register_response(
                    "Registration faild".to_owned(),
                    error_username,
                    error_email,
                    error_password,
                    error_confirm_password,
                ),
            }
        }
    }

    fn email_stage(&mut self, error_username: bool) -> (a: Action)
        ensures
            register_email_stage(old(self)@, error_username, final(self)@, a@),
    {
        if !email_format_error(&self.form.email) {
            self.state = RegisterState::CheckingEmail { error_username };
            Action::IsEmailTaken(self.form.email.clone())
        } else {
            self.decide(error_username, true)
        }
    }

    /// Starts a registration with the submitted form; returns the flow and its first action.
    pub fn new(form: UserForm) -> (r: (RegisterFlow, Action))
        ensures
            register_start(form@, r.0@, r.1@),
    {
        let mut flow = RegisterFlow {
            form,
            state: RegisterState::Finished,
            nickname_taken: Ghost(None),
            hashed: Ghost(None),
        };
        if !username_format_error(&flow.form.username) {
            flow.state = RegisterState::CheckingUsername;
            let a = Action::IsNicknameTaken(flow.form.username.clone());
            (flow, a)
        } else {
            let a = flow.email_stage(true);
            (flow, a)
        }
    }

    /// Whether `e` answers the pending action.
    pub fn expects(&self, e: &Event) -> (r: bool)
        ensures
            r == register_expects(self@, e@),
    {
        match self.state {
            RegisterState::CheckingUsername => matches!(e, Event::Found(_)),
            RegisterState::CheckingEmail { .. } => matches!(e, Event::Found(_)),
            RegisterState::CreatingUser => matches!(e, Event::Done),
            RegisterState::Finished => false,
        }
    }

    /// Takes the outcome of the pending action; returns the next action.
    pub fn step(&mut self, e: Event) -> (a: Action)
        requires
            register_expects(old(self)@, e@),
        ensures
            register_step(old(self)@, e@, final(self)@, a@),
    {
        match self.state {
            RegisterState::CheckingUsername => match e {
                Event::Found(taken) => {
                    self.nickname_taken = Ghost(Some(taken));
                    self.email_stage(taken)
                },
                _ => vstd::pervasive::unreached(),
            },
            RegisterState::CheckingEmail { error_username } => match e {
                Event::Found(taken) => self.decide(error_username, taken),
                _ => vstd::pervasive::unreached(),
            },
            RegisterState::CreatingUser => {
                self.state = RegisterState::Finished;
                Action::Respond(Response::Redirect("/login".to_owned()))
            },
            RegisterState::Finished => vstd::pervasive::unreached(),
        }
    }
}

} // verus!

use vstd::prelude::*;

use crate::pages::{
    index_page,
    AccountContextView,
    AccountErrors,
    IndexContextView,
    Page,
    PageView,
    RegisterContextView,
    Response,
    ResponseView,
    TemplateContextAccount,
    TemplateContextRegister,
};
use crate::password::{current_password_error, hash_password, spec_check_password, spec_password_error, PasswordCheck};
use crate::models::{change_user_email, has_email, has_nickname, rename_user, users_unique, UserView};
use crate::protocol::{Action, ActionView, Event, EventView};
use crate::session::{
    auth_expects,
    auth_expects_event,
    auth_next,
    auth_step,
    logout_expects,
    logout_expects_event,
    logout_next,
    logout_step,
    Auth,
    AuthStep,
    AuthStepView,
    Logout,
    LogoutStep,
    LogoutStepView,
};
use crate::text::utf8_len;
use crate::validation::{
    email_format_error,
    error_login_validate_empty_form,
    error_register_validate_confirm_password,
    error_register_validate_password,
    too_short,
    username_format_error,
};

verus! {

/// The account page's form for a new nickname.
#[derive(Debug)]
pub struct UserFormAccountUsername {
    pub current_password: String,
    pub new_username: String,
}

/// The account page's form for a new email.
#[derive(Debug)]
pub struct UserFormAccountEmail {
    pub current_password: String,
    pub new_email: String,
}

/// The account page's form for a new password.
#[derive(Debug)]
pub struct UserFormAccountPassword {
    pub current_password: String,
    pub new_password: String,
    pub confirm_password: String,
}

/// The account page's form for removing the account.
#[derive(Debug)]
pub struct UserFormRemoveAccount {
    pub current_password: String,
    pub confirm_password: String,
}

/// One of the four changes the account page offers.
#[derive(Debug)]
pub enum AccountChange {
    Username(UserFormAccountUsername),
    Email(UserFormAccountEmail),
    Password(UserFormAccountPassword),
    Remove(UserFormRemoveAccount),
}

pub enum AccountChangeView {
    Username { current_password: Seq<char>, new_username: Seq<char> },
    Email { current_password: Seq<char>, new_email: Seq<char> },
    Password { current_password: Seq<char>, new_password: Seq<char>, confirm_password: Seq<char> },
    Remove { current_password: Seq<char>, confirm_password: Seq<char> },
}

impl View for AccountChange {
    type V = AccountChangeView;

    open spec fn view(&self) -> AccountChangeView {
        match self {
            AccountChange::Username(f) => AccountChangeView::Username {
                current_password: f.current_password@,
                new_username: f.new_username@,
            },
            AccountChange::Email(f) => AccountChangeView::Email {
                current_password: f.current_password@,
                new_email: f.new_email@,
            },
            AccountChange::Password(f) => AccountChangeView::Password {
                current_password: f.current_password@,
                new_password: f.new_password@,
                confirm_password: f.confirm_password@,
            },
            AccountChange::Remove(f) => AccountChangeView::Remove {
                current_password: f.current_password@,
                confirm_password: f.confirm_password@,
            },
        }
    }
}

impl AccountChangeView {
    /// The password the user typed to confirm the change.
    pub open spec fn current(self) -> Seq<char> {
        match self {
            AccountChangeView::Username { current_password, .. } => current_password,
            AccountChangeView::Email { current_password, .. } => current_password,
            AccountChangeView::Password { current_password, .. } => current_password,
            AccountChangeView::Remove { current_password, .. } => current_password,
        }
    }

    /// The tab of the account page that shows this form.
    pub open spec fn tab(self) -> Seq<char> {
        match self {
            AccountChangeView::Username { .. } => "username"@,
            AccountChangeView::Email { .. } => "email"@,
            AccountChangeView::Password { .. } => "password"@,
            AccountChangeView::Remove { .. } => "remove_account"@,
        }
    }

    /// The error flags the form gives before any lookup: the current password
    /// must be filled in (for removal: at least four bytes, and confirmed),
    /// and a new password must be at least four bytes and confirmed.
    pub open spec fn initial_errors(self) -> AccountErrors {
        let none = AccountErrors::spec_none();
        match self {
            AccountChangeView::Username { current_password, .. } => AccountErrors {
                error_username_password: current_password.len() == 0,
                ..none
            },
            AccountChangeView::Email { current_password, .. } => AccountErrors {
                error_email_password: current_password.len() == 0,
                ..none
            },
            AccountChangeView::Password { current_password, new_password, confirm_password } => AccountErrors {
                error_current_password: current_password.len() == 0,
                error_password: too_short(new_password),
                error_confirm_password: new_password != confirm_password,
                ..none
            },
            AccountChangeView::Remove { current_password, confirm_password } => AccountErrors {
                error_remove_account_password: too_short(current_password),
                error_remove_account_confirm_password: current_password != confirm_password,
                ..none
            },
        }
    }

    /// Whether the current password is checked against the stored hash: only
    /// when the form has not already failed on it.
    pub open spec fn needs_password_check(self, errors: AccountErrors) -> bool {
        match self {
            AccountChangeView::Username { .. } => !errors.error_username_password,
            AccountChangeView::Email { .. } => !errors.error_email_password,
            AccountChangeView::Password { .. } => !errors.error_current_password,
            AccountChangeView::Remove { .. } => !errors.error_remove_account_password
                && !errors.error_remove_account_confirm_password,
        }
    }

    /// The flags with the current-password flag of this form set to `flag`.
    pub open spec fn with_password_error(self, errors: AccountErrors, flag: bool) -> AccountErrors {
        match self {
            AccountChangeView::Username { .. } => AccountErrors { error_username_password: flag, ..errors },
            AccountChangeView::Email { .. } => AccountErrors { error_email_password: flag, ..errors },
            AccountChangeView::Password { .. } => AccountErrors { error_current_password: flag, ..errors },
            AccountChangeView::Remove { .. } => AccountErrors {
                error_remove_account_password: flag,
                ..errors
            },
        }
    }

}

/// The change to store once the user's nickname is known.
#[derive(Debug)]
pub enum PendingChange {
    Nickname(String),
    Email(String),
    /// A new password, already hashed.
    Password(String),
    Remove,
}

pub enum PendingChangeView {
    Nickname(Seq<char>),
    Email(Seq<char>),
    Password(Seq<char>),
    Remove,
}

impl View for PendingChange {
    type V = PendingChangeView;

    open spec fn view(&self) -> PendingChangeView {
        match self {
            PendingChange::Nickname(n) => PendingChangeView::Nickname(n@),
            PendingChange::Email(e) => PendingChangeView::Email(e@),
            PendingChange::Password(h) => PendingChangeView::Password(h@),
            PendingChange::Remove => PendingChangeView::Remove,
        }
    }
}

impl PendingChangeView {
    /// The change to store, for the user with this nickname and id.
    pub open spec fn action(self, nickname: Seq<char>, user_id: i32) -> ActionView {
        match self {
            PendingChangeView::Nickname(n) => ActionView::UpdateNickname(nickname, n),
            PendingChangeView::Email(e) => ActionView::UpdateEmail(nickname, e),
            PendingChangeView::Password(h) => ActionView::UpdatePassword(nickname, h),
            PendingChangeView::Remove => ActionView::RemoveAccount(nickname, user_id),
        }
    }
}

/// Where an account change stands.
pub enum AccountState {
    /// Waiting for whether the new nickname or email is taken.
    CheckingNewValue,
    /// Finding the logged-in user.
    Authenticating(Auth),
    /// Waiting for the stored password hash of this user.
    CheckingPassword(i32),
    /// A field is in error: waiting for this user's nickname, to show the page.
    FetchingNickname(i32),
    /// A field is in error: waiting for the user's email, to show the page.
    FetchingEmail { nickname: String },
    /// No field in error: waiting for this user's nickname, to store the change.
    FindingNicknameForChange { user_id: i32, change: PendingChange },
    /// Waiting for the change to be stored.
    Applying,
    /// Logging out after the change.
    LoggingOut(Logout),
    /// Answered.
    Finished,
}

pub enum AccountStateView {
    CheckingNewValue,
    Authenticating(Auth),
    CheckingPassword(i32),
    FetchingNickname(i32),
    FetchingEmail { nickname: Seq<char> },
    FindingNicknameForChange { user_id: i32, change: PendingChangeView },
    Applying,
    LoggingOut(Logout),
    Finished,
}

impl View for AccountState {
    type V = AccountStateView;

    open spec fn view(&self) -> AccountStateView {
        match self {
            AccountState::CheckingNewValue => AccountStateView::CheckingNewValue,
            AccountState::Authenticating(g) => AccountStateView::Authenticating(*g),
            AccountState::CheckingPassword(u) => AccountStateView::CheckingPassword(*u),
            AccountState::FetchingNickname(u) => AccountStateView::FetchingNickname(*u),
            AccountState::FetchingEmail { nickname } => AccountStateView::FetchingEmail {
                nickname: nickname@,
            },
            AccountState::FindingNicknameForChange { user_id, change } =>
                AccountStateView::FindingNicknameForChange { user_id: *user_id, change: change@ },
            AccountState::Applying => AccountStateView::Applying,
            AccountState::LoggingOut(l) => AccountStateView::LoggingOut(*l),
            AccountState::Finished => AccountStateView::Finished,
        }
    }
}

/// The account page's `POST` handlers (new nickname, new email, new
/// password, removal): validate the form, find the logged-in user, check the
/// current password against the stored hash, then either show the page with
/// the errors or store the change and log out.
pub struct AccountFlow {
    change: AccountChange,
    errors: AccountErrors,
    state: AccountState,
    /// The logged-in user, once known.
    user: Ghost<Option<i32>>,
    /// The stored hash the current password was checked against, once there is one.
    hash: Ghost<Option<Seq<char>>>,
    /// What the store answered when asked whether the new nickname or email
    /// is taken, once it was asked.
    value_taken: Ghost<Option<bool>>,
    /// What hashing the new password gave (`None` for a failure), once it was tried.
    hashed: Ghost<Option<Option<Seq<char>>>>,
}

pub struct AccountFlowView {
    pub change: AccountChangeView,
    pub errors: AccountErrors,
    pub state: AccountStateView,
    pub user: Option<i32>,
    pub hash: Option<Seq<char>>,
    pub value_taken: Option<bool>,
    pub hashed: Option<Option<Seq<char>>>,
}

impl View for AccountFlow {
    type V = AccountFlowView;

    closed spec fn view(&self) -> AccountFlowView {
        AccountFlowView {
            change: self.change@,
            errors: self.errors,
            state: self.state@,
            user: self.user@,
            hash: self.hash@,
            value_taken: self.value_taken@,
            hashed: self.hashed@,
        }
    }
}

pub open spec fn account_page(
    nickname: Seq<char>,
    email: Seq<char>,
    tab: Seq<char>,
    errors: AccountErrors,
) -> ActionView {
    ActionView::Respond(
        ResponseView::Render(
            PageView::Account(
                AccountContextView {
                    username_account: nickname,
                    email_account: email,
                    tab_selected: tab,
                    errors,
                    is_authenticated: true,
                },
            ),
        ),
    )
}

pub open spec fn index_response(name: Seq<char>) -> ActionView {
    ActionView::Respond(
        ResponseView::Render(PageView::Index(IndexContextView { name, is_authenticated: false })),
    )
}

/// The first state and action: a new nickname or email that passes its
/// format rule is looked up, otherwise the logged-in user is looked for.
pub open spec fn account_start(change: AccountChangeView) -> (AccountFlowView, ActionView) {
    let errors = change.initial_errors();
    let s = AccountFlowView {
        change,
        errors,
        state: AccountStateView::CheckingNewValue,
        user: None,
        hash: None,
        value_taken: None,
        hashed: None,
    };
    let authenticate = AccountFlowView { state: AccountStateView::Authenticating(Auth::ReadingCookie), ..s };
    match change {
        AccountChangeView::Username { new_username, .. } => if !too_short(new_username) {
            (s, ActionView::IsNicknameTaken(new_username))
        } else {
            (
                AccountFlowView { errors: AccountErrors { error_username: true, ..errors }, ..authenticate },
                ActionView::ReadSessionCookie,
            )
        },
        AccountChangeView::Email { new_email, .. } => if new_email.len() > 0 {
            (s, ActionView::IsEmailTaken(new_email))
        } else {
            (
                AccountFlowView { errors: AccountErrors { error_email: true, ..errors }, ..authenticate },
                ActionView::ReadSessionCookie,
            )
        },
        _ => (authenticate, ActionView::ReadSessionCookie),
    }
}

/// The user is known and the flags final: show the page when a flag is set,
/// otherwise find the nickname to store the change under (a new password is
/// hashed first; the hash is random, and a failed hash answers with the index
/// page).
pub open spec fn account_decided(s: AccountFlowView, user_id: i32, s2: AccountFlowView, a: ActionView) -> bool {
    if s.errors.any() {
        s2 == (AccountFlowView { state: AccountStateView::FetchingNickname(user_id), ..s })
            && a == ActionView::FindNickname(user_id)
    } else {
        match s.change {
            AccountChangeView::Password { new_password, .. } => match s2.hashed {
                Some(None) => {
                    &&& s2 == AccountFlowView {
                        state: AccountStateView::Finished,
                        hashed: Some(None),
                        ..s
                    }
                    &&& a == ActionView::Respond(
                        ResponseView::Render(
                            PageView::IndexWithRegisterContext(
                                RegisterContextView {
                                    name: "Registration faild"@,
                                    error_username: s.errors.error_username,
                                    error_email: s.errors.error_email,
                                    error_password: s.errors.error_password,
                                    error_confirm_password: s.errors.error_confirm_password,
                                },
                            ),
                        ),
                    )
                },
                Some(Some(h)) => {
                    &&& s2 == AccountFlowView {
                        state: AccountStateView::FindingNicknameForChange {
                            user_id,
                            change: PendingChangeView::Password(h),
                        },
                        hashed: Some(Some(h)),
                        ..s
                    }
                    &&& utf8_len(h) == 60
                    &&& spec_check_password(new_password, h) == PasswordCheck::Matches
                    &&& a == ActionView::FindNickname(user_id)
                },
                None => false,
            },
            AccountChangeView::Username { new_username, .. } => s2 == (AccountFlowView {
                state: AccountStateView::FindingNicknameForChange {
                    user_id,
                    change: PendingChangeView::Nickname(new_username),
                },
                ..s
            }) && a == ActionView::FindNickname(user_id),
            AccountChangeView::Email { new_email, .. } => s2 == (AccountFlowView {
                state: AccountStateView::FindingNicknameForChange {
                    user_id,
                    change: PendingChangeView::Email(new_email),
                },
                ..s
            }) && a == ActionView::FindNickname(user_id),
            AccountChangeView::Remove { .. } => s2 == (AccountFlowView {
                state: AccountStateView::FindingNicknameForChange {
                    user_id,
                    change: PendingChangeView::Remove,
                },
                ..s
            }) && a == ActionView::FindNickname(user_id),
        }
    }
}

/// The logged-in user is known: check the current password when the form
/// has not already failed on it.
pub open spec fn account_logged_in(s: AccountFlowView, user_id: i32, s2: AccountFlowView, a: ActionView) -> bool {
    let s1 = AccountFlowView { user: Some(user_id), ..s };
    if s.change.needs_password_check(s.errors) {
        s2 == (AccountFlowView { state: AccountStateView::CheckingPassword(user_id), ..s1 })
            && a == ActionView::FindPasswordHashById(user_id)
    } else {
        account_decided(s1, user_id, s2, a)
    }
}

pub open spec fn account_expects(s: AccountFlowView, e: EventView) -> bool {
    match s.state {
        AccountStateView::CheckingNewValue => e is Found,
        AccountStateView::Authenticating(g) => auth_expects(g, e),
        AccountStateView::CheckingPassword(_) => e is PasswordHash,
        AccountStateView::FetchingNickname(_) => e is Text,
        AccountStateView::FetchingEmail { .. } => e is Text,
        AccountStateView::FindingNicknameForChange { .. } => e is Text,
        AccountStateView::Applying => e is Done,
        AccountStateView::LoggingOut(l) => logout_expects(l, e),
        AccountStateView::Finished => false,
    }
}

/// One step of an account change.
pub open spec fn account_step(s: AccountFlowView, e: EventView, s2: AccountFlowView, a: ActionView) -> bool {
    let finish = AccountFlowView { state: AccountStateView::Finished, ..s };
    match s.state {
        AccountStateView::CheckingNewValue => match e {
            EventView::Found(taken) => {
                let errors = match s.change {
                    AccountChangeView::Username { .. } => AccountErrors { error_username: taken, ..s.errors },
                    _ => AccountErrors { error_email: taken, ..s.errors },
                };
                s2 == (AccountFlowView {
                    errors,
                    state: AccountStateView::Authenticating(Auth::ReadingCookie),
                    value_taken: Some(taken),
                    ..s
                }) && a == ActionView::ReadSessionCookie
            },
            _ => false,
        },
        AccountStateView::Authenticating(g) => match auth_next(g, e) {
            AuthStepView::Ask(g2, act) => s2 == (AccountFlowView {
                state: AccountStateView::Authenticating(g2),
                ..s
            }) && a == act,
            AuthStepView::NoSession => s2 == finish && a == index_response(
                "TO DO - account - login Page"@,
            ),
            AuthStepView::NotAUser => s2 == finish && a == index_response(
                "TO DO - account - you are not logged in"@,
            ),
            AuthStepView::LoggedIn(u) => account_logged_in(s, u, s2, a),
        },
        AccountStateView::CheckingPassword(u) => match e {
            EventView::PasswordHash(stored) => {
                let flag = spec_password_error(stored, s.change.current());
                let s1 = AccountFlowView {
                    errors: s.change.with_password_error(s.errors, flag),
                    hash: match stored {
                        Ok(h) => Some(h),
                        Err(_) => None,
                    },
                    ..s
                };
                account_decided(s1, u, s2, a)
            },
            _ => false,
        },
        AccountStateView::FetchingNickname(u) => match e {
            EventView::Text(nickname) => s2 == (AccountFlowView {
                state: AccountStateView::FetchingEmail { nickname },
                ..s
            }) && a == ActionView::FindEmail(u),
            _ => false,
        },
        AccountStateView::FetchingEmail { nickname } => match e {
            EventView::Text(email) => s2 == finish && a == account_page(
                nickname,
                email,
                s.change.tab(),
                s.errors,
            ),
            _ => false,
        },
        AccountStateView::FindingNicknameForChange { user_id, change } => match e {
            EventView::Text(nickname) => s2 == (AccountFlowView {
                state: AccountStateView::Applying,
                ..s
            }) && a == change.action(nickname, user_id),
            _ => false,
        },
        AccountStateView::Applying => s2 == (AccountFlowView {
            state: AccountStateView::LoggingOut(Logout::ReadingCookie),
            ..s
        }) && a == ActionView::ReadSessionCookie,
        AccountStateView::LoggingOut(l) => match logout_next(l, e) {
            LogoutStepView::Ask(l2, act) => s2 == (AccountFlowView {
                state: AccountStateView::LoggingOut(l2),
                ..s
            }) && a == act,
            LogoutStepView::Finished => s2 == finish && a == ActionView::Respond(
                ResponseView::Redirect("/login"@),
            ),
        },
        AccountStateView::Finished => false,
    }
}

/// The current password was checked against a stored hash and matched it.
pub open spec fn current_password_verified(s: AccountFlowView) -> bool {
    &&& s.hash matches Some(h)
    &&& spec_check_password(s.change.current(), h) == PasswordCheck::Matches
}

/// The change waiting to be stored is the one the form asked for.
pub open spec fn pending_matches(change: AccountChangeView, pending: PendingChangeView) -> bool {
    match change {
        AccountChangeView::Username { new_username, .. } => pending == PendingChangeView::Nickname(new_username),
        AccountChangeView::Email { new_email, .. } => pending == PendingChangeView::Email(new_email),
        AccountChangeView::Password { new_password, .. } => pending matches PendingChangeView::Password(h)
            && spec_check_password(new_password, h) == PasswordCheck::Matches,
        AccountChangeView::Remove { .. } => pending == PendingChangeView::Remove,
    }
}

/// What holds in every state an account change reaches.
pub open spec fn account_inv(s: AccountFlowView) -> bool {
    &&& match s.state {
        AccountStateView::CheckingPassword(u) => s.user == Some(u) && s.change.needs_password_check(
            s.errors,
        ),
        AccountStateView::FindingNicknameForChange { user_id, change } => {
            &&& s.user == Some(user_id)
            &&& !s.errors.any()
            &&& current_password_verified(s)
            &&& pending_matches(s.change, change)
        },
        _ => true,
    }
    &&& !(s.state is CheckingNewValue) ==> new_value_checked(s)
    &&& form_rules_flagged(s)
    &&& s.state is CheckingNewValue ==> match s.change {
        AccountChangeView::Username { new_username, .. } => !too_short(new_username),
        AccountChangeView::Email { new_email, .. } => new_email.len() > 0,
        _ => false,
    }
}

/// Every rule of the form that fails has its flag set: the current password
/// must be filled in (for a removal: at least four bytes, and confirmed), a
/// new nickname must be at least four bytes, a new email filled in, and a new
/// password at least four bytes and confirmed.
pub open spec fn form_rules_flagged(s: AccountFlowView) -> bool {
    match s.change {
        AccountChangeView::Username { current_password, new_username } => {
            &&& current_password.len() == 0 ==> s.errors.error_username_password
            &&& too_short(new_username) ==> s.errors.error_username
        },
        AccountChangeView::Email { current_password, new_email } => {
            &&& current_password.len() == 0 ==> s.errors.error_email_password
            &&& new_email.len() == 0 ==> s.errors.error_email
        },
        AccountChangeView::Password { current_password, new_password, confirm_password } => {
            &&& current_password.len() == 0 ==> s.errors.error_current_password
            &&& too_short(new_password) ==> s.errors.error_password
            &&& new_password != confirm_password ==> s.errors.error_confirm_password
        },
        AccountChangeView::Remove { current_password, confirm_password } => {
            &&& too_short(current_password) ==> s.errors.error_remove_account_password
            &&& current_password != confirm_password ==> s.errors.error_remove_account_confirm_password
        },
    }
}

/// The rules of the form, each in its own terms.
pub open spec fn form_rules_hold(change: AccountChangeView) -> bool {
    match change {
        AccountChangeView::Username { current_password, new_username } => current_password.len() > 0
            && !too_short(new_username),
        AccountChangeView::Email { current_password, new_email } => current_password.len() > 0
            && new_email.len() > 0,
        AccountChangeView::Password { current_password, new_password, confirm_password } => {
            &&& current_password.len() > 0
            &&& !too_short(new_password)
            &&& new_password == confirm_password
        },
        AccountChangeView::Remove { current_password, confirm_password } => !too_short(current_password)
            && current_password == confirm_password,
    }
}

/// A new nickname or email whose flag is clear was looked up, and the store
/// said it is free.
pub open spec fn new_value_checked(s: AccountFlowView) -> bool {
    match s.change {
        AccountChangeView::Username { .. } => !s.errors.error_username ==> s.value_taken == Some(false),
        AccountChangeView::Email { .. } => !s.errors.error_email ==> s.value_taken == Some(false),
        _ => true,
    }
}

/// An account change starts in a state of its invariant.
pub proof fn lemma_account_start_inv(change: AccountChangeView)
    ensures
        account_inv(account_start(change).0),
{
}

/// Every step of an account change keeps its invariant.
pub proof fn lemma_account_step_inv(s: AccountFlowView, e: EventView, s2: AccountFlowView, a: ActionView)
    requires
        account_inv(s),
        account_step(s, e, s2, a),
    ensures
        account_inv(s2),
{
}

/// An account change is stored only for the logged-in user, when no field
/// of the form is in error and the current password matched the user's
/// stored hash; what is stored is what the form asked for (a new password
/// as a hash that the new password matches), under the nickname the store
/// gave for that user, and the next step logs out.
pub proof fn lemma_account_change_needs_password(
    s: AccountFlowView,
    e: EventView,
    s2: AccountFlowView,
    a: ActionView,
)
    requires
        account_inv(s),
        account_step(s, e, s2, a),
        a is UpdateNickname || a is UpdateEmail || a is UpdatePassword || a is RemoveAccount,
    ensures
        s.state matches AccountStateView::FindingNicknameForChange { user_id, change } && {
            &&& s.user == Some(user_id)
            &&& e matches EventView::Text(nickname)
            &&& a == change.action(nickname, user_id)
            &&& pending_matches(s.change, change)
        },
        !s.errors.any(),
        current_password_verified(s),
        form_rules_hold(s.change),
        s.change matches AccountChangeView::Remove { current_password, confirm_password }
            ==> current_password == confirm_password,
        s2.state == AccountStateView::Applying,
{
}

/// Once a change is stored, an account change only logs out: it reads the
/// session cookie, deletes that session and removes the cookie, and then
/// redirects to the login page.
pub proof fn lemma_account_change_logs_out(s: AccountFlowView, e: EventView, s2: AccountFlowView, a: ActionView)
    requires
        account_step(s, e, s2, a),
        s.state is Applying || s.state is LoggingOut,
    ensures
        a == ActionView::ReadSessionCookie || a is RemoveSession || a == ActionView::RemoveSessionCookie
            || a == ActionView::Respond(ResponseView::Redirect("/login"@)),
        a is RemoveSession ==> e == EventView::Cookie(Some(a->RemoveSession_0)),
        s2.state is LoggingOut || s2.state is Finished,
{
}

/// A new nickname or email keeps nicknames and emails unique: when the
/// store answered the lookup of the new value from the users table `users`
/// (no other request changing it meanwhile) and no two of its rows share a
/// nickname or an email, changing the row of the nickname the store gave for
/// the user keeps it so.
pub proof fn lemma_account_change_keeps_users_unique(
    users: Seq<UserView>,
    s: AccountFlowView,
    e: EventView,
    s2: AccountFlowView,
    a: ActionView,
)
    requires
        users_unique(users),
        account_inv(s),
        account_step(s, e, s2, a),
        a is UpdateNickname || a is UpdateEmail,
        s.value_taken == Some(
            match s.change {
                AccountChangeView::Username { new_username, .. } => has_nickname(users, new_username),
                AccountChangeView::Email { new_email, .. } => has_email(users, new_email),
                _ => false,
            },
        ),
    ensures
        a matches ActionView::UpdateNickname(nickname, new_nickname) ==> users_unique(
            rename_user(users, nickname, new_nickname),
        ),
        a matches ActionView::UpdateEmail(nickname, new_email) ==> users_unique(
            change_user_email(users, nickname, new_email),
        ),
{
    lemma_account_change_needs_password(s, e, s2, a);
    match a {
        ActionView::UpdateNickname(nickname, new_nickname) => {
            assert(!has_nickname(users, new_nickname));
            let r = rename_user(users, nickname, new_nickname);
            assert forall|i: int, j: int| 0 <= i < j < r.len() implies #[trigger] r[i].nickname
                != #[trigger] r[j].nickname && r[i].email != r[j].email by {
                assert(users[i].nickname != users[j].nickname);
            }
        },
        ActionView::UpdateEmail(nickname, new_email) => {
            assert(!has_email(users, new_email));
            let r = change_user_email(users, nickname, new_email);
            assert forall|i: int, j: int| 0 <= i < j < r.len() implies #[trigger] r[i].nickname
                != #[trigger] r[j].nickname && r[i].email != r[j].email by {
                assert(users[i].nickname != users[j].nickname);
            }
        },
        _ => {},
    }
}

/// An account change asks for the session of exactly the token its cookie
/// holds, and then checks exactly the user that session names.
pub proof fn lemma_account_reads_cookie_session(
    s: AccountFlowView,
    token: Seq<char>,
    s2: AccountFlowView,
    a: ActionView,
    user_id: i64,
    s3: AccountFlowView,
    a3: ActionView,
)
    requires
        s.state == AccountStateView::Authenticating(Auth::ReadingCookie),
        account_step(s, EventView::Cookie(Some(token)), s2, a),
        account_step(s2, EventView::SessionUser(Ok(user_id)), s3, a3),
    ensures
        a == ActionView::FindSessionUser(token),
        a3 == ActionView::CheckUser(user_id as i32),
{
}

/// A password change with no field of the form in error, for a logged-in
/// user whose current password matched the stored hash, hashes the new password
/// and goes on to find the user's nickname to store that hash, which the new
/// password matches; it answers with the index page instead only when
/// hashing failed.
pub proof fn lemma_password_change_goes_on(
    s: AccountFlowView,
    stored: Seq<char>,
    s2: AccountFlowView,
    a: ActionView,
)
    requires
        account_inv(s),
        s.state matches AccountStateView::CheckingPassword(_),
        s.change is Password,
        !s.errors.any(),
        spec_check_password(s.change.current(), stored) == PasswordCheck::Matches,
        account_step(s, EventView::PasswordHash(Ok(stored)), s2, a),
    ensures
        s2.hashed is Some,
        s2.hashed matches Some(Some(h)) ==> {
            &&& s2.state == (AccountStateView::FindingNicknameForChange {
                user_id: s.state->CheckingPassword_0,
                change: PendingChangeView::Password(h),
            })
            &&& a == ActionView::FindNickname(s.state->CheckingPassword_0)
            &&& spec_check_password(s.change->Password_new_password, h) == PasswordCheck::Matches
        },
        s2.hashed == Some(None::<Seq<char>>) ==> s2.state is Finished,
{
}

/// An account change answers with the index page under a registration
/// context only after hashing the new password failed.
pub proof fn lemma_account_index_only_on_failed_hash(
    s: AccountFlowView,
    e: EventView,
    s2: AccountFlowView,
    a: ActionView,
)
    requires
        account_step(s, e, s2, a),
        a matches ActionView::Respond(ResponseView::Render(PageView::IndexWithRegisterContext(_))),
    ensures
        s2.hashed == Some(None::<Seq<char>>),
{
}

/// How many outside steps an account change can still take before it answers.
pub open spec fn account_rank(s: AccountFlowView) -> nat {
    match s.state {
        AccountStateView::CheckingNewValue => 10,
        AccountStateView::Authenticating(Auth::ReadingCookie) => 9,
        AccountStateView::Authenticating(Auth::FindingSession) => 8,
        AccountStateView::Authenticating(Auth::CheckingUser(_)) => 7,
        AccountStateView::CheckingPassword(_) => 6,
        AccountStateView::FindingNicknameForChange { .. } => 5,
        AccountStateView::Applying => 4,
        AccountStateView::LoggingOut(Logout::ReadingCookie) => 3,
        AccountStateView::LoggingOut(Logout::RemovingSession) => 2,
        AccountStateView::LoggingOut(Logout::RemovingCookie) => 1,
        AccountStateView::FetchingNickname(_) => 2,
        AccountStateView::FetchingEmail { .. } => 1,
        AccountStateView::Finished => 0,
    }
}

/// An account change answers the request exactly when it finishes, and
/// every step brings it closer to the answer.
pub proof fn lemma_account_answers(s: AccountFlowView, e: EventView, s2: AccountFlowView, a: ActionView)
    requires
        account_step(s, e, s2, a),
    ensures
        (a is Respond) == (s2.state is Finished),
        account_rank(s2) < account_rank(s),
        (account_start(s.change).1 is Respond) == (account_start(s.change).0.state is Finished),
{
}

fn account_index(name: &str) -> (a: Action)
    ensures
        a@ == index_response(name@),
{
    Action::Respond(index_page(name, false))
}

impl AccountChange {
    fn current_password(&self) -> (p: &String)
        ensures
            p@ == self@.current(),
    {
        match self {
            AccountChange::Username(f) => &f.current_password,
            AccountChange::Email(f) => &f.current_password,
            AccountChange::Password(f) => &f.current_password,
            AccountChange::Remove(f) => &f.current_password,
        }
    }

    fn tab(&self) -> (t: String)
        ensures
            t@ == self@.tab(),
    {
        match self {
            AccountChange::Username(_) => "username".to_owned(),
            AccountChange::Email(_) => "email".to_owned(),
            AccountChange::Password(_) => "password".to_owned(),
            AccountChange::Remove(_) => "remove_account".to_owned(),
        }
    }

    fn initial_errors(&self) -> (e: AccountErrors)
        ensures
            e == self@.initial_errors(),
    {
        let mut e = AccountErrors::none();
        match self {
            AccountChange::Username(f) => {
                e.error_username_password = error_login_validate_empty_form(f.current_password.clone());
            },
            AccountChange::Email(f) => {
                e.error_email_password = error_login_validate_empty_form(f.current_password.clone());
            },
            AccountChange::Password(f) => {
                e.error_current_password = error_login_validate_empty_form(f.current_password.clone());
                e.error_password = error_register_validate_password(f.new_password.clone());
                e.error_confirm_password = error_register_validate_confirm_password(
                    f.new_password.clone(),
                    f.confirm_password.clone(),
                );
            },
            AccountChange::Remove(f) => {
                e.error_remove_account_password = error_register_validate_password(
                    f.current_password.clone(),
                );
                e.error_remove_account_confirm_password = error_register_validate_confirm_password(
                    f.current_password.clone(),
                    f.confirm_password.clone(),
                );
            },
        }
        e
    }

    fn needs_password_check(&self, errors: AccountErrors) -> (r: bool)
        ensures
            r == self@.needs_password_check(errors),
    {
        match self {
            AccountChange::Username(_) => !errors.error_username_password,
            AccountChange::Email(_) => !errors.error_email_password,
            AccountChange::Password(_) => !errors.error_current_password,
            AccountChange::Remove(_) => !errors.error_remove_account_password
                && !errors.error_remove_account_confirm_password,
        }
    }

    fn with_password_error(&self, errors: AccountErrors, flag: bool) -> (r: AccountErrors)
        ensures
            r == self@.with_password_error(errors, flag),
    {
        let mut r = errors;
        match self {
            AccountChange::Username(_) => {
                r.error_username_password = flag;
            },
            AccountChange::Email(_) => {
                r.error_email_password = flag;
            },
            AccountChange::Password(_) => {
                r.error_current_password = flag;
            },
            AccountChange::Remove(_) => {
                r.error_remove_account_password = flag;
            },
        }
        r
    }
}

impl PendingChange {
    fn action(self, nickname: String, user_id: i32) -> (a: Action)
        ensures
            a@ == self@.action(nickname@, user_id),
    {
        match self {
            PendingChange::Nickname(n) => Action::UpdateNickname(nickname, n),
            PendingChange::Email(e) => Action::UpdateEmail(nickname, e),
            PendingChange::Password(h) => Action::UpdatePassword(nickname, h),
            PendingChange::Remove => Action::RemoveAccount(nickname, user_id),
        }
    }
}

impl AccountFlow {
    /// Starts an account change with the submitted form; returns the flow
    /// and its first action.
    pub fn new(change: AccountChange) -> (r: (AccountFlow, Action))
        ensures
            (r.0@, r.1@) == account_start(change@),
    {
        let mut errors = change.initial_errors();
        let (state, action) = match &change {
            AccountChange::Username(f) => {
                if !username_format_error(&f.new_username) {
                    (AccountState::CheckingNewValue, Action::IsNicknameTaken(f.new_username.clone()))
                } else {
                    errors.error_username = true;
                    (AccountState::Authenticating(Auth::ReadingCookie), Action::ReadSessionCookie)
                }
            },
            AccountChange::Email(f) => {
                if !email_format_error(&f.new_email) {
                    (AccountState::CheckingNewValue, Action::IsEmailTaken(f.new_email.clone()))
                } else {
                    errors.error_email = true;
                    (AccountState::Authenticating(Auth::ReadingCookie), Action::ReadSessionCookie)
                }
            },
            _ => (AccountState::Authenticating(Auth::ReadingCookie), Action::ReadSessionCookie),
        };
        (AccountFlow { change, errors, state, user: Ghost(None), hash: Ghost(None), value_taken: Ghost(None), hashed: Ghost(None) }, action)
    }

    /// Whether `e` answers the pending action.
    pub fn expects(&self, e: &Event) -> (r: bool)
        ensures
            r == account_expects(self@, e@),
    {
        match &self.state {
            AccountState::CheckingNewValue => matches!(e, Event::Found(_)),
            AccountState::Authenticating(g) => auth_expects_event(*g, e),
            AccountState::CheckingPassword(_) => matches!(e, Event::PasswordHash(_)),
            AccountState::FetchingNickname(_) => matches!(e, Event::Text(_)),
            AccountState::FetchingEmail { .. } => matches!(e, Event::Text(_)),
            AccountState::FindingNicknameForChange { .. } => matches!(e, Event::Text(_)),
            AccountState::Applying => matches!(e, Event::Done),
            AccountState::LoggingOut(l) => logout_expects_event(*l, e),
            AccountState::Finished => false,
        }
    }

    fn decide(&mut self, user_id: i32) -> (a: Action)
        ensures
            account_decided(old(self)@, user_id, final(self)@, a@),
    {
        if self.errors.has_error() {
            self.state = AccountState::FetchingNickname(user_id);
            return Action::FindNickname(user_id);
        }
        let pending = match &self.change {
            AccountChange::Username(f) => PendingChange::Nickname(f.new_username.clone()),
            AccountChange::Email(f) => PendingChange::Email(f.new_email.clone()),
            AccountChange::Remove(_) => PendingChange::Remove,
            AccountChange::Password(f) => {
                let hashed = hash_password(&f.new_password);
                self.hashed = Ghost(
                    Some(
                        match &hashed {
                            Some(h) => Some(h@),
                            None => None,
                        },
                    ),
                );
                match hashed {
                    Some(h) => PendingChange::Password(h),
                    None => {
                        self.state = AccountState::Finished;
                        return Action::Respond(
                            Response::Render(
                                Page::IndexWithRegisterContext(
                                    TemplateContextRegister::new(
                                        "Registration faild".to_owned(),
                                        self.errors.error_username,
                                        self.errors.error_email,
                                        self.errors.error_password,
                                        self.errors.error_confirm_password,
                                    ),
                                ),
                            ),
                        );
                    },
                }
            },
        };
        self.state = AccountState::FindingNicknameForChange { user_id, change: pending };
        Action::FindNickname(user_id)
    }

    fn logged_in(&mut self, user_id: i32) -> (a: Action)
        ensures
            account_logged_in(old(self)@, user_id, final(self)@, a@),
    {
        self.user = Ghost(Some(user_id));
        if self.change.needs_password_check(self.errors) {
            self.state = AccountState::CheckingPassword(user_id);
            Action::FindPasswordHashById(user_id)
        } else {
            self.decide(user_id)
        }
    }

    /// Takes the outcome of the pending action; returns the next action.
    pub fn step(&mut self, e: Event) -> (a: Action)
        requires
            account_expects(old(self)@, e@),
        ensures
            account_step(old(self)@, e@, final(self)@, a@),
    {
        let mut state = AccountState::Finished;
        std::mem::swap(&mut state, &mut self.state);
        match state {
            AccountState::CheckingNewValue => match e {
                Event::Found(taken) => {
                    match &self.change {
                        AccountChange::Username(_) => {
                            self.errors.error_username = taken;
                        },
                        _ => {
                            self.errors.error_email = taken;
                        },
                    }
                    self.value_taken = Ghost(Some(taken));
                    self.state = AccountState::Authenticating(Auth::ReadingCookie);
                    Action::ReadSessionCookie
                },
                _ => vstd::pervasive::unreached(),
            },
            AccountState::Authenticating(g) => match auth_step(g, e) {
                AuthStep::Ask(g2, act) => {
                    self.state = AccountState::Authenticating(g2);
                    act
                },
                AuthStep::NoSession => account_index("TO DO - account - login Page"),
                AuthStep::NotAUser => account_index("TO DO - account - you are not logged in"),
                AuthStep::LoggedIn(u) => self.logged_in(u),
            },
            AccountState::CheckingPassword(u) => match e {
                Event::PasswordHash(stored) => {
                    let flag = current_password_error(&stored, self.change.current_password());
                    self.errors = self.change.with_password_error(self.errors, flag);
                    self.hash = Ghost(
                        match stored {
                            Ok(h) => Some(h@),
                            Err(_) => None,
                        },
                    );
                    self.decide(u)
                },
                _ => vstd::pervasive::unreached(),
            },
            AccountState::FetchingNickname(u) => match e {
                Event::Text(nickname) => {
                    self.state = AccountState::FetchingEmail { nickname };
                    Action::FindEmail(u)
                },
                _ => vstd::pervasive::unreached(),
            },
            AccountState::FetchingEmail { nickname } => match e {
                Event::Text(email) => Action::Respond(
                    Response::Render(
                        Page::Account(
                            TemplateContextAccount::new(nickname, email, self.change.tab(), self.errors),
                        ),
                    ),
                ),
                _ => vstd::pervasive::unreached(),
            },
            AccountState::FindingNicknameForChange { user_id, change } => match e {
                Event::Text(nickname) => {
                    self.state = AccountState::Applying;
                    change.action(nickname, user_id)
                },
                _ => vstd::pervasive::unreached(),
            },
            AccountState::Applying => {
                self.state = AccountState::LoggingOut(Logout::ReadingCookie);
                Action::ReadSessionCookie
            },
            AccountState::LoggingOut(l) => match logout_step(l, e) {
                LogoutStep::Ask(l2, act) => {
                    self.state = AccountState::LoggingOut(l2);
                    act
                },
                LogoutStep::Finished => Action::Respond(Response::Redirect("/login".to_owned())),
            },
            AccountState::Finished => vstd::pervasive::unreached(),
        }
    }
}

} // verus!

use vstd::prelude::*;

use crate::pages::{
    index_page,
    AccountContextView,
    AccountErrors,
    IndexContextView,
    Page,
    PageView,
    Response,
    ResponseView,
    TemplateContextAccount,
    TemplateContextIndex,
};
use crate::login::{login_step, LoginFlowView};
use crate::protocol::{Action, ActionView, Event, EventView};
use crate::session::{
    auth_expects,
    auth_expects_event,
    auth_next,
    auth_step,
    logout_expects,
    logout_expects_event,
    logout_next,
    logout_step,
    Auth,
    AuthStep,
    AuthStepView,
    Logout,
    LogoutStep,
    LogoutStepView,
};

verus! {

/// The pages and wallet requests that need a logged-in user.
#[derive(PartialEq, Eq, Structural, Clone, Copy, Debug)]
pub enum PageKind {
    /// `GET /`
    Index,
    /// `GET /chart`
    Chart,
    /// `GET /account`
    Account,
    /// `GET /wallet_transactions`
    WalletTransactions,
    /// `GET /wallet_dashboard`
    WalletDashboard,
    /// `POST /wallet_transactions/add_transaction`
    AddTransaction,
    /// `POST /wallet_transactions/remove_transactions`
    RemoveTransactions,
}

pub open spec fn is_wallet(kind: PageKind) -> bool {
    kind == PageKind::WalletTransactions || kind == PageKind::WalletDashboard || kind
        == PageKind::AddTransaction || kind == PageKind::RemoveTransactions
}

/// The index text for a visitor with no session.
pub open spec fn no_session_text(kind: PageKind) -> Seq<char> {
    if is_wallet(kind) {
        "TO DO - wallet - login Page"@
    } else if kind == PageKind::Account {
        "TO DO - home - you are not logged in"@
    } else {
        "TO DO - home - login Page"@
    }
}

/// The index text for a session whose user does not exist.
pub open spec fn not_a_user_text(kind: PageKind) -> Seq<char> {
    if is_wallet(kind) {
        "TO DO - wallet - you are not logged in"@
    } else {
        "TO DO - home - you are not logged in"@
    }
}

/// Where a page request stands.
pub enum PageState {
    Authenticating(Auth),
    FetchingNickname(i32),
    FetchingEmail { nickname: String },
    /// Waiting for the wallet work to be done.
    Working,
    Finished,
}

pub enum PageStateView {
    Authenticating(Auth),
    FetchingNickname(i32),
    FetchingEmail { nickname: Seq<char> },
    Working,
    Finished,
}

impl View for PageState {
    type V = PageStateView;

    open spec fn view(&self) -> PageStateView {
        match self {
            PageState::Authenticating(g) => PageStateView::Authenticating(*g),
            PageState::FetchingNickname(u) => PageStateView::FetchingNickname(*u),
            PageState::FetchingEmail { nickname } => PageStateView::FetchingEmail { nickname: nickname@ },
            PageState::Working => PageStateView::Working,
            PageState::Finished => PageStateView::Finished,
        }
    }
}

/// A request for a page that needs a logged-in user: find the user from the
/// session cookie, then render the page or do the wallet work; visitors who
/// are not logged in get the index page.
pub struct PageFlow {
    kind: PageKind,
    state: PageState,
    /// The logged-in user, once known.
    user: Ghost<Option<i32>>,
}

pub struct PageFlowView {
    pub kind: PageKind,
    pub state: PageStateView,
    pub user: Option<i32>,
}

impl View for PageFlow {
    type V = PageFlowView;

    closed spec fn view(&self) -> PageFlowView {
        PageFlowView { kind: self.kind, state: self.state@, user: self.user@ }
    }
}

pub open spec fn render(page: PageView) -> ActionView {
    ActionView::Respond(ResponseView::Render(page))
}

pub open spec fn page_start(kind: PageKind) -> (PageFlowView, ActionView) {
    (
        PageFlowView { kind, state: PageStateView::Authenticating(Auth::ReadingCookie), user: None },
        ActionView::ReadSessionCookie,
    )
}

/// What a logged-in user's request does first.
pub open spec fn page_logged_in(s: PageFlowView, u: i32) -> (PageFlowView, ActionView) {
    let s1 = PageFlowView { user: Some(u), ..s };
    let finish = PageFlowView { state: PageStateView::Finished, ..s1 };
    let working = PageFlowView { state: PageStateView::Working, ..s1 };
    match s.kind {
        PageKind::Index => (
            finish,
            render(
                PageView::Index(
                    IndexContextView { name: "TO DO - home - you are logged in"@, is_authenticated: true },
                ),
            ),
        ),
        PageKind::Chart => (
            finish,
            render(PageView::Chart(IndexContextView { name: ""@, is_authenticated: true })),
        ),
        PageKind::Account => (
            PageFlowView { state: PageStateView::FetchingNickname(u), ..s1 },
            ActionView::FindNickname(u),
        ),
        PageKind::WalletTransactions => (working, ActionView::LoadTransactions(u)),
        PageKind::WalletDashboard => (working, ActionView::SummarizeTransactions(u)),
        PageKind::AddTransaction => (working, ActionView::AddTransaction(u)),
        PageKind::RemoveTransactions => (working, ActionView::RemoveTransactions(u)),
    }
}

/// What answers a wallet request once its work is done.
pub open spec fn wallet_done_response(kind: PageKind) -> ResponseView {
    match kind {
        PageKind::WalletTransactions => ResponseView::Render(PageView::WalletTransactions),
        PageKind::WalletDashboard => ResponseView::Render(PageView::WalletDashboard),
        _ => ResponseView::Redirect("/wallet_transactions"@),
    }
}

pub open spec fn page_expects(s: PageFlowView, e: EventView) -> bool {
    match s.state {
        PageStateView::Authenticating(g) => auth_expects(g, e),
        PageStateView::FetchingNickname(_) => e is Text,
        PageStateView::FetchingEmail { .. } => e is Text,
        PageStateView::Working => e is Done,
        PageStateView::Finished => false,
    }
}

/// One step of a page request (for an event that `page_expects`).
pub open spec fn page_next(s: PageFlowView, e: EventView) -> (PageFlowView, ActionView) {
    let finish = PageFlowView { state: PageStateView::Finished, ..s };
    match s.state {
        PageStateView::Authenticating(g) => match auth_next(g, e) {
            AuthStepView::Ask(g2, act) => (
                PageFlowView { state: PageStateView::Authenticating(g2), ..s },
                act,
            ),
            AuthStepView::NoSession => (
                finish,
                render(PageView::Index(IndexContextView { name: no_session_text(s.kind), is_authenticated: false })),
            ),
            AuthStepView::NotAUser => (
                finish,
                render(PageView::Index(IndexContextView { name: not_a_user_text(s.kind), is_authenticated: false })),
            ),
            AuthStepView::LoggedIn(u) => page_logged_in(s, u),
        },
        PageStateView::FetchingNickname(u) => match e {
            EventView::Text(nickname) => (
                PageFlowView { state: PageStateView::FetchingEmail { nickname }, ..s },
                ActionView::FindEmail(u),
            ),
            _ => (s, ActionView::ReadSessionCookie),
        },
        PageStateView::FetchingEmail { nickname } => match e {
            EventView::Text(email) => (
                finish,
                render(
                    PageView::Account(
                        AccountContextView {
                            username_account: nickname,
                            email_account: email,
                            tab_selected: "username"@,
                            errors: AccountErrors::spec_none(),
                            is_authenticated: true,
                        },
                    ),
                ),
            ),
            _ => (s, ActionView::ReadSessionCookie),
        },
        PageStateView::Working => (finish, ActionView::Respond(wallet_done_response(s.kind))),
        PageStateView::Finished => (s, ActionView::ReadSessionCookie),
    }
}

/// What holds in every state a page request reaches.
pub open spec fn page_inv(s: PageFlowView) -> bool {
    match s.state {
        PageStateView::Authenticating(_) => s.user is None,
        PageStateView::FetchingNickname(u) => s.user == Some(u) && s.kind == PageKind::Account,
        PageStateView::FetchingEmail { .. } => s.user is Some && s.kind == PageKind::Account,
        PageStateView::Working => s.user is Some && is_wallet(s.kind),
        PageStateView::Finished => true,
    }
}

/// An action that touches a user's data, or an answer meant only for a
/// logged-in user.
pub open spec fn is_protected(a: ActionView) -> bool {
    match a {
        ActionView::FindNickname(_) | ActionView::FindEmail(_) | ActionView::LoadTransactions(_)
        | ActionView::SummarizeTransactions(_) | ActionView::AddTransaction(_)
        | ActionView::RemoveTransactions(_) => true,
        ActionView::Respond(ResponseView::Render(PageView::Index(c))) => c.is_authenticated,
        ActionView::Respond(ResponseView::Render(PageView::Chart(_)))
        | ActionView::Respond(ResponseView::Render(PageView::Account(_)))
        | ActionView::Respond(ResponseView::Render(PageView::WalletTransactions))
        | ActionView::Respond(ResponseView::Render(PageView::WalletDashboard)) => true,
        ActionView::Respond(ResponseView::Redirect(_)) => true,
        _ => false,
    }
}

/// The user id an action works on, for the actions that take one.
pub open spec fn action_user(a: ActionView) -> Option<i32> {
    match a {
        ActionView::FindNickname(u) | ActionView::FindEmail(u) | ActionView::LoadTransactions(u)
        | ActionView::SummarizeTransactions(u) | ActionView::AddTransaction(u)
        | ActionView::RemoveTransactions(u) => Some(u),
        _ => None,
    }
}

/// A page request starts in a state of its invariant.
pub proof fn lemma_page_start_inv(kind: PageKind)
    ensures
        page_inv(page_start(kind).0),
{
}

/// Every step of a page request keeps its invariant.
pub proof fn lemma_page_step_inv(s: PageFlowView, e: EventView)
    requires
        page_inv(s),
        page_expects(s, e),
    ensures
        page_inv(page_next(s, e).0),
{
}

/// A page request touches a user's data, or answers with a page for a
/// logged-in user, only once the store confirmed that the session's user
/// exists (in this step, or in an earlier one), and only for that user.
pub proof fn lemma_page_protected(s: PageFlowView, e: EventView)
    requires
        page_inv(s),
        page_expects(s, e),
        is_protected(page_next(s, e).1),
    ensures
        page_next(s, e).0.user matches Some(u) && {
            &&& s.user is None ==> s.state == PageStateView::Authenticating(Auth::CheckingUser(u))
                && e == EventView::Found(true)
            &&& action_user(page_next(s, e).1) matches Some(v) ==> v == u
        },
{
}

/// How many outside steps a page request can still take before it answers.
pub open spec fn page_rank(s: PageFlowView) -> nat {
    match s.state {
        PageStateView::Authenticating(Auth::ReadingCookie) => 5,
        PageStateView::Authenticating(Auth::FindingSession) => 4,
        PageStateView::Authenticating(Auth::CheckingUser(_)) => 3,
        PageStateView::FetchingNickname(_) => 2,
        PageStateView::FetchingEmail { .. } => 1,
        PageStateView::Working => 1,
        PageStateView::Finished => 0,
    }
}

/// A page request answers exactly when it finishes, and every step brings it
/// closer to the answer.
pub proof fn lemma_page_answers(s: PageFlowView, e: EventView)
    requires
        page_expects(s, e),
    ensures
        (page_next(s, e).1 is Respond) == (page_next(s, e).0.state is Finished),
        page_rank(page_next(s, e).0) < page_rank(s),
{
}

/// A page request asks for the session of exactly the token its cookie
/// holds, and then checks exactly the user that session names.
pub proof fn lemma_page_reads_cookie_session(kind: PageKind, token: Seq<char>, user_id: i64)
    ensures
        ({
            let (s1, a1) = page_next(page_start(kind).0, EventView::Cookie(Some(token)));
            &&& a1 == ActionView::FindSessionUser(token)
            &&& page_next(s1, EventView::SessionUser(Ok(user_id))).1 == ActionView::CheckUser(
                user_id as i32,
            )
        }),
{
}

/// The session login opens is the one page requests find: the cookie login
/// sets holds the token of the session row it stored, and a page request
/// reading that cookie asks for the session with that same token.
pub proof fn lemma_login_session_found_by_pages(
    ls: LoginFlowView,
    le: EventView,
    ls2: LoginFlowView,
    la: ActionView,
    ls3: LoginFlowView,
    la3: ActionView,
    kind: PageKind,
)
    requires
        login_step(ls, le, ls2, la),
        la is CreateSession,
        login_step(ls2, EventView::Done, ls3, la3),
    ensures
        la3 == ActionView::SetSessionCookie(la->CreateSession_0.token),
        page_next(page_start(kind).0, EventView::Cookie(Some(la->CreateSession_0.token))).1
            == ActionView::FindSessionUser(la->CreateSession_0.token),
{
}

fn render_index(name: &str, is_authenticated: bool) -> (a: Action)
    ensures
        a@ == render(PageView::Index(IndexContextView { name: name@, is_authenticated })),
{
    Action::Respond(index_page(name, is_authenticated))
}

impl PageFlow {
    /// Starts a request for a page of this kind; returns the flow and its first action.
    pub fn new(kind: PageKind) -> (r: (PageFlow, Action))
        ensures
            (r.0@, r.1@) == page_start(kind),
    {
        (
            PageFlow { kind, state: PageState::Authenticating(Auth::ReadingCookie), user: Ghost(None) },
            Action::ReadSessionCookie,
        )
    }

    /// Whether `e` answers the pending action.
    pub fn expects(&self, e: &Event) -> (r: bool)
        ensures
            r == page_expects(self@, e@),
    {
        match &self.state {
            PageState::Authenticating(g) => auth_expects_event(*g, e),
            PageState::FetchingNickname(_) => matches!(e, Event::Text(_)),
            PageState::FetchingEmail { .. } => matches!(e, Event::Text(_)),
            PageState::Working => matches!(e, Event::Done),
            PageState::Finished => false,
        }
    }

    fn no_session(&self) -> (a: Action)
        ensures
            a@ == render(PageView::Index(IndexContextView { name: no_session_text(self.kind), is_authenticated: false })),
    {
        match self.kind {
            PageKind::WalletTransactions | PageKind::WalletDashboard | PageKind::AddTransaction
            | PageKind::RemoveTransactions => render_index("TO DO - wallet - login Page", false),
            PageKind::Account => render_index("TO DO - home - you are not logged in", false),
            _ => render_index("TO DO - home - login Page", false),
        }
    }

    fn not_a_user(&self) -> (a: Action)
        ensures
            a@ == render(PageView::Index(IndexContextView { name: not_a_user_text(self.kind), is_authenticated: false })),
    {
        match self.kind {
            PageKind::WalletTransactions | PageKind::WalletDashboard | PageKind::AddTransaction
            | PageKind::RemoveTransactions => render_index("TO DO - wallet - you are not logged in", false),
            _ => render_index("TO DO - home - you are not logged in", false),
        }
    }

    fn logged_in(&mut self, u: i32) -> (a: Action)
        ensures
            (final(self)@, a@) == page_logged_in(old(self)@, u),
    {
        self.user = Ghost(Some(u));
        self.state = PageState::Working;
        match self.kind {
            PageKind::Index => {
                self.state = PageState::Finished;
                render_index("TO DO - home - you are logged in", true)
            },
            PageKind::Chart => {
                self.state = PageState::Finished;
                Action::Respond(
                    Response::Render(Page::Chart(TemplateContextIndex::new("".to_owned(), true))),
                )
            },
            PageKind::Account => {
                self.state = PageState::FetchingNickname(u);
                Action::FindNickname(u)
            },
            PageKind::WalletTransactions => Action::LoadTransactions(u),
            PageKind::WalletDashboard => Action::SummarizeTransactions(u),
            PageKind::AddTransaction => Action::AddTransaction(u),
            PageKind::RemoveTransactions => Action::RemoveTransactions(u),
        }
    }

    /// Takes the outcome of the pending action; returns the next action.
    pub fn step(&mut self, e: Event) -> (a: Action)
        requires
            page_expects(old(self)@, e@),
        ensures
            (final(self)@, a@) == page_next(old(self)@, e@),
    {
        let mut state = PageState::Finished;
        std::mem::swap(&mut state, &mut self.state);
        match state {
            PageState::Authenticating(g) => match auth_step(g, e) {
                AuthStep::Ask(g2, act) => {
                    self.state = PageState::Authenticating(g2);
                    act
                },
                AuthStep::NoSession => self.no_session(),
                AuthStep::NotAUser => self.not_a_user(),
                AuthStep::LoggedIn(u) => self.logged_in(u),
            },
            PageState::FetchingNickname(u) => match e {
                Event::Text(nickname) => {
                    self.state = PageState::FetchingEmail { nickname };
                    Action::FindEmail(u)
                },
                _ => vstd::pervasive::unreached(),
            },
            PageState::FetchingEmail { nickname } => match e {
                Event::Text(email) => Action::Respond(
                    Response::Render(
                        Page::Account(
                            TemplateContextAccount::new(
                                nickname,
                                email,
                                "username".to_owned(),
                                AccountErrors::none(),
                            ),
                        ),
                    ),
                ),
                _ => vstd::pervasive::unreached(),
            },
            PageState::Working => match self.kind {
                PageKind::WalletTransactions => Action::Respond(Response::Render(Page::WalletTransactions)),
                PageKind::WalletDashboard => Action::Respond(Response::Render(Page::WalletDashboard)),
                _ => Action::Respond(Response::Redirect("/wallet_transactions".to_owned())),
            },
            PageState::Finished => vstd::pervasive::unreached(),
        }
    }
}

/// Where a logout stands.
pub enum LogoutFlowState {
    LoggingOut(Logout),
    Finished,
}

/// The `GET /logout` handler: delete the session of the cookie, remove the
/// cookie, and redirect home with a success message.
pub struct LogoutFlow {
    state: LogoutFlowState,
}

pub enum LogoutFlowView {
    LoggingOut(Logout),
    Finished,
}

impl View for LogoutFlow {
    type V = LogoutFlowView;

    closed spec fn view(&self) -> LogoutFlowView {
        match self.state {
            LogoutFlowState::LoggingOut(l) => LogoutFlowView::LoggingOut(l),
            LogoutFlowState::Finished => LogoutFlowView::Finished,
        }
    }
}

pub open spec fn logged_out_response() -> ActionView {
    ActionView::Respond(ResponseView::FlashSuccess("/"@, "Successfully logged out."@))
}

pub open spec fn logout_flow_expects(s: LogoutFlowView, e: EventView) -> bool {
    match s {
        LogoutFlowView::LoggingOut(l) => logout_expects(l, e),
        LogoutFlowView::Finished => false,
    }
}

pub open spec fn logout_flow_next(s: LogoutFlowView, e: EventView) -> (LogoutFlowView, ActionView) {
    match s {
        LogoutFlowView::LoggingOut(l) => match logout_next(l, e) {
            LogoutStepView::Ask(l2, act) => (LogoutFlowView::LoggingOut(l2), act),
            LogoutStepView::Finished => (LogoutFlowView::Finished, logged_out_response()),
        },
        LogoutFlowView::Finished => (s, ActionView::ReadSessionCookie),
    }
}

/// How many outside steps a logout can still take before it answers.
pub open spec fn logout_rank(s: LogoutFlowView) -> nat {
    match s {
        LogoutFlowView::LoggingOut(Logout::ReadingCookie) => 3,
        LogoutFlowView::LoggingOut(Logout::RemovingSession) => 2,
        LogoutFlowView::LoggingOut(Logout::RemovingCookie) => 1,
        LogoutFlowView::Finished => 0,
    }
}

/// A logout answers exactly when it finishes, and every step brings it
/// closer to the answer; the answer is always the redirect home with the
/// success message.
pub proof fn lemma_logout_answers(s: LogoutFlowView, e: EventView)
    requires
        logout_flow_expects(s, e),
    ensures
        (logout_flow_next(s, e).1 is Respond) == (logout_flow_next(s, e).0 is Finished),
        logout_flow_next(s, e).1 is Respond ==> logout_flow_next(s, e).1 == logged_out_response(),
        logout_rank(logout_flow_next(s, e).0) < logout_rank(s),
{
}

impl LogoutFlow {
    /// Starts a logout; returns the flow and its first action.
    pub fn new() -> (r: (LogoutFlow, Action))
        ensures
            r.0@ == LogoutFlowView::LoggingOut(Logout::ReadingCookie),
            r.1@ == ActionView::ReadSessionCookie,
    {
        (LogoutFlow { state: LogoutFlowState::LoggingOut(Logout::ReadingCookie) }, Action::ReadSessionCookie)
    }

    /// Whether `e` answers the pending action.
    pub fn expects(&self, e: &Event) -> (r: bool)
        ensures
            r == logout_flow_expects(self@, e@),
    {
        match self.state {
            LogoutFlowState::LoggingOut(l) => logout_expects_event(l, e),
            LogoutFlowState::Finished => false,
        }
    }

    /// Takes the outcome of the pending action; returns the next action.
    pub fn step(&mut self, e: Event) -> (a: Action)
        requires
            logout_flow_expects(old(self)@, e@),
        ensures
            (final(self)@, a@) == logout_flow_next(old(self)@, e@),
    {
        match self.state {
            LogoutFlowState::LoggingOut(l) => match logout_step(l, e) {
                LogoutStep::Ask(l2, act) => {
                    self.state = LogoutFlowState::LoggingOut(l2);
                    act
                },
                LogoutStep::Finished => {
                    self.state = LogoutFlowState::Finished;
                    Action::Respond(
                        Response::FlashSuccess("/".to_owned(), "Successfully logged out.".to_owned()),
                    )
                },
            },
            LogoutFlowState::Finished => vstd::pervasive::unreached(),
        }
    }
}

} // verus!

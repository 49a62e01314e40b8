use vstd::prelude::*;

verus! {

/// Context of the `login` template.
#[derive(Debug)]
pub struct TemplateContextLogin {
    pub name: String,
    pub error_username: bool,
    pub error_password: bool,
}

/// Context of the `register` template.
#[derive(Debug)]
pub struct TemplateContextRegister {
    pub name: String,
    pub error_username: bool,
    pub error_email: bool,
    pub error_password: bool,
    pub error_confirm_password: bool,
}

/// Context of the `index` and `chart` templates.
#[derive(Debug)]
pub struct TemplateContextIndex {
    pub name: String,
    pub is_authenticated: bool,
}

/// The error flags of the account page's four forms.
#[derive(PartialEq, Eq, Structural, Clone, Copy, Debug)]
pub struct AccountErrors {
    pub error_username: bool,
    pub error_username_password: bool,
    pub error_email: bool,
    pub error_email_password: bool,
    pub error_current_password: bool,
    pub error_remove_account_password: bool,
    pub error_remove_account_confirm_password: bool,
    pub error_password: bool,
    pub error_confirm_password: bool,
}

impl AccountErrors {
    pub open spec fn any(self) -> bool {
        self.error_current_password || self.error_username || self.error_username_password
            || self.error_email || self.error_email_password || self.error_password
            || self.error_confirm_password || self.error_remove_account_password
            || self.error_remove_account_confirm_password
    }

    /// No field in error.
    pub fn none() -> (e: AccountErrors)
        ensures
            !e.any(),
            e == AccountErrors::spec_none(),
    {
        AccountErrors {
            error_username: false,
            error_username_password: false,
            error_email: false,
            error_email_password: false,
            error_current_password: false,
            error_remove_account_password: false,
            error_remove_account_confirm_password: false,
            error_password: false,
            error_confirm_password: false,
        }
    }

    pub open spec fn spec_none() -> AccountErrors {
        AccountErrors {
            error_username: false,
            error_username_password: false,
            error_email: false,
            error_email_password: false,
            error_current_password: false,
            error_remove_account_password: false,
            error_remove_account_confirm_password: false,
            error_password: false,
            error_confirm_password: false,
        }
    }

    /// Whether any field is in error.
    pub fn has_error(&self) -> (r: bool)
        ensures
            r == self.any(),
    {
        self.error_current_password || self.error_username || self.error_username_password
            || self.error_email || self.error_email_password || self.error_password
            || self.error_confirm_password || self.error_remove_account_password
            || self.error_remove_account_confirm_password
    }
}

/// Context of the `account` template.
#[derive(Debug)]
pub struct TemplateContextAccount {
    pub username_account: String,
    pub email_account: String,
    pub tab_selected: String,
    pub error_username: bool,
    pub error_username_password: bool,
    pub error_email: bool,
    pub error_email_password: bool,
    pub error_current_password: bool,
    pub error_remove_account_password: bool,
    pub error_remove_account_confirm_password: bool,
    pub error_password: bool,
    pub error_confirm_password: bool,
    pub is_authenticated: bool,
}

pub struct LoginContextView {
    pub name: Seq<char>,
    pub error_username: bool,
    pub error_password: bool,
}

pub struct RegisterContextView {
    pub name: Seq<char>,
    pub error_username: bool,
    pub error_email: bool,
    pub error_password: bool,
    pub error_confirm_password: bool,
}

pub struct IndexContextView {
    pub name: Seq<char>,
    pub is_authenticated: bool,
}

pub struct AccountContextView {
    pub username_account: Seq<char>,
    pub email_account: Seq<char>,
    pub tab_selected: Seq<char>,
    pub errors: AccountErrors,
    pub is_authenticated: bool,
}

impl View for TemplateContextLogin {
    type V = LoginContextView;

    open spec fn view(&self) -> LoginContextView {
        LoginContextView {
            name: self.name@,
            error_username: self.error_username,
            error_password: self.error_password,
        }
    }
}

impl View for TemplateContextRegister {
    type V = RegisterContextView;

    open spec fn view(&self) -> RegisterContextView {
        RegisterContextView {
            name: self.name@,
            error_username: self.error_username,
            error_email: self.error_email,
            error_password: self.error_password,
            error_confirm_password: self.error_confirm_password,
        }
    }
}

impl View for TemplateContextIndex {
    type V = IndexContextView;

    open spec fn view(&self) -> IndexContextView {
        IndexContextView { name: self.name@, is_authenticated: self.is_authenticated }
    }
}

impl View for TemplateContextAccount {
    type V = AccountContextView;

    open spec fn view(&self) -> AccountContextView {
        AccountContextView {
            username_account: self.username_account@,
            email_account: self.email_account@,
            tab_selected: self.tab_selected@,
            errors: AccountErrors {
                error_username: self.error_username,
                error_username_password: self.error_username_password,
                error_email: self.error_email,
                error_email_password: self.error_email_password,
                error_current_password: self.error_current_password,
                error_remove_account_password: self.error_remove_account_password,
                error_remove_account_confirm_password: self.error_remove_account_confirm_password,
                error_password: self.error_password,
                error_confirm_password: self.error_confirm_password,
            },
            is_authenticated: self.is_authenticated,
        }
    }
}

impl TemplateContextLogin {
    pub fn new(name: String, error_username: bool, error_password: bool) -> (c: Self)
        ensures
            c@ == (LoginContextView { name: name@, error_username, error_password }),
    {
        TemplateContextLogin { name, error_username, error_password }
    }
}

impl TemplateContextRegister {
    pub fn new(
        name: String,
        error_username: bool,
        error_email: bool,
        error_password: bool,
        error_confirm_password: bool,
    ) -> (c: Self)
        ensures
            c@ == (RegisterContextView {
                name: name@,
                error_username,
                error_email,
                error_password,
                error_confirm_password,
            }),
    {
        TemplateContextRegister {
            name,
            error_username,
            error_email,
            error_password,
            error_confirm_password,
        }
    }
}

impl TemplateContextIndex {
    pub fn new(name: String, is_authenticated: bool) -> (c: Self)
        ensures
            c@ == (IndexContextView { name: name@, is_authenticated }),
    {
        TemplateContextIndex { name, is_authenticated }
    }
}

impl TemplateContextAccount {
    pub fn new(
        username_account: String,
        email_account: String,
        tab_selected: String,
        errors: AccountErrors,
    ) -> (c: Self)
        ensures
            c@ == (AccountContextView {
                username_account: username_account@,
                email_account: email_account@,
                tab_selected: tab_selected@,
                errors,
                is_authenticated: true,
            }),
    {
        TemplateContextAccount {
            username_account,
            email_account,
            tab_selected,
            error_username: errors.error_username,
            error_username_password: errors.error_username_password,
            error_email: errors.error_email,
            error_email_password: errors.error_email_password,
            error_current_password: errors.error_current_password,
            error_remove_account_password: errors.error_remove_account_password,
            error_remove_account_confirm_password: errors.error_remove_account_confirm_password,
            error_password: errors.error_password,
            error_confirm_password: errors.error_confirm_password,
            is_authenticated: true,
        }
    }
}

/// A rendered page: the template and its context.
#[derive(Debug)]
pub enum Page {
    /// `login`
    Login(TemplateContextLogin),
    /// `register`
    Register(TemplateContextRegister),
    /// `index`
    Index(TemplateContextIndex),
    /// `chart`
    Chart(TemplateContextIndex),
    /// `account`
    Account(TemplateContextAccount),
    /// `index`, rendered with a registration context (a failed password hash
    /// on the account page)
    IndexWithRegisterContext(TemplateContextRegister),
    /// `wallet_transactions`, empty name, authenticated, with the user's
    /// transactions newest first
    WalletTransactions,
    /// `wallet_dashboard`, empty name, authenticated, with the summary of the
    /// user's transactions
    WalletDashboard,
}

/// What a request handler answers.
#[derive(Debug)]
pub enum Response {
    /// A redirect to the path.
    Redirect(String),
    /// A rendered page.
    Render(Page),
    /// A redirect to the path with a success flash message.
    FlashSuccess(String, String),
}

pub enum PageView {
    Login(LoginContextView),
    Register(RegisterContextView),
    Index(IndexContextView),
    Chart(IndexContextView),
    Account(AccountContextView),
    IndexWithRegisterContext(RegisterContextView),
    WalletTransactions,
    WalletDashboard,
}

pub enum ResponseView {
    Redirect(Seq<char>),
    Render(PageView),
    FlashSuccess(Seq<char>, Seq<char>),
}

impl View for Page {
    type V = PageView;

    open spec fn view(&self) -> PageView {
        match self {
            Page::Login(c) => PageView::Login(c@),
            Page::Register(c) => PageView::Register(c@),
            Page::Index(c) => PageView::Index(c@),
            Page::Chart(c) => PageView::Chart(c@),
            Page::Account(c) => PageView::Account(c@),
            Page::IndexWithRegisterContext(c) => PageView::IndexWithRegisterContext(c@),
            Page::WalletTransactions => PageView::WalletTransactions,
            Page::WalletDashboard => PageView::WalletDashboard,
        }
    }
}

impl View for Response {
    type V = ResponseView;

    open spec fn view(&self) -> ResponseView {
        match self {
            Response::Redirect(p) => ResponseView::Redirect(p@),
            Response::Render(p) => ResponseView::Render(p@),
            Response::FlashSuccess(p, m) => ResponseView::FlashSuccess(p@, m@),
        }
    }
}

/// The index page with the given text.
pub fn index_page(name: &str, is_authenticated: bool) -> (r: Response)
    ensures
        r@ == ResponseView::Render(PageView::Index(IndexContextView { name: name@, is_authenticated })),
{
    Response::Render(Page::Index(TemplateContextIndex::new(name.to_owned(), is_authenticated)))
}

/// A redirect to `path`.
pub fn redirect(path: &str) -> (r: Response)
    ensures
        r@ == ResponseView::Redirect(path@),
{
    Response::Redirect(path.to_owned())
}

/// Login page, as first shown.
pub fn login_get() -> (r: Response)
    ensures
        r@ == ResponseView::Render(
            PageView::Login(LoginContextView { name: ""@, error_username: false, error_password: false }),
        ),
{
    Response::Render(Page::Login(TemplateContextLogin::new("".to_owned(), false, false)))
}

/// Registration page, as first shown.
pub fn register_get() -> (r: Response)
    ensures
        r@ == ResponseView::Render(
            PageView::Register(
                RegisterContextView {
                    name: ""@,
                    error_username: false,
                    error_email: false,
                    error_password: false,
                    error_confirm_password: false,
                },
            ),
        ),
{
    Response::Render(
        Page::Register(TemplateContextRegister::new("".to_owned(), false, false, false, false)),
    )
}

} // verus!

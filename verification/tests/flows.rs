use hello_rocket::account::{
    AccountChange, AccountFlow, UserFormAccountEmail, UserFormAccountPassword,
    UserFormAccountUsername, UserFormRemoveAccount,
};
use hello_rocket::login::{LoginFlow, UserLoginForm};
use hello_rocket::lookup::{LookupError, UserKey};
use hello_rocket::page_flow::{LogoutFlow, PageFlow, PageKind};
use hello_rocket::pages::{login_get, register_get, Page, Response};
use hello_rocket::password::{check_password, current_password_error, hash_password, PasswordCheck};
use hello_rocket::protocol::{Action, Event};
use hello_rocket::register::{RegisterFlow, UserForm};

// "password" hashed by an outside bcrypt tool at cost 4.
const KNOWN_HASH: &str = "$2a$04$UuTkLRZZ6QofpDOlMz32MuuxEHA43WOemOYHPz6.SjsVsyO1tDU96";

fn s(x: &str) -> String {
    x.to_string()
}

fn login_form(username: &str, password: &str) -> UserLoginForm {
    UserLoginForm { username: s(username), password: s(password) }
}

fn expect_login_page(a: Action, name: &str, eu: bool, ep: bool) {
    match a {
        Action::Respond(Response::Render(Page::Login(c))) => {
            assert_eq!(c.name, name);
            assert_eq!((c.error_username, c.error_password), (eu, ep));
        }
        other => panic!("unexpected {:?}", other),
    }
}

fn expect_redirect(a: Action, path: &str) {
    match a {
        Action::Respond(Response::Redirect(p)) => assert_eq!(p, path),
        other => panic!("unexpected {:?}", other),
    }
}

fn expect_index(a: Action, name: &str, auth: bool) {
    match a {
        Action::Respond(Response::Render(Page::Index(c))) => {
            assert_eq!(c.name, name);
            assert_eq!(c.is_authenticated, auth);
        }
        other => panic!("unexpected {:?}", other),
    }
}

#[test]
fn bcrypt_checks_a_known_hash() {
    assert_eq!(check_password(&s("password"), &s(KNOWN_HASH)), PasswordCheck::Matches);
    assert_eq!(check_password(&s("Password"), &s(KNOWN_HASH)), PasswordCheck::DoesNotMatch);
    assert_eq!(check_password(&s("password"), &s("not a hash")), PasswordCheck::VerifyFailed);
}

#[test]
fn current_password_flag() {
    assert!(!current_password_error(&Ok(s(KNOWN_HASH)), &s("password")));
    assert!(current_password_error(&Ok(s(KNOWN_HASH)), &s("nope")));
    assert!(current_password_error(&Err(LookupError::NoUserFound), &s("password")));
}

#[test]
fn hashed_password_verifies() {
    let h = hash_password(&s("hunter22")).unwrap();
    assert_eq!(h.len(), 60);
    assert_eq!(check_password(&s("hunter22"), &h), PasswordCheck::Matches);
    assert_eq!(check_password(&s("hunter23"), &h), PasswordCheck::DoesNotMatch);
}

#[test]
fn first_pages() {
    match login_get() {
        Response::Render(Page::Login(c)) => {
            assert_eq!(c.name, "");
            assert!(!c.error_username && !c.error_password);
        }
        other => panic!("unexpected {:?}", other),
    }
    match register_get() {
        Response::Render(Page::Register(c)) => {
            assert_eq!(c.name, "");
            assert!(!c.error_username && !c.error_email && !c.error_password && !c.error_confirm_password);
        }
        other => panic!("unexpected {:?}", other),
    }
}

#[test]
fn login_with_an_empty_field() {
    let (_, a) = LoginFlow::new(login_form("", "pw"));
    expect_login_page(a, "Error - empty space", true, false);
    let (_, a) = LoginFlow::new(login_form("bob", ""));
    expect_login_page(a, "Error - empty space", false, true);
    let (_, a) = LoginFlow::new(login_form("", ""));
    expect_login_page(a, "Error - empty space", true, true);
}

#[test]
fn login_with_an_unknown_name() {
    let (mut flow, a) = LoginFlow::new(login_form("bob", "password"));
    assert!(matches!(a, Action::FindPasswordHash(UserKey::Nickname(ref n)) if n == "bob"));
    let a = flow.step(Event::PasswordHash(Err(LookupError::NoUserFound)));
    expect_login_page(a, "Error login - no user found", true, true);
}

#[test]
fn login_with_a_wrong_password() {
    let (mut flow, _) = LoginFlow::new(login_form("bob@x.org", "wrong"));
    let a = flow.step(Event::PasswordHash(Ok(s(KNOWN_HASH))));
    expect_login_page(a, "Error login - password incorrect", false, true);
}

#[test]
fn login_with_a_broken_stored_hash() {
    let (mut flow, _) = LoginFlow::new(login_form("bob", "password"));
    let a = flow.step(Event::PasswordHash(Ok(s("garbage"))));
    expect_login_page(a, "Error login - verifying password incorrect", false, true);
}

#[test]
fn login_opens_a_session() {
    let (mut flow, a) = LoginFlow::new(login_form("bob@x.org", "password"));
    assert!(matches!(a, Action::FindPasswordHash(UserKey::Email(ref e)) if e == "bob@x.org"));
    assert!(flow.expects(&Event::PasswordHash(Ok(s(KNOWN_HASH)))));
    assert!(!flow.expects(&Event::Done));
    let a = flow.step(Event::PasswordHash(Ok(s(KNOWN_HASH))));
    assert!(matches!(a, Action::FindUserId(UserKey::Email(ref e)) if e == "bob@x.org"));
    let a = flow.step(Event::UserId(Ok(7)));
    let token = match a {
        Action::CreateSession(sess) => {
            assert_eq!(sess.user_id, 7);
            assert_eq!(sess.token.len(), 128);
            sess.token
        }
        other => panic!("unexpected {:?}", other),
    };
    match flow.step(Event::Done) {
        Action::SetSessionCookie(t) => assert_eq!(t, token),
        other => panic!("unexpected {:?}", other),
    }
    expect_redirect(flow.step(Event::Done), "/");
    assert!(!flow.expects(&Event::Done));
}

#[test]
fn login_without_a_user_id_goes_home() {
    let (mut flow, _) = LoginFlow::new(login_form("bob", "password"));
    flow.step(Event::PasswordHash(Ok(s(KNOWN_HASH))));
    expect_redirect(flow.step(Event::UserId(Err(LookupError::NoUserFound))), "/");
}

fn reg_form(username: &str, email: &str, password: &str, confirm: &str) -> UserForm {
    UserForm { username: s(username), email: s(email), password: s(password), confirm_password: s(confirm) }
}

fn expect_register_page(a: Action, name: &str, flags: (bool, bool, bool, bool)) {
    match a {
        Action::Respond(Response::Render(Page::Register(c))) => {
            assert_eq!(c.name, name);
            assert_eq!(
                (c.error_username, c.error_email, c.error_password, c.error_confirm_password),
                flags
            );
        }
        other => panic!("unexpected {:?}", other),
    }
}

#[test]
fn register_with_every_field_wrong() {
    let (_, a) = RegisterFlow::new(reg_form("bob", "", "abc", "abd"));
    expect_register_page(a, "Registration faild - error", (true, true, true, true));
}

#[test]
fn register_with_taken_nickname_and_email() {
    let (mut flow, a) = RegisterFlow::new(reg_form("bobby", "b@x", "secret", "secret"));
    assert!(matches!(a, Action::IsNicknameTaken(ref n) if n == "bobby"));
    let a = flow.step(Event::Found(true));
    assert!(matches!(a, Action::IsEmailTaken(ref e) if e == "b@x"));
    let a = flow.step(Event::Found(true));
    expect_register_page(a, "Registration faild - error", (true, true, false, false));
}

#[test]
fn register_with_short_nickname_still_checks_email() {
    let (mut flow, a) = RegisterFlow::new(reg_form("bo", "b@x", "secret", "secret"));
    assert!(matches!(a, Action::IsEmailTaken(ref e) if e == "b@x"));
    let a = flow.step(Event::Found(false));
    expect_register_page(a, "Registration faild - error", (true, false, false, false));
}

#[test]
fn register_stores_the_user_and_login_accepts_it() {
    let (mut flow, _) = RegisterFlow::new(reg_form("bobby", "b@x", "secret", "secret"));
    flow.step(Event::Found(false));
    let stored = match flow.step(Event::Found(false)) {
        Action::CreateUser(u) => {
            assert_eq!(u.nickname, "bobby");
            assert_eq!(u.email, "b@x");
            assert_eq!(check_password(&s("secret"), &u.password), PasswordCheck::Matches);
            u.password
        }
        other => panic!("unexpected {:?}", other),
    };
    expect_redirect(flow.step(Event::Done), "/login");
    // logging in with what was registered gets past the password check
    let (mut login, _) = LoginFlow::new(login_form("bobby", "secret"));
    let a = login.step(Event::PasswordHash(Ok(stored)));
    assert!(matches!(a, Action::FindUserId(UserKey::Nickname(ref n)) if n == "bobby"));
}

fn logged_in(flow: &mut AccountFlow, first: Action, user_id: i32) -> Action {
    assert!(matches!(first, Action::ReadSessionCookie));
    let a = flow.step(Event::Cookie(Some(s("TOKEN"))));
    assert!(matches!(a, Action::FindSessionUser(ref t) if t == "TOKEN"));
    let a = flow.step(Event::SessionUser(Ok(user_id as i64)));
    assert!(matches!(a, Action::CheckUser(u) if u == user_id));
    flow.step(Event::Found(true))
}

fn expect_logout_to_login(flow: &mut AccountFlow, a: Action) {
    assert!(matches!(a, Action::ReadSessionCookie));
    let a = flow.step(Event::Cookie(Some(s("TOKEN"))));
    assert!(matches!(a, Action::RemoveSession(ref t) if t == "TOKEN"));
    let a = flow.step(Event::Done);
    assert!(matches!(a, Action::RemoveSessionCookie));
    expect_redirect(flow.step(Event::Done), "/login");
}

#[test]
fn account_change_without_a_session() {
    let change = AccountChange::Username(UserFormAccountUsername {
        current_password: s("password"),
        new_username: s("robert"),
    });
    let (mut flow, a) = AccountFlow::new(change);
    assert!(matches!(a, Action::IsNicknameTaken(ref n) if n == "robert"));
    assert!(matches!(flow.step(Event::Found(false)), Action::ReadSessionCookie));
    expect_index(flow.step(Event::Cookie(None)), "TO DO - account - login Page", false);
}

#[test]
fn account_change_for_a_missing_user() {
    let change = AccountChange::Remove(UserFormRemoveAccount {
        current_password: s("password"),
        confirm_password: s("password"),
    });
    let (mut flow, a) = AccountFlow::new(change);
    assert!(matches!(a, Action::ReadSessionCookie));
    flow.step(Event::Cookie(Some(s("T"))));
    flow.step(Event::SessionUser(Ok(5)));
    expect_index(flow.step(Event::Found(false)), "TO DO - account - you are not logged in", false);
    let (mut flow2, _) = AccountFlow::new(AccountChange::Remove(UserFormRemoveAccount {
        current_password: s("password"),
        confirm_password: s("password"),
    }));
    flow2.step(Event::Cookie(Some(s("T"))));
    expect_index(
        flow2.step(Event::SessionUser(Err(LookupError::NoTokenFound))),
        "TO DO - account - login Page",
        false,
    );
}

#[test]
fn nickname_change_with_wrong_password_shows_the_page() {
    let change = AccountChange::Username(UserFormAccountUsername {
        current_password: s("wrong"),
        new_username: s("robert"),
    });
    let (mut flow, _) = AccountFlow::new(change);
    let a = flow.step(Event::Found(false));
    let a = logged_in(&mut flow, a, 4);
    assert!(matches!(a, Action::FindPasswordHashById(4)));
    let a = flow.step(Event::PasswordHash(Ok(s(KNOWN_HASH))));
    assert!(matches!(a, Action::FindNickname(4)));
    let a = flow.step(Event::Text(s("bob")));
    assert!(matches!(a, Action::FindEmail(4)));
    match flow.step(Event::Text(s("bob@x"))) {
        Action::Respond(Response::Render(Page::Account(c))) => {
            assert_eq!(c.username_account, "bob");
            assert_eq!(c.email_account, "bob@x");
            assert_eq!(c.tab_selected, "username");
            assert!(c.error_username_password);
            assert!(!c.error_username && !c.error_email && !c.error_password);
            assert!(c.is_authenticated);
        }
        other => panic!("unexpected {:?}", other),
    }
}

#[test]
fn nickname_change_is_stored_then_logs_out() {
    let change = AccountChange::Username(UserFormAccountUsername {
        current_password: s("password"),
        new_username: s("robert"),
    });
    let (mut flow, _) = AccountFlow::new(change);
    let a = flow.step(Event::Found(false));
    let a = logged_in(&mut flow, a, 4);
    assert!(matches!(a, Action::FindPasswordHashById(4)));
    let a = flow.step(Event::PasswordHash(Ok(s(KNOWN_HASH))));
    assert!(matches!(a, Action::FindNickname(4)));
    match flow.step(Event::Text(s("bob"))) {
        Action::UpdateNickname(old, new) => {
            assert_eq!(old, "bob");
            assert_eq!(new, "robert");
        }
        other => panic!("unexpected {:?}", other),
    }
    let a = flow.step(Event::Done);
    expect_logout_to_login(&mut flow, a);
}

#[test]
fn email_change_with_empty_email_skips_the_password_check_of_nothing() {
    let change = AccountChange::Email(UserFormAccountEmail { current_password: s(""), new_email: s("") });
    let (mut flow, a) = AccountFlow::new(change);
    let a = logged_in(&mut flow, a, 2);
    // the current password is empty: no lookup of the hash, straight to the page
    assert!(matches!(a, Action::FindNickname(2)));
    flow.step(Event::Text(s("bob")));
    match flow.step(Event::Text(s("b@x"))) {
        Action::Respond(Response::Render(Page::Account(c))) => {
            assert_eq!(c.tab_selected, "email");
            assert!(c.error_email && c.error_email_password);
        }
        other => panic!("unexpected {:?}", other),
    }
}

#[test]
fn email_change_is_stored() {
    let change = AccountChange::Email(UserFormAccountEmail {
        current_password: s("password"),
        new_email: s("new@x"),
    });
    let (mut flow, a) = AccountFlow::new(change);
    assert!(matches!(a, Action::IsEmailTaken(ref e) if e == "new@x"));
    let a = flow.step(Event::Found(false));
    let a = logged_in(&mut flow, a, 2);
    flow_assert_hash_lookup(a, 2);
    flow.step(Event::PasswordHash(Ok(s(KNOWN_HASH))));
    match flow.step(Event::Text(s("bob"))) {
        Action::UpdateEmail(nick, email) => {
            assert_eq!(nick, "bob");
            assert_eq!(email, "new@x");
        }
        other => panic!("unexpected {:?}", other),
    }
}

fn flow_assert_hash_lookup(a: Action, user_id: i32) {
    assert!(matches!(a, Action::FindPasswordHashById(u) if u == user_id));
}

#[test]
fn password_change_stores_a_hash_of_the_new_password() {
    let change = AccountChange::Password(UserFormAccountPassword {
        current_password: s("password"),
        new_password: s("better one"),
        confirm_password: s("better one"),
    });
    let (mut flow, a) = AccountFlow::new(change);
    let a = logged_in(&mut flow, a, 8);
    flow_assert_hash_lookup(a, 8);
    let a = flow.step(Event::PasswordHash(Ok(s(KNOWN_HASH))));
    assert!(matches!(a, Action::FindNickname(8)));
    match flow.step(Event::Text(s("bob"))) {
        Action::UpdatePassword(nick, h) => {
            assert_eq!(nick, "bob");
            assert_eq!(check_password(&s("better one"), &h), PasswordCheck::Matches);
        }
        other => panic!("unexpected {:?}", other),
    }
    let a = flow.step(Event::Done);
    expect_logout_to_login(&mut flow, a);
}

#[test]
fn password_change_with_unconfirmed_password() {
    let change = AccountChange::Password(UserFormAccountPassword {
        current_password: s("password"),
        new_password: s("abc"),
        confirm_password: s("abd"),
    });
    let (mut flow, a) = AccountFlow::new(change);
    let a = logged_in(&mut flow, a, 8);
    flow_assert_hash_lookup(a, 8);
    let a = flow.step(Event::PasswordHash(Ok(s(KNOWN_HASH))));
    assert!(matches!(a, Action::FindNickname(8)));
    flow.step(Event::Text(s("bob")));
    match flow.step(Event::Text(s("b@x"))) {
        Action::Respond(Response::Render(Page::Account(c))) => {
            assert_eq!(c.tab_selected, "password");
            assert!(c.error_password && c.error_confirm_password);
            assert!(!c.error_current_password);
        }
        other => panic!("unexpected {:?}", other),
    }
}

#[test]
fn account_removal_is_stored_then_logs_out() {
    let change = AccountChange::Remove(UserFormRemoveAccount {
        current_password: s("password"),
        confirm_password: s("password"),
    });
    let (mut flow, a) = AccountFlow::new(change);
    let a = logged_in(&mut flow, a, 11);
    flow_assert_hash_lookup(a, 11);
    flow.step(Event::PasswordHash(Ok(s(KNOWN_HASH))));
    match flow.step(Event::Text(s("bob"))) {
        Action::RemoveAccount(nick, id) => {
            assert_eq!(nick, "bob");
            assert_eq!(id, 11);
        }
        other => panic!("unexpected {:?}", other),
    }
    let a = flow.step(Event::Done);
    assert!(matches!(a, Action::ReadSessionCookie));
    // no cookie left: straight to the login page
    expect_redirect(flow.step(Event::Cookie(None)), "/login");
}

#[test]
fn account_removal_with_short_password_is_not_checked() {
    let change = AccountChange::Remove(UserFormRemoveAccount {
        current_password: s("pw"),
        confirm_password: s("pw"),
    });
    let (mut flow, a) = AccountFlow::new(change);
    let a = logged_in(&mut flow, a, 11);
    assert!(matches!(a, Action::FindNickname(11)));
    flow.step(Event::Text(s("bob")));
    match flow.step(Event::Text(s("b@x"))) {
        Action::Respond(Response::Render(Page::Account(c))) => {
            assert_eq!(c.tab_selected, "remove_account");
            assert!(c.error_remove_account_password);
            assert!(!c.error_remove_account_confirm_password);
        }
        other => panic!("unexpected {:?}", other),
    }
}

fn run_page_logged_in(kind: PageKind, user_id: i32) -> (PageFlow, Action) {
    let (mut flow, a) = PageFlow::new(kind);
    assert!(matches!(a, Action::ReadSessionCookie));
    flow.step(Event::Cookie(Some(s("T"))));
    flow.step(Event::SessionUser(Ok(user_id as i64)));
    let a = flow.step(Event::Found(true));
    (flow, a)
}

#[test]
fn index_page_variants() {
    let (_, a) = run_page_logged_in(PageKind::Index, 1);
    expect_index(a, "TO DO - home - you are logged in", true);
    let (mut flow, _) = PageFlow::new(PageKind::Index);
    expect_index(flow.step(Event::Cookie(None)), "TO DO - home - login Page", false);
    let (mut flow, _) = PageFlow::new(PageKind::Index);
    flow.step(Event::Cookie(Some(s("T"))));
    flow.step(Event::SessionUser(Ok(1)));
    expect_index(flow.step(Event::Found(false)), "TO DO - home - you are not logged in", false);
}

#[test]
fn chart_page() {
    let (_, a) = run_page_logged_in(PageKind::Chart, 1);
    match a {
        Action::Respond(Response::Render(Page::Chart(c))) => {
            assert_eq!(c.name, "");
            assert!(c.is_authenticated);
        }
        other => panic!("unexpected {:?}", other),
    }
    let (mut flow, _) = PageFlow::new(PageKind::Chart);
    expect_index(flow.step(Event::Cookie(None)), "TO DO - home - login Page", false);
}

#[test]
fn account_page() {
    let (mut flow, a) = run_page_logged_in(PageKind::Account, 3);
    assert!(matches!(a, Action::FindNickname(3)));
    assert!(matches!(flow.step(Event::Text(s("bob"))), Action::FindEmail(3)));
    match flow.step(Event::Text(s("bob@x"))) {
        Action::Respond(Response::Render(Page::Account(c))) => {
            assert_eq!((c.username_account.as_str(), c.email_account.as_str()), ("bob", "bob@x"));
            assert_eq!(c.tab_selected, "username");
            assert!(!c.error_username && !c.error_current_password && !c.error_remove_account_password);
        }
        other => panic!("unexpected {:?}", other),
    }
    let (mut flow, _) = PageFlow::new(PageKind::Account);
    expect_index(flow.step(Event::Cookie(None)), "TO DO - home - you are not logged in", false);
}

#[test]
fn wallet_pages_and_changes() {
    let (mut flow, a) = run_page_logged_in(PageKind::WalletTransactions, 6);
    assert!(matches!(a, Action::LoadTransactions(6)));
    assert!(matches!(flow.step(Event::Done), Action::Respond(Response::Render(Page::WalletTransactions))));
    let (mut flow, a) = run_page_logged_in(PageKind::WalletDashboard, 6);
    assert!(matches!(a, Action::SummarizeTransactions(6)));
    assert!(matches!(flow.step(Event::Done), Action::Respond(Response::Render(Page::WalletDashboard))));
    let (mut flow, a) = run_page_logged_in(PageKind::AddTransaction, 6);
    assert!(matches!(a, Action::AddTransaction(6)));
    expect_redirect(flow.step(Event::Done), "/wallet_transactions");
    let (mut flow, a) = run_page_logged_in(PageKind::RemoveTransactions, 6);
    assert!(matches!(a, Action::RemoveTransactions(6)));
    expect_redirect(flow.step(Event::Done), "/wallet_transactions");
    let (mut flow, _) = PageFlow::new(PageKind::WalletDashboard);
    expect_index(flow.step(Event::Cookie(None)), "TO DO - wallet - login Page", false);
    let (mut flow, _) = PageFlow::new(PageKind::AddTransaction);
    flow.step(Event::Cookie(Some(s("T"))));
    flow.step(Event::SessionUser(Ok(6)));
    expect_index(flow.step(Event::Found(false)), "TO DO - wallet - you are not logged in", false);
}

#[test]
fn logout_removes_the_session() {
    let (mut flow, a) = LogoutFlow::new();
    assert!(matches!(a, Action::ReadSessionCookie));
    assert!(matches!(flow.step(Event::Cookie(Some(s("T")))), Action::RemoveSession(ref t) if t == "T"));
    assert!(matches!(flow.step(Event::Done), Action::RemoveSessionCookie));
    match flow.step(Event::Done) {
        Action::Respond(Response::FlashSuccess(p, m)) => {
            assert_eq!(p, "/");
            assert_eq!(m, "Successfully logged out.");
        }
        other => panic!("unexpected {:?}", other),
    }
    let (mut flow, _) = LogoutFlow::new();
    assert!(matches!(flow.step(Event::Cookie(None)), Action::Respond(Response::FlashSuccess(_, _))));
}

#[test]
fn registered_user_logs_in_by_email_through_to_home() {
    let (mut flow, _) = RegisterFlow::new(reg_form("carol", "carol@x.org", "secret", "secret"));
    flow.step(Event::Found(false));
    let stored = match flow.step(Event::Found(false)) {
        Action::CreateUser(u) => u.password,
        other => panic!("unexpected {:?}", other),
    };
    let (mut login, a) = LoginFlow::new(login_form("carol@x.org", "secret"));
    assert!(matches!(a, Action::FindPasswordHash(UserKey::Email(ref e)) if e == "carol@x.org"));
    let a = login.step(Event::PasswordHash(Ok(stored)));
    assert!(matches!(a, Action::FindUserId(UserKey::Email(ref e)) if e == "carol@x.org"));
    let token = match login.step(Event::UserId(Ok(12))) {
        Action::CreateSession(sess) => {
            assert_eq!(sess.user_id, 12);
            sess.token
        }
        other => panic!("unexpected {:?}", other),
    };
    assert!(matches!(login.step(Event::Done), Action::SetSessionCookie(ref t) if *t == token));
    expect_redirect(login.step(Event::Done), "/");
}

#[test]
fn taken_new_nickname_is_not_stored() {
    let change = AccountChange::Username(UserFormAccountUsername {
        current_password: s("password"),
        new_username: s("alice"),
    });
    let (mut flow, _) = AccountFlow::new(change);
    let a = flow.step(Event::Found(true));
    let a = logged_in(&mut flow, a, 4);
    flow_assert_hash_lookup(a, 4);
    let a = flow.step(Event::PasswordHash(Ok(s(KNOWN_HASH))));
    assert!(matches!(a, Action::FindNickname(4)));
    flow.step(Event::Text(s("bob")));
    match flow.step(Event::Text(s("bob@x"))) {
        Action::Respond(Response::Render(Page::Account(c))) => {
            assert!(c.error_username);
            assert!(!c.error_username_password);
        }
        other => panic!("unexpected {:?}", other),
    }
}

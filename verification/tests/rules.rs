use hello_rocket::text::utf8_len_at_least;
use hello_rocket::lookup::{
    email_from_rows, nickname_from_rows, password_hash_from_rows, session_user_id_from_rows,
    user_found, user_id_from_rows, user_key, value_taken, LookupError, UserKey,
};
use hello_rocket::models::{User, UserSession};
use hello_rocket::validation::{
    email_format_error, error_login_validate_empty_form, error_register_validate_confirm_password,
    error_register_validate_password, username_format_error,
};

fn s(x: &str) -> String {
    x.to_string()
}

fn user(id: i32, nickname: &str, password: &str, email: &str) -> User {
    User { id, nickname: s(nickname), password: s(password), email: s(email) }
}

#[test]
fn empty_form_field_is_an_error() {
    assert!(error_login_validate_empty_form(s("")));
    assert!(!error_login_validate_empty_form(s("x")));
    assert!(!error_login_validate_empty_form(s(" ")));
}

#[test]
fn password_needs_four_bytes() {
    assert!(error_register_validate_password(s("")));
    assert!(error_register_validate_password(s("abc")));
    assert!(!error_register_validate_password(s("abcd")));
    assert!(!error_register_validate_password(s("a much longer password")));
    let long: String = std::iter::repeat("é").take(5000).collect();
    assert!(!error_register_validate_password(long));
}

#[test]
fn password_length_counts_utf8_bytes() {
    // two characters, four bytes
    assert!(!error_register_validate_password(s("żż")));
    // one character, two bytes
    assert!(error_register_validate_password(s("ż")));
    // one character, four bytes
    assert!(!error_register_validate_password(s("😀")));
    // three characters, three bytes
    assert!(error_register_validate_password(s("a1!")));
}

#[test]
fn confirmation_must_equal_password() {
    assert!(!error_register_validate_confirm_password(s("secret"), s("secret")));
    assert!(error_register_validate_confirm_password(s("secret"), s("Secret")));
    assert!(error_register_validate_confirm_password(s("secret"), s("")));
    assert!(!error_register_validate_confirm_password(s(""), s("")));
}

#[test]
fn username_and_email_formats() {
    assert!(username_format_error(&s("bob")));
    assert!(!username_format_error(&s("bobby")));
    assert!(username_format_error(&s("")));
    assert!(email_format_error(&s("")));
    assert!(!email_format_error(&s("a")));
}

#[test]
fn login_name_with_at_sign_is_an_email() {
    match user_key(s("bob@example.com")) {
        UserKey::Email(e) => assert_eq!(e, "bob@example.com"),
        other => panic!("unexpected {:?}", other),
    }
    match user_key(s("bob")) {
        UserKey::Nickname(n) => assert_eq!(n, "bob"),
        other => panic!("unexpected {:?}", other),
    }
    match user_key(s("@")) {
        UserKey::Email(e) => assert_eq!(e, "@"),
        other => panic!("unexpected {:?}", other),
    }
    match user_key(s("")) {
        UserKey::Nickname(n) => assert_eq!(n, ""),
        other => panic!("unexpected {:?}", other),
    }
}

#[test]
fn password_hash_needs_exactly_one_row() {
    let one = vec![user(3, "bob", "HASH", "b@x")];
    assert_eq!(password_hash_from_rows(&one), Ok(s("HASH")));
    assert_eq!(password_hash_from_rows(&vec![]), Err(LookupError::NoUserFound));
    let two = vec![user(3, "bob", "H1", "b@x"), user(4, "bob", "H2", "c@x")];
    assert_eq!(password_hash_from_rows(&two), Err(LookupError::NoUserFound));
}

#[test]
fn user_id_needs_exactly_one_row() {
    assert_eq!(user_id_from_rows(&vec![user(42, "a", "b", "c")]), Ok(42));
    assert_eq!(user_id_from_rows(&vec![]), Err(LookupError::NoUserFound));
}

#[test]
fn session_user_needs_exactly_one_session() {
    let rows = vec![UserSession { id: 1, user_id: 9, token: s("T") }];
    assert_eq!(session_user_id_from_rows(&rows), Ok(9i64));
    assert_eq!(session_user_id_from_rows(&vec![]), Err(LookupError::NoTokenFound));
}

#[test]
fn found_and_taken() {
    assert!(user_found(&vec![user(1, "a", "b", "c")]));
    assert!(!user_found(&vec![]));
    assert!(value_taken(&vec![user(1, "a", "b", "c")]));
    assert!(!value_taken(&vec![]));
}

#[test]
fn nickname_and_email_of_first_row() {
    let rows = vec![user(1, "alice", "h", "alice@x"), user(2, "bob", "h", "bob@x")];
    assert_eq!(nickname_from_rows(&rows), "alice");
    assert_eq!(email_from_rows(&rows), "alice@x");
}

#[test]
fn lookup_error_messages() {
    assert_eq!(LookupError::NoUserFound.message(), "no user found");
    assert_eq!(LookupError::NoTokenFound.message(), "no token found");
}

#[test]
fn utf8_length_thresholds() {
    assert!(utf8_len_at_least("", 0));
    assert!(!utf8_len_at_least("", 1));
    assert!(utf8_len_at_least("żż", 4));
    assert!(!utf8_len_at_least("żż", 5));
    assert!(!utf8_len_at_least("ab", usize::MAX));
    assert!(utf8_len_at_least("😀😀", 8));
}

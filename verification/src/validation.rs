use vstd::prelude::*;
use crate::text::{utf8_len, utf8_len_at_least};

verus! {

/// Login/account form check: a field is in error exactly when it is empty.
pub fn error_login_validate_empty_form(word: String) -> (error: bool)
    ensures
        error == (word@.len() == 0),
{
    word.as_str().is_empty()
}

/// The length rule for passwords and nicknames: in error when empty or
/// shorter than four bytes.
pub open spec fn too_short(s: Seq<char>) -> bool {
    !(s.len() > 0 && utf8_len(s) >= 4)
}

/// Registration password rule: the password must be non-empty and at least
/// four bytes long (UTF-8 bytes, not characters).
pub fn error_register_validate_password(user_password: String) -> (error: bool)
    ensures
        error == too_short(user_password@),
{
    let s = user_password.as_str();
    !(!s.is_empty() && utf8_len_at_least(s, 4))
}

/// The length part of the nickname rule (the other part asks whether the
/// nickname is taken): in error when empty or shorter than four bytes.
pub fn username_format_error(username: &String) -> (error: bool)
    ensures
        error == too_short(username@),
{
    let s = username.as_str();
    !(!s.is_empty() && utf8_len_at_least(s, 4))
}

/// The format part of the email rule (the other part asks whether the email
/// is taken): in error when empty.
pub fn email_format_error(email: &String) -> (error: bool)
    ensures
        error == (email@.len() == 0),
{
    email.as_str().is_empty()
}

/// The confirmation must equal the password, character for character.
pub fn error_register_validate_confirm_password(str1: String, str2: String) -> (error: bool)
    ensures
        error == (str1@ != str2@),
{
    !(str1 == str2)
}

} // verus!

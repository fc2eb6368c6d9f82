use vstd::prelude::*;
use crate::error::AppError;

verus! {

/// What `bcrypt::verify` answers for a password and a stored hash: whether
/// they match, or nothing where the hash cannot be read.
pub uninterp spec fn bcrypt_outcome(password: Seq<char>, hash: Seq<char>) -> Option<bool>;

/// Relies on `bcrypt::verify`: whether the password matches the hash, or an
/// error where the hash cannot be read; the answer depends on the two texts
/// alone (the salt and cost are read from the hash).
#[verifier::external_body]
fn bcrypt_verify(password: &str, hash: &str) -> (r: Result<bool, bcrypt::BcryptError>)
    ensures
        r matches Ok(b) ==> bcrypt_outcome(password@, hash@) == Some(b),
        r is Err <==> bcrypt_outcome(password@, hash@) is None,
{
    bcrypt::verify(password, hash)
}

/// Relies on `bcrypt::hash` at the default cost: on success a hash, with a
/// fresh random salt, that `bcrypt::verify` accepts the password against.
#[verifier::external_body]
fn bcrypt_hash(password: &str) -> (r: Result<String, bcrypt::BcryptError>)
    ensures
        r matches Ok(h) ==> bcrypt_outcome(password@, h@) == Some(true),
{
    bcrypt::hash(password, bcrypt::DEFAULT_COST)
}

/// The hash to store for a new user's password.
pub fn hash_password(password: &str) -> (r: Result<String, AppError>)
    ensures
        r matches Ok(h) ==> bcrypt_outcome(password@, h@) == Some(true),
        r matches Err(e) ==> e is BcryptError,
{
    match bcrypt_hash(password) {
        Ok(h) => Ok(h),
        Err(e) => Err(AppError::BcryptError(e)),
    }
}

/// Signs a user in: the user must exist and the password must match the
/// stored hash.
pub fn check_credentials(stored_hash: Option<&str>, password: &str) -> (r: Result<(), AppError>)
    ensures
        stored_hash is None ==> (r matches Err(AppError::Unauthorized(m)) && m@ == "Invalid credentials"@),
        stored_hash matches Some(h) ==> (r is Ok <==> bcrypt_outcome(password@, h@) == Some(true)),
        stored_hash matches Some(h) ==> (bcrypt_outcome(password@, h@) == Some(false) ==> (r matches Err(
            AppError::Unauthorized(m),
        ) && m@ == "Invalid credentials"@)),
        stored_hash matches Some(h) ==> (bcrypt_outcome(password@, h@) is None ==> r matches Err(
            AppError::BcryptError(_),
        )),
{
    match stored_hash {
        None => Err(AppError::unauthorized("Invalid credentials")),
        Some(h) => match bcrypt_verify(password, h) {
            Ok(true) => Ok(()),
            Ok(false) => Err(AppError::unauthorized("Invalid credentials")),
            Err(e) => Err(AppError::BcryptError(e)),
        },
    }
}

/// The e-mail and password of a sign-in form; both are required.
pub fn login_fields<'a>(email: Option<&'a str>, password: Option<&'a str>) -> (r: Result<(&'a str, &'a str), AppError>)
    ensures
        email is None ==> (r matches Err(AppError::ValidationError(m)) && m@ == "Email is required"@),
        email is Some && password is None ==> (r matches Err(AppError::ValidationError(m)) && m@
            == "Password is required"@),
        email matches Some(e) ==> (password matches Some(p) ==> r == Ok::<(&str, &str), AppError>((e, p))),
{
    match email {
        None => Err(AppError::validation("Email is required")),
        Some(e) => match password {
            None => Err(AppError::validation("Password is required")),
            Some(p) => Ok((e, p)),
        },
    }
}

/// The e-mail and password of a sign-up form: all three fields are required
/// and the two passwords must be the same.
pub fn register_fields<'a>(email: Option<&'a str>, password: Option<&'a str>, confirm_password: Option<&'a str>) -> (r: Result<(&'a str, &'a str), AppError>)
    ensures
        email is None ==> (r matches Err(AppError::ValidationError(m)) && m@ == "Email is required"@),
        email is Some && password is None ==> (r matches Err(AppError::ValidationError(m)) && m@
            == "Password is required"@),
        email is Some && password is Some && confirm_password is None ==> (r matches Err(
            AppError::ValidationError(m),
        ) && m@ == "Confirm password is required"@),
        email matches Some(e) ==> (password matches Some(p) ==> (confirm_password matches Some(c) ==> (
        p@ != c@ ==> (r matches Err(AppError::ValidationError(m)) && m@ == "Passwords don't match"@)))),
        email matches Some(e) ==> (password matches Some(p) ==> (confirm_password matches Some(c) ==> (
        p@ == c@ ==> r == Ok::<(&str, &str), AppError>((e, p))))),
{
    match login_fields(email, password) {
        Err(err) => Err(err),
        Ok((e, p)) => match confirm_password {
            None => Err(AppError::validation("Confirm password is required")),
            Some(c) => if crate::text::same_text(p, c) {
                Ok((e, p))
            } else {
                Err(AppError::validation("Passwords don't match"))
            },
        },
    }
}

/// Refuses to sign up an e-mail address that is already taken.
pub fn ensure_email_free(taken: bool, message: &str) -> (r: Result<(), AppError>)
    ensures
        !taken ==> r is Ok,
        taken ==> (r matches Err(AppError::ValidationError(m)) && m@ == message@),
{
    if taken {
        Err(AppError::validation(message))
    } else {
        Ok(())
    }
}

} // verus!

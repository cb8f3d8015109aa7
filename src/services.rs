use vstd::prelude::*;

use crate::entities::User;
use crate::token::{generate_jwt, is_token_for, JwtConfig, TokenError, TOKEN_LIFETIME};

verus! {

/// bcrypt's error type, carried through opaque.
#[verifier::external_type_specification]
#[verifier::external_body]
pub struct ExBcryptError(bcrypt::BcryptError);

/// What bcrypt::verify says of `password` against the stored `hash`: whether
/// it matches, or `None` where the hash cannot be read.
pub uninterp spec fn bcrypt_check(password: Seq<char>, hash: Seq<char>) -> Option<bool>;

/// Relies on bcrypt::verify: whether `password` matches the stored `hash`, or
/// an error where `hash` is not a well-formed bcrypt hash.
#[verifier::external_body]
fn verify_password(password: &str, hash: &str) -> (r: Result<bool, bcrypt::BcryptError>)
    ensures
        r is Err <==> bcrypt_check(password@, hash@) is None,
        r matches Ok(b) ==> bcrypt_check(password@, hash@) == Some(b),
{
    bcrypt::verify(password, hash)
}

/// Relies on bcrypt::hash at bcrypt's default cost, with a random salt: a
/// hash that bcrypt::verify accepts for `password`.
#[verifier::external_body]
fn hash_password(password: &str) -> (r: Result<String, bcrypt::BcryptError>)
    ensures
        r matches Ok(h) ==> bcrypt_check(password@, h@) == Some(true),
{
    bcrypt::hash(password, bcrypt::DEFAULT_COST)
}

/// Why a sign-in was turned down.
#[derive(PartialEq, Eq, Structural, Clone, Copy, Debug)]
pub enum LoginError {
    /// No user has the given email.
    UnknownUser,
    /// The password does not match the stored hash.
    WrongPassword,
    /// The stored hash cannot be read.
    UnreadableHash,
    /// The token could not be issued; with a configured secret signing does
    /// not fail, so a matching password never leads here.
    SigningUnavailable,
}

/// Why a sign-up was turned down.
#[derive(PartialEq, Eq, Structural, Clone, Copy, Debug)]
pub enum SignupError {
    /// A user with the given email already exists.
    UserExists,
    /// The password could not be hashed.
    HashingFailed,
}

/// Finishes a sign-in for `user_email` once the password has been checked
/// (`password_check`: whether it matched, `None` where the stored hash could
/// not be read): a token is issued only for a matching password.
pub fn login_with_check(config: &JwtConfig, user_email: &str, password_check: Option<bool>, now: u64) -> (r: Result<String, LoginError>)
    requires
        now <= u64::MAX - TOKEN_LIFETIME,
    ensures
        password_check is None ==> r == Err::<String, LoginError>(LoginError::UnreadableHash),
        password_check == Some(false) ==> r == Err::<String, LoginError>(LoginError::WrongPassword),
        password_check == Some(true) ==> (r matches Ok(t) && is_token_for(
            t@,
            config.secret(),
            user_email@,
            (now + TOKEN_LIFETIME) as u64,
        )),
{
    match password_check {
        None => Err(LoginError::UnreadableHash),
        Some(false) => Err(LoginError::WrongPassword),
        Some(true) => match generate_jwt(config, user_email, now) {
            Ok(token) => Ok(token),
            Err(_) => Err(LoginError::SigningUnavailable),
        },
    }
}

/// Signs in with `password` as the stored user `user` (`None` where no user
/// has the email given): on success, a token for the user's email issued at
/// `now`.
pub fn login(config: &JwtConfig, user: Option<&User>, password: &str, now: u64) -> (r: Result<String, LoginError>)
    requires
        now <= u64::MAX - TOKEN_LIFETIME,
    ensures
        user is None ==> r == Err::<String, LoginError>(LoginError::UnknownUser),
        user matches Some(u) ==> {
            let check = bcrypt_check(password@, u.password_hash@);
            &&& check is None ==> r == Err::<String, LoginError>(LoginError::UnreadableHash)
            &&& check == Some(false) ==> r == Err::<String, LoginError>(LoginError::WrongPassword)
            &&& check == Some(true) ==> (r matches Ok(t) && is_token_for(
                t@,
                config.secret(),
                u.email@,
                (now + TOKEN_LIFETIME) as u64,
            ))
        },
{
    match user {
        None => Err(LoginError::UnknownUser),
        Some(u) => {
            let check = match verify_password(password, u.password_hash.as_str()) {
                Ok(b) => Some(b),
                Err(_) => None,
            };
            login_with_check(config, u.email.as_str(), check, now)
        },
    }
}

/// Prepares a sign-up with `password` (`user_exists`: whether the email is
/// already taken): the hash to store for the new user.
pub fn signup(user_exists: bool, password: &str) -> (r: Result<String, SignupError>)
    ensures
        user_exists ==> r == Err::<String, SignupError>(SignupError::UserExists),
        r matches Ok(h) ==> bcrypt_check(password@, h@) == Some(true),
        !user_exists ==> r is Ok || r == Err::<String, SignupError>(SignupError::HashingFailed),
{
    if user_exists {
        return Err(SignupError::UserExists);
    }
    match hash_password(password) {
        Ok(h) => Ok(h),
        Err(_) => Err(SignupError::HashingFailed),
    }
}

/// The parts of an article upload that are read; any other part is ignored.
#[derive(PartialEq, Eq, Structural, Clone, Copy, Debug)]
pub enum UploadPart {
    /// The article's metadata, as JSON.
    Article,
    /// The markdown text.
    Markdown,
    /// The photo's bytes.
    Photo,
}

/// The upload part that a form field named `name` carries.
pub open spec fn upload_part_of(name: Seq<char>) -> Option<UploadPart> {
    if name == "article"@ {
        Some(UploadPart::Article)
    } else if name == "markdown"@ {
        Some(UploadPart::Markdown)
    } else if name == "photo"@ {
        Some(UploadPart::Photo)
    } else {
        None
    }
}

/// The upload part that a form field named `name` carries, if any.
pub fn upload_part(name: &str) -> (r: Option<UploadPart>)
    ensures
        r == upload_part_of(name@),
{
    let name = name.to_owned();
    if name == "article".to_owned() {
        Some(UploadPart::Article)
    } else if name == "markdown".to_owned() {
        Some(UploadPart::Markdown)
    } else if name == "photo".to_owned() {
        Some(UploadPart::Photo)
    } else {
        None
    }
}

} // verus!

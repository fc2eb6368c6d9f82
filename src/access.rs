use vstd::prelude::*;
use crate::error::AppError;
use crate::ids::{parse_uuid, uuid_parsed};
use crate::models::UpdateMenuItem;
use crate::session::SessionData;
use crate::token::{verify_token_at, unix_now, opened_claims, CLOCK_LIMIT_SECONDS};

verus! {

/// The identity a request was authenticated with, or a refusal.
pub fn extract_user_id(authenticated: Option<u128>) -> (r: Result<u128, AppError>)
    ensures
        authenticated matches Some(u) ==> r == Ok::<u128, AppError>(u),
        authenticated is None ==> (r matches Err(AppError::Unauthorized(m)) && m@ == "User not authenticated"@),
{
    match authenticated {
        Some(u) => Ok(u),
        None => Err(AppError::unauthorized("User not authenticated")),
    }
}

/// The owning chef found by joining a resource back to the caller, or a
/// refusal with `message` where the caller owns no such chef.
pub fn require_owner(owner: Option<u128>, message: &str) -> (r: Result<u128, AppError>)
    ensures
        owner matches Some(c) ==> r == Ok::<u128, AppError>(c),
        owner is None ==> (r matches Err(AppError::Unauthorized(m)) && m@ == message@),
{
    match owner {
        Some(c) => Ok(c),
        None => Err(AppError::unauthorized(message)),
    }
}

/// Lets a change of a menu item go ahead only through a menu of the
/// caller's own chef profile (`owner`, found by joining the menu back to the
/// caller) that holds the item (`item_menu`, the menu the item belongs to).
pub fn authorize_menu_item(owner: Option<u128>, menu_id: u128, item_menu: Option<u128>) -> (r: Result<u128, AppError>)
    ensures
        owner is None ==> (r matches Err(AppError::Unauthorized(m)) && m@ == "Not authorized"@),
        owner matches Some(c) ==> (item_menu == Some(menu_id) ==> r == Ok::<u128, AppError>(c)),
        owner is Some ==> (item_menu != Some(menu_id) ==> (r matches Err(AppError::NotFound(m)) && m@
            == "Menu item not found"@)),
{
    match owner {
        None => Err(AppError::unauthorized("Not authorized")),
        Some(c) => match item_menu {
            Some(m) => if m == menu_id {
                Ok(c)
            } else {
                Err(AppError::not_found("Menu item not found"))
            },
            None => Err(AppError::not_found("Menu item not found")),
        },
    }
}

/// Lets an update of a menu item go ahead only through a menu of the
/// caller's own chef profile that holds the item, whatever the update holds.
pub fn update_menu_item(owner: Option<u128>, menu_id: u128, item_menu: Option<u128>, data: &UpdateMenuItem) -> (r: Result<u128, AppError>)
    ensures
        owner is None ==> (r matches Err(AppError::Unauthorized(m)) && m@ == "Not authorized"@),
        owner matches Some(c) ==> (item_menu == Some(menu_id) ==> r == Ok::<u128, AppError>(c)),
        owner is Some ==> (item_menu != Some(menu_id) ==> (r matches Err(AppError::NotFound(m)) && m@
            == "Menu item not found"@)),
{
    authorize_menu_item(owner, menu_id, item_menu)
}

/// Lets a delete of a menu item go ahead only through a menu of the caller's
/// own chef profile that holds the item.
pub fn delete_menu_item(owner: Option<u128>, menu_id: u128, item_menu: Option<u128>) -> (r: Result<u128, AppError>)
    ensures
        owner is None ==> (r matches Err(AppError::Unauthorized(m)) && m@ == "Not authorized"@),
        owner matches Some(c) ==> (item_menu == Some(menu_id) ==> r == Ok::<u128, AppError>(c)),
        owner is Some ==> (item_menu != Some(menu_id) ==> (r matches Err(AppError::NotFound(m)) && m@
            == "Menu item not found"@)),
{
    authorize_menu_item(owner, menu_id, item_menu)
}

/// The row that a statement found or changed, or `message` as not found.
pub fn found_or<T>(row: Option<T>, message: &str) -> (r: Result<T, AppError>)
    ensures
        row matches Some(x) ==> r == Ok::<T, AppError>(x),
        row is None ==> (r matches Err(AppError::NotFound(m)) && m@ == message@),
{
    match row {
        Some(x) => Ok(x),
        None => Err(AppError::not_found(message)),
    }
}

/// A delete that removed no row reports `message` as not found.
pub fn deleted_or(rows_affected: u64, message: &str) -> (r: Result<(), AppError>)
    ensures
        rows_affected > 0 ==> r is Ok,
        rows_affected == 0 ==> (r matches Err(AppError::NotFound(m)) && m@ == message@),
{
    if rows_affected == 0 {
        Err(AppError::not_found(message))
    } else {
        Ok(())
    }
}

/// The user of a session-authenticated request: the session cookie must be
/// there and the cache must hold its session.
pub fn extract_user_id_from_session(has_cookie: bool, lookup: Result<Option<SessionData>, AppError>) -> (r: Result<u128, AppError>)
    ensures
        !has_cookie ==> (r matches Err(AppError::Unauthorized(m)) && m@ == "No session found. Please log in."@),
        has_cookie ==> (lookup matches Ok(Some(d)) ==> r == Ok::<u128, AppError>(d.user_id)),
        has_cookie ==> (lookup matches Ok(None) ==> (r matches Err(AppError::Unauthorized(m)) && m@
            == "Invalid or expired session. Please log in again."@)),
        has_cookie ==> (lookup is Err ==> (r matches Err(AppError::Unauthorized(m)) && m@
            == "Session lookup failed"@)),
{
    if !has_cookie {
        return Err(AppError::unauthorized("No session found. Please log in."));
    }
    match lookup {
        Ok(Some(d)) => Ok(d.user_id),
        Ok(None) => Err(AppError::unauthorized("Invalid or expired session. Please log in again.")),
        Err(_) => Err(AppError::unauthorized("Session lookup failed")),
    }
}

/// The user of the session a page request carries, where it carries one;
/// a failed lookup is passed on as it came.
pub fn session_user(has_cookie: bool, lookup: Result<Option<SessionData>, AppError>) -> (r: Result<u128, AppError>)
    ensures
        !has_cookie ==> (r matches Err(AppError::Unauthorized(m)) && m@ == "Not authenticated"@),
        has_cookie ==> (lookup matches Ok(Some(d)) ==> r == Ok::<u128, AppError>(d.user_id)),
        has_cookie ==> (lookup matches Ok(None) ==> (r matches Err(AppError::Unauthorized(m)) && m@
            == "Invalid or expired session"@)),
        has_cookie ==> (lookup matches Err(e) ==> r == Err::<u128, AppError>(e)),
{
    if !has_cookie {
        return Err(AppError::unauthorized("Not authenticated"));
    }
    match lookup {
        Ok(Some(d)) => Ok(d.user_id),
        Ok(None) => Err(AppError::unauthorized("Invalid or expired session")),
        Err(e) => Err(e),
    }
}

/// The user named by a bearer token checked at time `now`: the token must
/// verify and its subject must be a user id.
pub fn validate_bearer_at(token: &str, secret: &str, now: i64) -> (r: Result<u128, AppError>)
    ensures
        r matches Ok(u) ==> (opened_claims(token@, secret@) matches Some(c) && now < c.1 && uuid_parsed(c.0)
            == Some(u)),
        opened_claims(token@, secret@) matches Some(c) ==> (now < c.1 ==> (uuid_parsed(c.0) matches Some(u)
            ==> r == Ok::<u128, AppError>(u))),
        opened_claims(token@, secret@) matches Some(c) ==> ((now < c.1 && uuid_parsed(c.0) is None) ==> (
        r matches Err(AppError::Unauthorized(m)) && m@ == "Invalid user ID in token"@)),
        opened_claims(token@, secret@) matches Some(c) ==> (now >= c.1 ==> (r matches Err(
            AppError::Unauthorized(m),
        ) && m@ == "Invalid or expired token"@)),
        opened_claims(token@, secret@) is None ==> (r matches Err(AppError::Unauthorized(m)) && m@
            == "Invalid or expired token"@),
        r is Err ==> r matches Err(AppError::Unauthorized(_)),
{
    match verify_token_at(token, secret, now) {
        Ok(claims) => match parse_uuid(claims.sub.as_str()) {
            Some(u) => Ok(u),
            None => Err(AppError::unauthorized("Invalid user ID in token")),
        },
        Err(_) => Err(AppError::unauthorized("Invalid or expired token")),
    }
}

/// The user named by a bearer token, checked against the current time.
pub fn validator(token: &str, secret: &str) -> (r: Result<u128, AppError>)
    ensures
        r matches Ok(u) ==> (opened_claims(token@, secret@) matches Some(c) && uuid_parsed(c.0) == Some(u)),
        opened_claims(token@, secret@) matches Some(c) ==> (uuid_parsed(c.0) matches Some(u) ==> (r
            == Ok::<u128, AppError>(u) || r matches Err(AppError::Unauthorized(_)))),
        opened_claims(token@, secret@) matches Some(c) ==> (c.1 >= CLOCK_LIMIT_SECONDS ==> (uuid_parsed(c.0) matches Some(u)
            ==> r == Ok::<u128, AppError>(u))),
        opened_claims(token@, secret@) is None ==> r matches Err(AppError::Unauthorized(_)),
        r is Err ==> r matches Err(AppError::Unauthorized(_)),
{
    validate_bearer_at(token, secret, unix_now())
}

} // verus!

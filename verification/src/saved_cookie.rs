//! Whether a saved account's cookie can be used without logging in again:
//! the record must exist, the cookie must not have expired, its secret must
//! be readable and present, and the session must prove the account's
//! identity. A cookie that cannot be used is recovered by password, unless
//! something else failed.

use vstd::prelude::*;
use crate::errors::AccountSecretStoreError;
use crate::text::{concat2, concat4, is_empty_text, owned, trim, trimmed};

verus! {

/// What checking a saved cookie came to.
pub enum SavedCookieCheck {
    /// The cookie works: its session value, trimmed.
    Valid { session_cookie: String },
    /// The cookie cannot be used: log in with the password instead.
    Recover(String),
    /// Checking the cookie failed.
    Failed(String),
}

pub enum CheckView {
    Valid(Seq<char>),
    Recover(Seq<char>),
    Failed(Seq<char>),
}

pub open spec fn check_view(c: SavedCookieCheck) -> CheckView {
    match c {
        SavedCookieCheck::Valid { session_cookie } => CheckView::Valid(session_cookie@),
        SavedCookieCheck::Recover(m) => CheckView::Recover(m@),
        SavedCookieCheck::Failed(m) => CheckView::Failed(m@),
    }
}

/// The checks on the saved record: it must exist, and its cookie must not
/// have expired. `expiry` is the cookie's expiry rounded up to whole
/// seconds, so that it has passed exactly when it is at most `now_unix`.
pub open spec fn record_check(found: bool, alias: Seq<char>, expiry: Option<i64>, now_unix: i64) -> Option<CheckView> {
    if !found {
        Some(CheckView::Failed("account alias not found: "@ + alias))
    } else if expiry matches Some(e) && e <= now_unix {
        Some(CheckView::Recover("已保存 Cookie 已过期"@))
    } else {
        None
    }
}

pub fn saved_cookie_record_check(found: bool, alias: &str, expiry: Option<i64>, now_unix: i64) -> (r: Option<SavedCookieCheck>)
    ensures
        (match r { Some(c) => Some(check_view(c)), None => None }) == record_check(found, alias@, expiry, now_unix),
{
    if !found {
        return Some(SavedCookieCheck::Failed(concat2("account alias not found: ", alias)));
    }
    match expiry {
        Some(e) => if e <= now_unix {
            Some(SavedCookieCheck::Recover(owned("已保存 Cookie 已过期")))
        } else {
            None
        },
        None => None,
    }
}

/// The session cookie from the saved secrets: a missing secret or an empty
/// cookie is recovered by password; a secret that could not be read fails.
pub open spec fn secret_check(secrets: Result<Option<String>, AccountSecretStoreError>) -> Result<Seq<char>, CheckView> {
    match secrets {
        Err(AccountSecretStoreError::Missing { .. }) => Err(CheckView::Recover("没有可用 Cookie"@)),
        Err(AccountSecretStoreError::ReadFailed { alias, category }) => Err(CheckView::Failed(
            "failed to read stored "@ + category@ + " secret for account alias: "@ + alias@,
        )),
        Err(AccountSecretStoreError::WriteFailed { alias, category }) => Err(CheckView::Failed(
            "failed to read stored "@ + category@ + " secret for account alias: "@ + alias@,
        )),
        Ok(Some(v)) => if trimmed(v@).len() > 0 {
            Ok(trimmed(v@))
        } else {
            Err(CheckView::Recover("没有可用 Cookie"@))
        },
        Ok(None) => Err(CheckView::Recover("没有可用 Cookie"@)),
    }
}

/// Reads the session cookie out of the saved secrets: `Ok` holds the
/// cookie's value when the secrets were read.
pub fn saved_cookie_from_secrets(secrets: Result<Option<String>, AccountSecretStoreError>) -> (r: Result<String, SavedCookieCheck>)
    ensures
        (match r { Ok(c) => Ok(c@), Err(e) => Err(check_view(e)) }) == secret_check(secrets),
{
    match secrets {
        Err(AccountSecretStoreError::Missing { .. }) => Err(SavedCookieCheck::Recover(owned("没有可用 Cookie"))),
        Err(AccountSecretStoreError::ReadFailed { alias, category }) => Err(SavedCookieCheck::Failed(concat4(
            "failed to read stored ",
            category.as_str(),
            " secret for account alias: ",
            alias.as_str(),
        ))),
        Err(AccountSecretStoreError::WriteFailed { alias, category }) => Err(SavedCookieCheck::Failed(concat4(
            "failed to read stored ",
            category.as_str(),
            " secret for account alias: ",
            alias.as_str(),
        ))),
        Ok(Some(v)) => {
            let t = trim(v.as_str());
            if is_empty_text(t.as_str()) {
                Err(SavedCookieCheck::Recover(owned("没有可用 Cookie")))
            } else {
                Ok(t)
            }
        },
        Ok(None) => Err(SavedCookieCheck::Recover(owned("没有可用 Cookie"))),
    }
}

/// What the identity check found: the session proved the account; or it did
/// not and the error asks for a new login (`true`), or it failed otherwise,
/// with the error's text.
pub fn saved_cookie_identity(result: Result<(), (bool, String)>, session_cookie: String) -> (r: SavedCookieCheck)
    ensures
        result is Ok ==> check_view(r) == CheckView::Valid(session_cookie@),
        result matches Err((true, _)) ==> check_view(r) == CheckView::Recover("已保存 Cookie 无效或身份不匹配"@),
        result matches Err((false, m)) ==> check_view(r) == CheckView::Failed(m@),
{
    match result {
        Ok(()) => SavedCookieCheck::Valid { session_cookie },
        Err((true, _)) => SavedCookieCheck::Recover(owned("已保存 Cookie 无效或身份不匹配")),
        Err((false, m)) => SavedCookieCheck::Failed(m),
    }
}

} // verus!

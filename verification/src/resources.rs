//! The rules of the card and address requests: which card status a
//! request names, and how an address is picked for the next registration.

use vstd::prelude::*;
use crate::response::{error_response, is_error_response, ApiResponse};
use crate::text::{ascii_lower, text_eq, to_ascii_lower, trim, trimmed};

verus! {

/// The status a card is marked with.
#[derive(Debug, Clone, Copy, PartialEq, Eq, Structural)]
pub enum CardStatusUpdate {
    Used,
    Failed,
}

/// The status a request names: `used` or `failed`, trimmed and in any case.
pub open spec fn card_status_of(s: Seq<char>) -> Option<CardStatusUpdate> {
    let k = ascii_lower(trimmed(s));
    if k == "used"@ {
        Some(CardStatusUpdate::Used)
    } else if k == "failed"@ {
        Some(CardStatusUpdate::Failed)
    } else {
        None
    }
}

/// Reads the status of a card status request; any other is answered 400.
pub fn card_status_update(status: &str) -> (r: Result<CardStatusUpdate, ApiResponse>)
    ensures
        match card_status_of(status@) {
            Some(u) => r == Ok::<CardStatusUpdate, ApiResponse>(u),
            None => r matches Err(e) && is_error_response(e, 400, "card status must be used or failed"@),
        },
{
    let t = trim(status);
    let k = to_ascii_lower(t.as_str());
    if text_eq(k.as_str(), "used") {
        Ok(CardStatusUpdate::Used)
    } else if text_eq(k.as_str(), "failed") {
        Ok(CardStatusUpdate::Failed)
    } else {
        Err(error_response(400, "card status must be used or failed"))
    }
}

/// The answer when a card export request does not list the cards.
pub fn card_export_request_invalid_response() -> (r: ApiResponse)
    ensures
        is_error_response(r, 400, "请选择要导出的银行卡"@),
{
    error_response(400, "请选择要导出的银行卡")
}

/// Where an address for a registration came from.
#[derive(Debug, Clone, Copy, PartialEq, Eq, Structural)]
pub enum RegistrationAddressSource {
    Api,
    Fallback,
}

/// The fallback address a fetch picks by default: the current time's
/// seconds, or 0 before the epoch.
pub fn fetch_address_selector(now_unix: i64) -> (r: usize)
    ensures
        (0 <= now_unix <= usize::MAX) ==> r == now_unix,
        (now_unix < 0 || now_unix > usize::MAX) ==> r == 0,
{
    if now_unix < 0 {
        0
    } else if (now_unix as u64) > (usize::MAX as u64) {
        0
    } else {
        now_unix as usize
    }
}

/// The fallback position a prefetched address records: only a fallback
/// address has one.
pub fn prefetched_fallback_index(source: RegistrationAddressSource, index: usize) -> (r: Option<usize>)
    ensures
        source is Fallback ==> r == Some(index),
        source is Api ==> r is None,
{
    match source {
        RegistrationAddressSource::Fallback => Some(index),
        RegistrationAddressSource::Api => None,
    }
}

} // verus!

//! Paged listing parameters and token expiry times, shared by the services
//! around the chat core.

use vstd::prelude::*;

verus! {

/// A request body taken as JSON, carried as its decoded value.
pub struct CustomJsonRequest<T>(pub T);

/// Which page of a listing to return, and how many entries a page holds.
#[derive(PartialEq, Eq, Structural, Clone, Copy, Debug)]
pub struct PaginationParams {
    pub page: Option<u64>,
    pub count: Option<u64>,
}

/// How many entries lie before the first entry of `page` (counted from 1)
/// when each page holds `count` entries.
pub open spec fn page_offset(page: u64, count: u64) -> int {
    (page - 1) * count
}

/// The number of entries to skip to reach `page`, counted from 1.
pub fn pagination_offset(page: u64, count: u64) -> (r: u64)
    requires
        page >= 1,
        page_offset(page, count) <= u64::MAX,
    ensures
        r == page_offset(page, count),
{
    if page == 1 {
        assert(page_offset(page, count) == 0) by (nonlinear_arith)
            requires
                page == 1,
        ;
        0
    } else {
        (page - 1) * count
    }
}

/// How long a token stays valid, in seconds: one day.
pub const JWT_LIFETIME_SECS: u64 = 86400;

/// The expiry time, in seconds since the epoch, of a token issued at `now`;
/// none when it would not fit in 64 bits.
pub fn jwt_exp_after(now: u64) -> (r: Option<u64>)
    ensures
        now + JWT_LIFETIME_SECS <= u64::MAX ==> r == Some((now + JWT_LIFETIME_SECS) as u64),
        now + JWT_LIFETIME_SECS > u64::MAX ==> r is None,
{
    now.checked_add(JWT_LIFETIME_SECS)
}

/// Relies on std's `SystemTime::now` and `SystemTime::duration_since`
/// against `UNIX_EPOCH`: the whole seconds elapsed since the epoch, or none
/// when the clock reads earlier. Nothing is stated of the value read.
#[verifier::external_body]
fn unix_time_secs() -> (r: Option<u64>) {
    std::time::SystemTime::now().duration_since(std::time::UNIX_EPOCH).ok().map(|d| d.as_secs())
}

/// The expiry time of a token issued now: one day after the current time.
/// None when the clock reads before the epoch or the sum does not fit.
pub fn get_jwt_exp_timestamp() -> (r: Option<u64>)
    ensures
        r matches Some(t) ==> t >= JWT_LIFETIME_SECS,
{
    match unix_time_secs() {
        Some(now) => jwt_exp_after(now),
        None => None,
    }
}

} // verus!

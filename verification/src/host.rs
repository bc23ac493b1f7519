//! The host environment: the platform downloads directory and the UTC
//! clock.
//!
//! Both lookups depend on the machine the library runs on, so their
//! contracts state only what holds of every outcome; the pipeline in
//! [`crate::save`] takes their results as plain values and is verified for
//! every value they may return.

use vstd::prelude::*;

use crate::save::SaveError;
use crate::timestamp::Timestamp;

verus! {

/// Relies on dirs::download_dir: the platform-standard downloads directory
/// of the current user, when one is known. The outcome depends on the host
/// platform and environment, so nothing is promised of it.
#[verifier::external_body]
fn download_dir_lookup() -> (r: Option<String>) {
    match dirs::download_dir() {
        Some(p) => Some(p.to_string_lossy().to_string()),
        None => None,
    }
}

/// Relies on chrono's `Utc::now` and the `Datelike`/`Timelike` accessors
/// `year`, `month`, `day`, `hour`, `minute` and `second`: the accessors
/// document the ranges stated below (month 1 to 12, day 1 to 31, hour 0 to
/// 23, minute and second 0 to 59). The reading itself depends on the
/// system clock, so no more is promised.
#[verifier::external_body]
fn utc_clock_fields() -> (r: (i32, u32, u32, u32, u32, u32))
    ensures
        1 <= r.1 <= 12,
        1 <= r.2 <= 31,
        r.3 <= 23,
        r.4 <= 59,
        r.5 <= 59,
{
    let now = chrono::Utc::now();
    (
        chrono::Datelike::year(&now),
        chrono::Datelike::month(&now),
        chrono::Datelike::day(&now),
        chrono::Timelike::hour(&now),
        chrono::Timelike::minute(&now),
        chrono::Timelike::second(&now),
    )
}

/// Resolves the user's downloads directory, the destination of every save.
/// Fails with `DirectoryNotFound` when the platform offers none; the
/// condition is fatal for the call and not retryable without environment
/// changes.
pub fn resolve_downloads_dir() -> (r: Result<String, SaveError>)
    ensures
        r matches Err(e) ==> e is DirectoryNotFound,
{
    match download_dir_lookup() {
        Some(d) => Ok(d),
        None => Err(SaveError::DirectoryNotFound),
    }
}

/// Reads the current UTC time as a calendar timestamp. `None` only when
/// the clock reading lies outside the four-digit-year range the filename
/// scheme covers.
pub fn now_utc() -> (r: Option<Timestamp>)
    ensures
        r matches Some(t) ==> t.wf(),
{
    let (year, month, day, hour, minute, second) = utc_clock_fields();
    Timestamp::from_fields(year, month, day, hour, minute, second)
}

} // verus!

use vstd::prelude::*;

use crate::text::decimal_text;

verus! {

/// The earliest instant chrono can hold, `DateTime::<Utc>::MIN_UTC`, in
/// seconds since the Unix epoch (1 January of year -262143).
pub const MIN_EPOCH_SECS: i64 = -8334601228800;

/// The latest instant chrono can hold, `DateTime::<Utc>::MAX_UTC`, in whole
/// seconds since the Unix epoch (31 December of year 262142).
pub const MAX_EPOCH_SECS: i64 = 8210266876799;

/// An instant, in seconds since the Unix epoch, that chrono can represent.
pub open spec fn representable(secs: int) -> bool {
    MIN_EPOCH_SECS <= secs <= MAX_EPOCH_SECS
}

/// Relies on `std::time::SystemTime::now`, chrono's `From<SystemTime>` for
/// `DateTime<Utc>` and `DateTime::timestamp`: the current time, as whole
/// seconds since the Unix epoch (negative before it), which always lies in
/// chrono's range, as every `DateTime<Utc>` does.
#[verifier::external_body]
pub(crate) fn now_epoch_secs() -> (r: i64)
    ensures
        representable(r as int),
{
    chrono::DateTime::<chrono::Utc>::from(std::time::SystemTime::now()).timestamp()
}

/// Relies on `chrono::DateTime::from_timestamp`, which accepts every
/// representable instant, and on `DateTime::format` with `%s`, which writes
/// the timestamp as a plain, unpadded integer.
#[verifier::external_body]
pub(crate) fn epoch_text(secs: i64) -> (r: String)
    requires
        representable(secs as int),
    ensures
        r@ == decimal_text(secs as int),
{
    chrono::DateTime::from_timestamp(secs, 0).unwrap().format("%s").to_string()
}

} // verus!

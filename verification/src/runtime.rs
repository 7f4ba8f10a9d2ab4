//! Values that only the running system can hand out: the current time and
//! fresh identifiers. Nothing is promised of what they return.
use vstd::prelude::*;

verus! {

/// The current UTC time, in seconds since the Unix epoch, as read from
/// `chrono::Utc::now`. It depends on the clock, so no clause states its value.
#[verifier::external_body]
pub(crate) fn now_utc() -> (t: i64) {
    chrono::Utc::now().timestamp()
}

/// The local wall-clock time, read as seconds since the Unix epoch as if it
/// were UTC (`chrono::Local::now().naive_local()`). It depends on the clock
/// and the machine's time zone, so no clause states its value.
#[verifier::external_body]
pub(crate) fn now_local() -> (t: i64) {
    chrono::Local::now().naive_local().and_utc().timestamp()
}

/// A fresh random identifier, `uuid::Uuid::new_v4` in its hyphenated form.
/// It is random, so no clause states its value.
#[verifier::external_body]
pub(crate) fn new_uuid() -> (s: String) {
    uuid::Uuid::new_v4().to_string()
}

/// A fresh random token, `uuid::Uuid::new_v4` in its simple (unhyphenated)
/// form. It is random, so no clause states its value.
#[verifier::external_body]
pub(crate) fn new_token() -> (s: String) {
    uuid::Uuid::new_v4().simple().to_string()
}

} // verus!

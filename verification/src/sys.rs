//! The two outside calls the library's own logic makes: reading the
//! wall clock and minting a fresh 128-bit id. Callers state what holds of
//! every possible reading; nothing is assumed of the values themselves.

use vstd::prelude::*;

verus! {

/// Relies on chrono's `Utc::now().timestamp()`: the wall-clock time as whole
/// seconds since the epoch. The reading depends on the machine's clock, so
/// nothing is assumed of it.
#[verifier::external_body]
pub fn now_seconds() -> i64 {
    chrono::Utc::now().timestamp()
}

/// Relies on uuid's `Uuid::new_v4`: a freshly drawn random id, carried as
/// its 128 bits. The value is random, so nothing is assumed of it.
#[verifier::external_body]
pub fn mint_id() -> u128 {
    uuid::Uuid::new_v4().as_u128()
}

} // verus!

//! The system clock.
use vstd::prelude::*;
use std::time::SystemTime;

verus! {

/// The system clock's time type.
#[verifier::external_type_specification]
#[verifier::external_body]
pub struct ExSystemTime(SystemTime);

/// Calls `SystemTime::now`: the current time of the system clock. Nothing is
/// stated of the result, which depends on when the call is made.
#[verifier::external_body]
pub(crate) fn system_now() -> SystemTime {
    SystemTime::now()
}

} // verus!

//! Identity of the calling process.
//!
//! A few client commands (update, kill) are reserved for the superuser.
//! The user id itself comes from the operating system; the decision made
//! from it is verified.

use vstd::prelude::*;

verus! {

/// Relies on users::get_current_uid, which returns the effective user id
/// of the calling process. The value depends on the environment, so
/// nothing is promised of it.
#[verifier::external_body]
fn current_uid() -> u32 {
    users::get_current_uid()
}

/// True exactly when the given user id is the superuser's.
pub fn is_root_uid(uid: u32) -> (r: bool)
    ensures
        r == (uid == 0),
{
    uid == 0
}

/// Whether this process runs as the superuser. The result depends on the
/// environment the process runs in, so nothing is promised of it; the
/// rules that consume it take the answer as an argument.
pub fn root() -> bool {
    let uid = current_uid();
    is_root_uid(uid)
}

} // verus!

//! The user and group of the running process, as the operating system
//! reports them.

use vstd::prelude::*;

verus! {

/// `users::get_current_uid`: the ID of the user that runs the process.
/// Nothing is claimed of the number.
#[verifier::external_body]
pub(crate) fn current_uid() -> (uid: u32) {
    users::get_current_uid()
}

/// `users::get_current_gid`: the ID of the group that runs the process.
/// Nothing is claimed of the number.
#[verifier::external_body]
pub(crate) fn current_gid() -> (gid: u32) {
    users::get_current_gid()
}

} // verus!

//! Who a caller is allowed to act as.
pub mod database;

use vstd::prelude::*;
use crate::database::user::User;

verus! {

/// The groups of users of the credential service.
#[derive(Debug, PartialEq, Eq, Clone, Copy, Structural)]
pub enum UserGroup {
    Viewer,
    Editor,
}

/// Something that a caller may or may not be allowed to act as.
pub trait Authentication {
    /// The user that may act as this.
    spec fn holder(&self) -> u128;

    /// Whether `principal`, the user that the caller was found to be, may act as this. A
    /// caller that was not found to be any user may not.
    fn auth(&self, principal: Option<u128>) -> (r: bool)
        ensures
            r == (principal == Some(self.holder())),
    ;
}

impl Authentication for User {
    open spec fn holder(&self) -> u128 {
        self.id
    }

    fn auth(&self, principal: Option<u128>) -> (r: bool) {
        match principal {
            Some(user) => user == self.id,
            None => false,
        }
    }
}

} // verus!

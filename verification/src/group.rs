//! The unix group a managed user belongs to.

use vstd::prelude::*;

verus! {

/// Unix group of a user; its lowercase name is what the accounting tool
/// receives as the account of the user/account association.
#[derive(Clone, Copy, PartialEq, Eq, Structural, Debug)]
pub enum Group {
    Staff,
    Student,
}

impl Group {
    /// The lowercase account name this group denotes.
    pub open spec fn spec_name(&self) -> Seq<char> {
        match self {
            Group::Staff => "staff"@,
            Group::Student => "student"@,
        }
    }

    /// The lowercase account name this group denotes.
    pub fn name(&self) -> (r: &'static str)
        ensures
            r@ == self.spec_name(),
    {
        match self {
            Group::Staff => "staff",
            Group::Student => "student",
        }
    }
}

} // verus!

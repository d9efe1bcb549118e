//! The logical shape of a caller's request: which operation to conduct on
//! the user, on which backends, and with which user data.
//!
//! Argument parsing itself is a front-end concern; these types carry the
//! already-parsed request into the core.

use vstd::prelude::*;

verus! {

/// One invocation's request: the operation plus the backend restriction
/// flags.
#[derive(Debug)]
pub struct GeneralArgs {
    /// Operation to conduct on the user. Either add, delete or modify.
    pub command: Commands,
    /// Manage the user in Slurm only.
    pub slurm_only: bool,
    /// Manage the user in LDAP only.
    pub ldap_only: bool,
    /// Manage user directories only.
    pub dirs_only: bool,
}

/// The logical user operation.
#[derive(Debug)]
pub enum Commands {
    /// Add a user to Slurm and/or LDAP
    Add { to_add: UserToAdd },
    /// Modify a user in Slurm and/or LDAP
    Modify { data: Modifiable },
    /// Delete a user from Slurm and/or LDAP
    Delete { user: String },
    /// List users in Slurm and/or LDAP
    List { slurm_users: bool, ldap_users: bool },
}

/// Fields of an existing user that may be changed.  Every field except the
/// username is optional: absence means "leave unchanged" and is distinct
/// from setting a field to the empty string.
#[derive(Debug, Clone)]
pub struct Modifiable {
    /// A valid username e.g. wagnerdo.
    pub username: String,
    /// Firstname of the user.
    pub firstname: Option<String>,
    /// Lastname of the user.
    pub lastname: Option<String>,
    /// User's e-mail address.
    pub mail: Option<String>,
    /// Slurm default QOS for the user e.g. basic.
    pub default_qos: Option<String>,
    /// Path to SSH publickey.
    pub publickey: Option<String>,
    /// List of QOS assigned to the user; an empty list means the QOS set is
    /// not to be changed.
    pub qos: Vec<String>,
}

/// Data of a user to be created.
#[derive(Debug, Clone)]
pub struct UserToAdd {
    /// Username e.g. wagnerdo.
    pub user: String,
    /// Unix group the user belongs to e.g. staff.
    pub group: String,
    /// Firstname of the user.
    pub firstname: String,
    /// Lastname of the user.
    pub lastname: String,
    /// User's e-mail address.
    pub mail: String,
    /// Slurm default QOS for the user e.g. basic.
    pub default_qos: String,
    /// Path to SSH publickey.
    pub publickey: String,
    /// List of QOS assigned to the user.
    pub qos: Vec<String>,
}

} // verus!

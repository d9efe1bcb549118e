//! Which backends take part in one invocation.
//!
//! A caller restricts an operation to any of the three target domains —
//! accounting system, directory service, home-directory provisioning.  The
//! selector turns that tri-state request plus the operation's own
//! capability ("does this operation handle directories at all") into the
//! concrete backend set, and rejects a selection that names no backend
//! instead of silently doing nothing.

use vstd::prelude::*;

use crate::errors::ConfigurationError;

verus! {

/// The tri-state selection as the graphical front end keeps it: one
/// checkbox per system.
#[derive(Clone, Copy, PartialEq, Eq, Structural, Debug)]
pub struct WhichSystem {
    pub ldap: bool,
    pub slurm: bool,
    pub dir: bool,
}

impl WhichSystem {
    /// The same selection in the shape the operation core consumes: each
    /// ticked system selects its own backend.
    pub fn create_on_which_system(&self) -> (r: OnWhichSystem)
        ensures
            r.slurm == self.slurm,
            r.ldap == self.ldap,
            r.dirs == self.dir,
    {
        OnWhichSystem::new(self.slurm, self.ldap, self.dir)
    }

    /// SSH credentials are needed when the accounting system is managed,
    /// or when the operation both supports and selects directory handling.
    pub fn is_ssh_cred_needed(&self, supports_dir: bool) -> (r: bool)
        ensures
            r == ((supports_dir && self.dir) || self.slurm),
    {
        let operates_on_dir = supports_dir && self.dir;
        operates_on_dir || self.slurm
    }

    pub fn is_ldap_needed(&self) -> (r: bool)
        ensures
            r == self.ldap,
    {
        self.ldap
    }
}

impl Default for WhichSystem {
    /// Every system is selected until the operator unticks one.
    fn default() -> (r: Self)
        ensures
            r.ldap && r.slurm && r.dir,
    {
        WhichSystem { ldap: true, slurm: true, dir: true }
    }
}

/// The tri-state selection in the shape the operation core consumes.
#[derive(Clone, Copy, PartialEq, Eq, Structural, Debug)]
pub struct OnWhichSystem {
    pub slurm: bool,
    pub ldap: bool,
    pub dirs: bool,
}

impl OnWhichSystem {
    pub fn new(slurm: bool, ldap: bool, dirs: bool) -> (r: Self)
        ensures
            r.slurm == slurm,
            r.ldap == ldap,
            r.dirs == dirs,
    {
        OnWhichSystem { slurm, ldap, dirs }
    }
}

/// The concrete set of backends that take part in one invocation.
#[derive(Clone, Copy, PartialEq, Eq, Structural, Debug)]
pub struct BackendSet {
    pub accounting: bool,
    pub directory: bool,
    pub home_dir: bool,
}

impl BackendSet {
    /// At least one backend takes part.
    pub open spec fn spec_any(&self) -> bool {
        self.accounting || self.directory || self.home_dir
    }

    pub fn any(&self) -> (r: bool)
        ensures
            r == self.spec_any(),
    {
        self.accounting || self.directory || self.home_dir
    }
}

/// Decide which backends take part: accounting and directory exactly as
/// selected, home-directory handling only if both the selection requests
/// it and the operation supports it.  A selection that leaves every
/// backend out is rejected as a configuration error, never treated as a
/// silent no-op.
pub fn select_backends(selection: &OnWhichSystem, operation_supports_dirs: bool) -> (r: Result<
    BackendSet,
    ConfigurationError,
>)
    ensures
        r is Ok <==> (selection.slurm || selection.ldap || (selection.dirs
            && operation_supports_dirs)),
        r matches Ok(b) ==> b.accounting == selection.slurm && b.directory == selection.ldap
            && b.home_dir == (selection.dirs && operation_supports_dirs),
        r is Err ==> r == Err::<BackendSet, ConfigurationError>(
            ConfigurationError::EmptyBackendSelection,
        ),
{
    let home_dir = selection.dirs && operation_supports_dirs;
    if selection.slurm || selection.ldap || home_dir {
        Ok(BackendSet { accounting: selection.slurm, directory: selection.ldap, home_dir })
    } else {
        Err(ConfigurationError::EmptyBackendSelection)
    }
}

} // verus!

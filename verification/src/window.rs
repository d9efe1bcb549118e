//! The state of the graphical front end that the core logic reads.
//!
//! Rendering and the event loop are a front-end concern; this module keeps
//! the global state those draw from — which view is selected, where the
//! configuration file lives, which systems are ticked, and what the
//! operator typed into the two connection forms — and derives from it the
//! credentials a connection is initialized with.

use vstd::prelude::*;

use crate::selection::WhichSystem;

verus! {

/// The view the action menu currently shows.
#[derive(Clone, Copy, PartialEq, Eq, Structural, Debug)]
pub enum CurrentSelectedView {
    Configuration,
    Listing,
    SshConnection,
    LdapConnection,
    Adding,
    Removing,
    Modifying,
    About,
}

/// How far the loading of the configuration file has come.
#[derive(Clone, Copy, PartialEq, Eq, Structural, Debug)]
pub enum IoTaskStatus {
    NotStarted,
    Loading,
    Successful,
    Failed,
}

/// State of the configuration view: whether the configuration file was
/// loaded.
#[derive(Clone, Copy, PartialEq, Eq, Structural, Debug)]
pub struct ConfigurationState {
    pub io_conf: IoTaskStatus,
}

/// What the operator typed into the SSH connection form.
#[derive(Debug, Clone)]
pub struct SshConnectionState {
    pub username: Option<String>,
    pub password: Option<String>,
}

/// What the operator typed into the LDAP connection form.
#[derive(Debug, Clone)]
pub struct LdapConnectionState {
    pub username: Option<String>,
    pub password: Option<String>,
}

/// A credential pair handed to the SSH channel as given: an absent
/// password is passed on as empty, since key-based authentication may not
/// need one.
#[derive(Debug, Clone)]
pub struct SshGivenCredential {
    pub username: String,
    pub password: String,
}

impl SshGivenCredential {
    pub fn new(username: String, password: String) -> (r: Self)
        ensures
            r.username == username,
            r.password == password,
    {
        SshGivenCredential { username, password }
    }
}

/// A simple bind credential for the directory service; both halves must
/// be present.
#[derive(Debug, Clone)]
pub struct LdapSimpleCredential {
    pub username: String,
    pub password: String,
}

impl LdapSimpleCredential {
    pub fn new(username: String, password: String) -> (r: Self)
        ensures
            r.username == username,
            r.password == password,
    {
        LdapSimpleCredential { username, password }
    }
}

/// The global state of the GUI: the selected view, the configuration
/// path and loading status, the ticked systems, and the two connection
/// forms.
#[derive(Debug)]
pub struct UsermgmtWindow {
    pub selected_view: CurrentSelectedView,
    pub conf_path: String,
    pub conf_state: ConfigurationState,
    pub ssh_state: SshConnectionState,
    pub ldap_state: LdapConnectionState,
    pub which_sys: WhichSystem,
}

impl Default for UsermgmtWindow {
    /// A fresh window starts on the listing view with nothing typed in
    /// and every system ticked; no configuration load has begun.
    fn default() -> (r: Self)
        ensures
            r.selected_view == CurrentSelectedView::Listing,
            r.conf_path@ == Seq::<char>::empty(),
            r.conf_state.io_conf == IoTaskStatus::NotStarted,
            r.ssh_state.username is None,
            r.ssh_state.password is None,
            r.ldap_state.username is None,
            r.ldap_state.password is None,
            r.which_sys.ldap && r.which_sys.slurm && r.which_sys.dir,
    {
        UsermgmtWindow {
            selected_view: CurrentSelectedView::Listing,
            conf_path: String::new(),
            conf_state: ConfigurationState { io_conf: IoTaskStatus::NotStarted },
            ssh_state: SshConnectionState { username: None, password: None },
            ldap_state: LdapConnectionState { username: None, password: None },
            which_sys: WhichSystem { ldap: true, slurm: true, dir: true },
        }
    }
}

impl UsermgmtWindow {
    pub fn selected_view(&self) -> (r: CurrentSelectedView)
        ensures
            r == self.selected_view,
    {
        self.selected_view
    }

    pub fn set_selected_view(&mut self, selected_view: CurrentSelectedView)
        ensures
            final(self).selected_view == selected_view,
            final(self).conf_path == old(self).conf_path,
            final(self).conf_state == old(self).conf_state,
            final(self).ssh_state == old(self).ssh_state,
            final(self).ldap_state == old(self).ldap_state,
            final(self).which_sys == old(self).which_sys,
    {
        self.selected_view = selected_view;
    }

    pub fn conf_path_owned(&self) -> (r: String)
        ensures
            r@ == self.conf_path@,
    {
        self.conf_path.clone()
    }

    pub fn set_conf_path(&mut self, new: String)
        ensures
            final(self).conf_path == new,
            final(self).selected_view == old(self).selected_view,
            final(self).conf_state == old(self).conf_state,
            final(self).ssh_state == old(self).ssh_state,
            final(self).ldap_state == old(self).ldap_state,
            final(self).which_sys == old(self).which_sys,
    {
        self.conf_path = new;
    }

    pub fn is_ssh_cred_needed(&self, supporsts_dir: bool) -> (r: bool)
        ensures
            r == ((supporsts_dir && self.which_sys.dir) || self.which_sys.slurm),
    {
        self.which_sys.is_ssh_cred_needed(supporsts_dir)
    }

    pub fn is_ldap_needed(&self) -> (r: bool)
        ensures
            r == self.which_sys.ldap,
    {
        self.which_sys.is_ldap_needed()
    }

    /// The credentials the SSH connection is initialized with, available
    /// once the configuration loaded and a username was typed; an absent
    /// password defaults to empty.
    pub fn create_ssh_credentials(&self) -> (r: Option<SshGivenCredential>)
        ensures
            r is Some <==> (self.conf_state.io_conf == IoTaskStatus::Successful
                && self.ssh_state.username is Some),
            r matches Some(c) ==> (self.ssh_state.username matches Some(u) && c.username@ == u@
                && c.password@ == match self.ssh_state.password {
                Some(p) => p@,
                None => Seq::<char>::empty(),
            }),
    {
        if matches!(self.conf_state.io_conf, IoTaskStatus::Successful) {
            let username = match &self.ssh_state.username {
                Some(u) => u.clone(),
                None => {
                    return None;
                },
            };
            let password = match &self.ssh_state.password {
                Some(p) => p.clone(),
                None => String::new(),
            };
            proof {
                assert(self.ssh_state.username matches Some(u) && username@ == u@);
            }
            Some(SshGivenCredential { username, password })
        } else {
            None
        }
    }

    /// The credentials the LDAP connection is initialized with, available
    /// once both halves were typed.
    pub fn create_ldap_credentials(&self) -> (r: Option<LdapSimpleCredential>)
        ensures
            r is Some <==> (self.ldap_state.username is Some && self.ldap_state.password is Some),
            r matches Some(c) ==> ({
                &&& self.ldap_state.username matches Some(u) && c.username@ == u@
                &&& self.ldap_state.password matches Some(p) && c.password@ == p@
            }),
    {
        let username = match &self.ldap_state.username {
            Some(u) => u.clone(),
            None => {
                return None;
            },
        };
        let password = match &self.ldap_state.password {
            Some(p) => p.clone(),
            None => {
                return None;
            },
        };
        Some(LdapSimpleCredential { username, password })
    }
}

} // verus!

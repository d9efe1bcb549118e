//! Fixed values shared by the command-line and graphical front ends.

use vstd::prelude::*;

verus! {

/// Time limit in milliseconds for a single remote command over SSH.
pub const SSH_TIME_OUT_MILL_SECS: u32 = 3000;

/// Name of the file in which all values for configuration of this app are
/// located besides the CLI arguments.
pub const NAME_CONFIG_FILE: &'static str = "conf.toml";

pub const README_LINK: &'static str = "https://github.com/th-nuernberg/usermgmt/blob/main/README.md";

pub const ISSUE_LINK: &'static str = "https://github.com/th-nuernberg/usermgmt/issues";

pub const REPOSITORY_LINK: &'static str = "https://github.com/th-nuernberg/usermgmt";

pub const MIT_LINK: &'static str = "https://github.com/th-nuernberg/usermgmt/blob/main/LICENSE";

pub const BUG_REPORT: &'static str = "This is a bug. If you see this message as an user of this application,\nplease report this bug as an issue on the issue page of this application.\nLink to issue page: https://github.com/th-nuernberg/usermgmt/issues .";

} // verus!

use usermgmt::constants;
use usermgmt::errors::{ConfigurationError, CredentialError};
use usermgmt::window::{CurrentSelectedView, IoTaskStatus, UsermgmtWindow};

#[test]
fn window_starts_with_everything_selected() {
    let window = UsermgmtWindow::default();
    assert_eq!(window.selected_view(), CurrentSelectedView::Listing);
    assert_eq!(window.conf_path_owned(), "");
    assert!(window.which_sys.ldap && window.which_sys.slurm && window.which_sys.dir);
    assert!(window.is_ldap_needed());
    assert!(window.is_ssh_cred_needed(false));
}

#[test]
fn window_view_and_path_setters() {
    let mut window = UsermgmtWindow::default();
    window.set_selected_view(CurrentSelectedView::Configuration);
    assert_eq!(window.selected_view(), CurrentSelectedView::Configuration);
    window.set_conf_path("/etc/usermgmt/conf.toml".to_owned());
    assert_eq!(window.conf_path_owned(), "/etc/usermgmt/conf.toml");
}

#[test]
fn ssh_credentials_need_loaded_configuration_and_username() {
    let mut window = UsermgmtWindow::default();
    window.ssh_state.username = Some("operator".to_owned());
    window.ssh_state.password = Some("secret".to_owned());
    // Configuration not loaded yet.
    assert!(window.create_ssh_credentials().is_none());

    window.conf_state.io_conf = IoTaskStatus::Successful;
    let cred = window.create_ssh_credentials().unwrap();
    assert_eq!(cred.username, "operator");
    assert_eq!(cred.password, "secret");

    window.ssh_state.username = None;
    assert!(window.create_ssh_credentials().is_none());
}

#[test]
fn ssh_credentials_default_missing_password_to_empty() {
    let mut window = UsermgmtWindow::default();
    window.conf_state.io_conf = IoTaskStatus::Successful;
    window.ssh_state.username = Some("operator".to_owned());
    window.ssh_state.password = None;
    let cred = window.create_ssh_credentials().unwrap();
    assert_eq!(cred.username, "operator");
    assert_eq!(cred.password, "");
}

#[test]
fn ldap_credentials_need_both_halves() {
    let mut window = UsermgmtWindow::default();
    window.ldap_state.username = Some("admin".to_owned());
    assert!(window.create_ldap_credentials().is_none());
    window.ldap_state.password = Some("secret".to_owned());
    let cred = window.create_ldap_credentials().unwrap();
    assert_eq!(cred.username, "admin");
    assert_eq!(cred.password, "secret");
}

#[test]
fn constant_values() {
    assert_eq!(constants::SSH_TIME_OUT_MILL_SECS, 3000);
    assert_eq!(constants::NAME_CONFIG_FILE, "conf.toml");
    assert!(constants::BUG_REPORT.contains(constants::ISSUE_LINK));
    assert!(constants::README_LINK.starts_with(constants::REPOSITORY_LINK));
    assert!(constants::MIT_LINK.starts_with(constants::REPOSITORY_LINK));
}

#[test]
fn error_messages_name_the_failure() {
    assert_eq!(
        CredentialError::NoPasswordProvided.message(),
        "No password provided"
    );
    assert_eq!(CredentialError::NoInputSupplied.message(), "No number supplied");
    assert!(ConfigurationError::EmptyBackendSelection
        .message()
        .contains("no backend selected"));
}

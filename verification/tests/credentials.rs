use usermgmt::credential::{
    parse_index, CliSshCredential, SshCredential, SshPublicKeySuggestion,
};
use usermgmt::errors::CredentialError;

/// Simulates how a front end drives the provider: prompt only when the
/// provider still needs an acquisition, and count how often the prompt ran.
fn access_username(cred: &mut SshCredential, acquisitions: &mut usize) -> String {
    if cred.needs_acquisition() {
        *acquisitions += 1;
        cred.store_acquired(Some("operator".to_owned()), Some("secret".to_owned()))
            .unwrap();
    }
    cred.username().unwrap().clone()
}

fn access_password(cred: &mut SshCredential, acquisitions: &mut usize) -> String {
    if cred.needs_acquisition() {
        *acquisitions += 1;
        cred.store_acquired(Some("operator".to_owned()), Some("secret".to_owned()))
            .unwrap();
    }
    cred.password().unwrap().clone()
}

#[test]
fn username_then_password_triggers_one_acquisition() {
    let mut acquisitions: usize = 0;
    let mut cred = SshCredential::new("default_user".to_owned());
    let username = access_username(&mut cred, &mut acquisitions);
    let password = access_password(&mut cred, &mut acquisitions);
    let username_again = access_username(&mut cred, &mut acquisitions);
    let password_again = access_password(&mut cred, &mut acquisitions);
    assert_eq!(acquisitions, 1);
    assert_eq!(username, "operator");
    assert_eq!(password, "secret");
    assert_eq!(username_again, "operator");
    assert_eq!(password_again, "secret");
}

#[test]
fn empty_username_falls_back_to_default() {
    let mut cred = SshCredential::new("default_user".to_owned());
    cred.store_acquired(Some(String::new()), Some("secret".to_owned()))
        .unwrap();
    assert_eq!(cred.username().unwrap(), "default_user");

    let mut cred = SshCredential::new("default_user".to_owned());
    cred.store_acquired(None, Some("secret".to_owned())).unwrap();
    assert_eq!(cred.username().unwrap(), "default_user");
}

#[test]
fn missing_or_empty_password_fails_acquisition() {
    let mut cred = SshCredential::new("default_user".to_owned());
    let r = cred.store_acquired(Some("operator".to_owned()), None);
    assert_eq!(r, Err(CredentialError::NoPasswordProvided));
    assert!(cred.needs_acquisition());

    let r = cred.store_acquired(Some("operator".to_owned()), Some(String::new()));
    assert_eq!(r, Err(CredentialError::NoPasswordProvided));
    assert!(cred.needs_acquisition());
    assert!(cred.username().is_none());
    assert!(cred.password().is_none());
}

#[test]
fn cli_credential_prompts_separately() {
    let mut cred = CliSshCredential::new("default_user".to_owned());
    assert!(cred.needs_username());
    assert!(cred.needs_password());
    cred.store_username(None);
    assert_eq!(cred.username().unwrap(), "default_user");
    assert!(cred.needs_password());
    let r = cred.store_password(Some("secret".to_owned()));
    assert!(r.is_ok());
    assert_eq!(cred.password().unwrap(), "secret");
}

#[test]
fn cli_credential_rejects_missing_password() {
    let mut cred = CliSshCredential::new("default_user".to_owned());
    assert_eq!(
        cred.store_password(None),
        Err(CredentialError::NoPasswordProvided)
    );
    assert!(cred.needs_password());
}

#[test]
fn parse_index_accepts_digits_only() {
    assert_eq!(parse_index("0"), Some(0));
    assert_eq!(parse_index("3"), Some(3));
    assert_eq!(parse_index("42"), Some(42));
    assert_eq!(parse_index("007"), Some(7));
    assert_eq!(parse_index(""), None);
    assert_eq!(parse_index("one"), None);
    assert_eq!(parse_index("4 "), None);
    assert_eq!(parse_index("-1"), None);
    assert_eq!(parse_index("99999999999999999999999999999999999999"), None);
}

fn three_keys() -> Vec<SshPublicKeySuggestion> {
    vec![
        SshPublicKeySuggestion::new("work laptop".to_owned()),
        SshPublicKeySuggestion::new("build host".to_owned()),
        SshPublicKeySuggestion::new("backup".to_owned()),
    ]
}

#[test]
fn agent_key_choice_rejects_out_of_range_index() {
    let cred = CliSshCredential::new("default_user".to_owned());
    let keys = three_keys();
    // The off-by-one index equal to the candidate count is rejected, not
    // clamped.
    assert_eq!(
        cred.auth_agent_resolve(&keys, Some("3".to_owned())),
        Err(CredentialError::InvalidKeyIndex)
    );
    assert_eq!(
        cred.auth_agent_resolve(&keys, Some("7".to_owned())),
        Err(CredentialError::InvalidKeyIndex)
    );
}

#[test]
fn agent_key_choice_requires_a_number() {
    let cred = CliSshCredential::new("default_user".to_owned());
    let keys = three_keys();
    assert_eq!(
        cred.auth_agent_resolve(&keys, None),
        Err(CredentialError::NoInputSupplied)
    );
    assert_eq!(
        cred.auth_agent_resolve(&keys, Some(String::new())),
        Err(CredentialError::NoInputSupplied)
    );
    assert_eq!(
        cred.auth_agent_resolve(&keys, Some("first".to_owned())),
        Err(CredentialError::NoInputSupplied)
    );
}

#[test]
fn agent_key_choice_returns_the_chosen_index() {
    let cred = CliSshCredential::new("default_user".to_owned());
    let keys = three_keys();
    assert_eq!(cred.auth_agent_resolve(&keys, Some("0".to_owned())), Ok(0));
    assert_eq!(cred.auth_agent_resolve(&keys, Some("1".to_owned())), Ok(1));
    assert_eq!(cred.auth_agent_resolve(&keys, Some("2".to_owned())), Ok(2));
    assert_eq!(keys[1].comment(), "build host");
}

#[test]
fn agent_key_choice_rejects_every_index_without_candidates() {
    let cred = CliSshCredential::new("default_user".to_owned());
    let keys: Vec<SshPublicKeySuggestion> = Vec::new();
    assert_eq!(
        cred.auth_agent_resolve(&keys, Some("0".to_owned())),
        Err(CredentialError::InvalidKeyIndex)
    );
}

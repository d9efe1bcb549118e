use usermgmt::group::Group;
use usermgmt::slurm::{modify_entries, CommandBuilder, Modifier};

#[test]
fn produce_add_username_with_account_and_qos() {
    let input = CommandBuilder::new_add(
        "somebody".to_owned(),
        Group::Staff,
        "student".to_owned(),
        vec!["student".to_owned(), "worker".to_owned()],
    );

    let actual = input.remote_command();
    assert_eq!(
        actual,
        vec![
            "sacctmgr add User somebody Account=staff".to_owned(),
            "sacctmgr modify User somebody set DefaultQOS=student QOS=student,worker".to_owned(),
        ]
    );
}

#[test]
fn produce_immediate_add_username_with_account_and_qos() {
    let input = CommandBuilder::new_add(
        "somebody".to_owned(),
        Group::Staff,
        "student".to_owned(),
        vec!["student".to_owned(), "worker".to_owned()],
    )
    .immediate(true);

    let actual = input.remote_command();
    assert_eq!(
        actual,
        vec![
            "sacctmgr add User somebody Account=staff --immediate".to_owned(),
            "sacctmgr modify User somebody set DefaultQOS=student QOS=student,worker --immediate"
                .to_owned(),
        ]
    );
}

#[test]
fn produce_delete_user_with_seperate_path() {
    let input = CommandBuilder::new_delete("somebody".to_owned())
        .sacctmgr_path("some_path/sacctmgr".to_owned());
    let actual = input.remote_command();
    assert_eq!(actual, vec!["some_path/sacctmgr delete User somebody".to_owned()]);
}

#[test]
fn produce_delete_user_with_local_command() {
    let input = CommandBuilder::new_delete("somebody".to_owned())
        .sacctmgr_path("some_path/sacctmgr".to_owned());
    let actual = input.local_command_parts();
    assert_eq!(actual.len(), 1);
    assert_eq!(actual[0].0, "some_path/sacctmgr");
    assert_eq!(
        actual[0].1,
        vec!["delete".to_owned(), "User".to_owned(), "somebody".to_owned()]
    );
}

#[test]
fn list_user() {
    let input = CommandBuilder::new_show(false).sacctmgr_path("some_path/sacctmgr".to_owned());
    let actual = input.remote_command();
    assert_eq!(
        actual,
        vec!["some_path/sacctmgr show assoc format=User%30,Account,DefaultQOS,QOS%80".to_owned()]
    );
}

#[test]
fn list_user_parserable() {
    let input = CommandBuilder::new_show(true).sacctmgr_path("some_path/sacctmgr".to_owned());
    let actual = input.remote_command();
    assert_eq!(
        actual,
        vec![
            "some_path/sacctmgr --parsable show assoc format=User,Account,DefaultQOS,QOS"
                .to_owned()
        ]
    );
}

#[test]
fn modify_user() {
    let map = vec![
        (
            Modifier::Qos,
            vec!["basic".to_string(), "interactive".to_string()],
        ),
        (Modifier::DefaultQOS, vec!["basic".to_string()]),
    ];
    let input = CommandBuilder::new_modify("somebody".to_owned(), map);
    let actual = input.remote_command();
    assert_eq!(
        actual,
        vec!["sacctmgr modify User somebody set QOS=basic,interactive DefaultQOS=basic".to_owned()]
    );
}

#[test]
fn add_with_empty_qos_list_still_two_sub_commands() {
    let input = CommandBuilder::new_add(
        "somebody".to_owned(),
        Group::Student,
        "basic".to_owned(),
        Vec::new(),
    );
    let actual = input.remote_command();
    assert_eq!(
        actual,
        vec![
            "sacctmgr add User somebody Account=student".to_owned(),
            "sacctmgr modify User somebody set DefaultQOS=basic QOS=".to_owned(),
        ]
    );
}

#[test]
fn immediate_marker_on_single_sub_command() {
    let input = CommandBuilder::new_delete("somebody".to_owned()).immediate(true);
    let actual = input.remote_command();
    assert_eq!(actual, vec!["sacctmgr delete User somebody --immediate".to_owned()]);
}

#[test]
fn modifier_names() {
    assert_eq!(Modifier::Qos.to_static_ref(), "QOS");
    assert_eq!(Modifier::DefaultQOS.to_static_ref(), "DefaultQOS");
    assert_eq!(Modifier::Account.to_static_ref(), "Account");
    assert_eq!(Group::Staff.name(), "staff");
    assert_eq!(Group::Student.name(), "student");
}

#[test]
fn omitted_modify_fields_yield_no_entries() {
    let data = usermgmt::cli::Modifiable {
        username: "somebody".to_owned(),
        firstname: None,
        lastname: None,
        mail: None,
        default_qos: None,
        publickey: None,
        qos: Vec::new(),
    };
    let entries = modify_entries(&data);
    assert!(entries.is_empty());
}

#[test]
fn supplied_empty_default_qos_appears_with_empty_value() {
    let data = usermgmt::cli::Modifiable {
        username: "somebody".to_owned(),
        firstname: None,
        lastname: None,
        mail: None,
        default_qos: Some(String::new()),
        publickey: None,
        qos: Vec::new(),
    };
    let entries = modify_entries(&data);
    assert_eq!(entries.len(), 1);
    assert_eq!(entries[0].0, Modifier::DefaultQOS);
    assert_eq!(entries[0].1, vec![String::new()]);

    let line = CommandBuilder::new_modify("somebody".to_owned(), entries).remote_command();
    assert_eq!(line, vec!["sacctmgr modify User somebody set DefaultQOS=".to_owned()]);
}

#[test]
fn supplied_modify_fields_appear_in_order() {
    let data = usermgmt::cli::Modifiable {
        username: "somebody".to_owned(),
        firstname: None,
        lastname: None,
        mail: None,
        default_qos: Some("basic".to_owned()),
        publickey: None,
        qos: vec!["basic".to_owned(), "interactive".to_owned()],
    };
    let entries = modify_entries(&data);
    assert_eq!(entries.len(), 2);
    assert_eq!(entries[0].0, Modifier::DefaultQOS);
    assert_eq!(entries[0].1, vec!["basic".to_owned()]);
    assert_eq!(entries[1].0, Modifier::Qos);
    assert_eq!(entries[1].1, vec!["basic".to_owned(), "interactive".to_owned()]);
}

#[test]
fn join_strings_puts_separator_between_parts() {
    let parts = vec!["a".to_owned(), "b".to_owned(), "c".to_owned()];
    assert_eq!(usermgmt::strutil::join_strings(&parts, ","), "a,b,c");
    let one = vec!["alone".to_owned()];
    assert_eq!(usermgmt::strutil::join_strings(&one, " "), "alone");
    let none: Vec<String> = Vec::new();
    assert_eq!(usermgmt::strutil::join_strings(&none, " "), "");
}

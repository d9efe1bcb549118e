//! Lowering a logical user operation to the ordered sequence of accounting
//! tool invocations.
//!
//! The accounting backend imposes an ordering constraint: a user/account
//! association must exist before per-user QOS attributes can be set, and a
//! user must already hold a QOS set before a default QOS can be assigned.
//! [`CommandBuilder::new_add`] therefore always yields exactly two
//! sub-commands, the `add` before the `modify`, and never fuses or reorders
//! them — even when the QOS list is empty.
//!
//! Lowering is deterministic and pure: identical logical input always
//! produces the same command sequence, including argument order, so the
//! exact text that will be executed can be logged and tested.

use vstd::prelude::*;

use crate::cli::Modifiable;
use crate::group::Group;
use crate::strutil::{join_sep, join_strings, lemma_join_push, views_of};

verus! {

/// An attribute of a user that the accounting tool can modify.
#[derive(Clone, Copy, PartialEq, Eq, Structural, Debug)]
pub enum Modifier {
    Qos,
    DefaultQOS,
    Account,
}

impl Modifier {
    /// The attribute name as the accounting tool spells it.
    pub open spec fn spec_str(&self) -> Seq<char> {
        match self {
            Modifier::Qos => "QOS"@,
            Modifier::DefaultQOS => "DefaultQOS"@,
            Modifier::Account => "Account"@,
        }
    }

    /// The attribute name as the accounting tool spells it.
    pub fn to_static_ref(&self) -> (r: &'static str)
        ensures
            r@ == self.spec_str(),
    {
        match self {
            Modifier::Qos => "QOS",
            Modifier::DefaultQOS => "DefaultQOS",
            Modifier::Account => "Account",
        }
    }
}

/// One discrete administrative command frame for the accounting tool.
///
/// The modify payload is an ordered list of attribute/values pairs: the
/// order in which the caller supplies attributes is the order in which they
/// appear on the command line.
#[derive(Debug)]
pub enum SlurmSubCommand {
    Add { group: Group },
    Delete,
    Modify(Vec<(Modifier, Vec<String>)>),
    Show { parseable: bool },
}

/// The command-line text of one `attribute=value,...` assignment.
pub open spec fn spec_modify_entry(key: Modifier, values: Seq<Seq<char>>) -> Seq<char> {
    key.spec_str() + "="@ + join_sep(values, ","@)
}

/// The assignment texts of a modify payload, in payload order.
pub open spec fn spec_entry_views(entries: Seq<(Modifier, Vec<String>)>) -> Seq<Seq<char>> {
    entries.map_values(|e: (Modifier, Vec<String>)| spec_modify_entry(e.0, views_of(e.1@)))
}

/// The argument words a sub-command lowers to, for the given username.
///
/// The listing format names the fields in the fixed order
/// `User, Account, DefaultQOS, QOS`; the username column is padded to 30
/// and the QOS column to 80 in the human-readable form, while the
/// machine-readable (parseable) form is unpadded.
pub open spec fn spec_sub_args(cmd: SlurmSubCommand, username: Seq<char>) -> Seq<Seq<char>> {
    match cmd {
        SlurmSubCommand::Add { group } => seq![
            "add"@,
            "User"@,
            username,
            "Account="@ + group.spec_name(),
        ],
        SlurmSubCommand::Delete => seq!["delete"@, "User"@, username],
        SlurmSubCommand::Modify(entries) => seq!["modify"@, "User"@, username, "set"@]
            + spec_entry_views(entries@),
        SlurmSubCommand::Show { parseable } => if parseable {
            seq!["--parsable"@, "show"@, "assoc"@, "format=User,Account,DefaultQOS,QOS"@]
        } else {
            seq!["show"@, "assoc"@, "format=User%30,Account,DefaultQOS,QOS%80"@]
        },
    }
}

/// The argument words of a sub-command with the immediate marker appended
/// when requested.  The marker suppresses the accounting tool's interactive
/// confirmation prompt and is applied uniformly to every sub-command of a
/// sequence, never just the first.
pub open spec fn spec_command_args(
    cmd: SlurmSubCommand,
    username: Seq<char>,
    immediate: bool,
) -> Seq<Seq<char>> {
    spec_sub_args(cmd, username) + if immediate {
        seq!["--immediate"@]
    } else {
        Seq::<Seq<char>>::empty()
    }
}

/// One line of the remote execution form: the tool path and the argument
/// words, space-joined.
pub open spec fn spec_remote_line(
    path: Seq<char>,
    cmd: SlurmSubCommand,
    username: Seq<char>,
    immediate: bool,
) -> Seq<char> {
    join_sep(seq![path] + spec_command_args(cmd, username, immediate), " "@)
}

/// Lower one sub-command to its argument words for the given username.
pub fn from_username(value: SlurmSubCommand, username: String) -> (r: Vec<String>)
    ensures
        views_of(r@) == spec_sub_args(value, username@),
{
    match value {
        SlurmSubCommand::Add { group } => {
            let mut r: Vec<String> = Vec::new();
            r.push(String::from_str("add"));
            r.push(String::from_str("User"));
            r.push(username);
            r.push(String::from_str("Account=").concat(group.name()));
            proof {
                assert(views_of(r@) =~~= spec_sub_args(SlurmSubCommand::Add { group }, username@));
            }
            r
        },
        SlurmSubCommand::Delete => {
            let mut r: Vec<String> = Vec::new();
            r.push(String::from_str("delete"));
            r.push(String::from_str("User"));
            r.push(username);
            proof {
                assert(views_of(r@) =~~= spec_sub_args(SlurmSubCommand::Delete, username@));
            }
            r
        },
        SlurmSubCommand::Modify(entries) => {
            let ghost base: Seq<Seq<char>> = seq!["modify"@, "User"@, username@, "set"@];
            let mut r: Vec<String> = Vec::new();
            r.push(String::from_str("modify"));
            r.push(String::from_str("User"));
            r.push(username);
            r.push(String::from_str("set"));
            proof {
                assert(views_of(r@) =~~= base + spec_entry_views(entries@.take(0)));
            }
            let mut i: usize = 0;
            while i < entries.len()
                invariant
                    i <= entries@.len(),
                    views_of(r@) == base + spec_entry_views(entries@.take(i as int)),
                decreases entries@.len() - i,
            {
                let pair = &entries[i];
                let joined = join_strings(&pair.1, ",");
                let line = String::from_str(pair.0.to_static_ref()).concat("=").concat(
                    joined.as_str(),
                );
                proof {
                    assert(line@ == spec_modify_entry(
                        entries@[i as int].0,
                        views_of(entries@[i as int].1@),
                    ));
                }
                let ghost prev = r@;
                r.push(line);
                proof {
                    assert(r@ == prev.push(line));
                    assert(views_of(r@) =~~= views_of(prev).push(line@));
                    assert(entries@.take(i + 1) =~~= entries@.take(i as int).push(entries@[i as int]));
                    assert(spec_entry_views(entries@.take(i + 1)) =~~= spec_entry_views(
                        entries@.take(i as int),
                    ).push(spec_modify_entry(entries@[i as int].0, views_of(entries@[i as int].1@))));
                    assert(views_of(r@) =~~= base + spec_entry_views(entries@.take(i + 1)));
                }
                i += 1;
            }
            proof {
                assert(entries@.take(entries@.len() as int) =~~= entries@);
                assert(views_of(r@) =~~= spec_sub_args(
                    SlurmSubCommand::Modify(entries),
                    username@,
                ));
            }
            r
        },
        SlurmSubCommand::Show { parseable } => {
            let mut r: Vec<String> = Vec::new();
            if parseable {
                r.push(String::from_str("--parsable"));
                r.push(String::from_str("show"));
                r.push(String::from_str("assoc"));
                r.push(String::from_str("format=User,Account,DefaultQOS,QOS"));
            } else {
                r.push(String::from_str("show"));
                r.push(String::from_str("assoc"));
                r.push(String::from_str("format=User%30,Account,DefaultQOS,QOS%80"));
            }
            proof {
                assert(views_of(r@) =~~= spec_sub_args(
                    SlurmSubCommand::Show { parseable },
                    username@,
                ));
            }
            r
        },
    }
}

/// An ordered command sequence for one logical operation: the sub-commands
/// in execution order, the shared username, the immediate flag, and the
/// path to the accounting tool binary.
pub struct CommandBuilder {
    pub sub_commands: Vec<SlurmSubCommand>,
    pub username: String,
    pub immediate: bool,
    pub sacctmgr_path: String,
}

impl CommandBuilder {
    pub fn new_inner(username: String, sub_commands: Vec<SlurmSubCommand>) -> (r: Self)
        ensures
            r.username == username,
            r.sub_commands == sub_commands,
            r.immediate == false,
            r.sacctmgr_path@ == "sacctmgr"@,
    {
        CommandBuilder {
            sub_commands,
            username,
            immediate: false,
            sacctmgr_path: String::from_str("sacctmgr"),
        }
    }

    /// A sequence that removes the user from the accounting system:
    /// exactly one `delete` sub-command.
    pub fn new_delete(username: String) -> (r: Self)
        ensures
            r.username == username,
            r.immediate == false,
            r.sacctmgr_path@ == "sacctmgr"@,
            r.sub_commands@ == seq![SlurmSubCommand::Delete],
    {
        let mut sub_commands: Vec<SlurmSubCommand> = Vec::new();
        sub_commands.push(SlurmSubCommand::Delete);
        proof {
            assert(sub_commands@ =~= seq![SlurmSubCommand::Delete]);
        }
        Self::new_inner(username, sub_commands)
    }

    /// A sequence that lists users: exactly one `show` sub-command; no
    /// username takes part in it.
    pub fn new_show(parseable: bool) -> (r: Self)
        ensures
            r.username@ == Seq::<char>::empty(),
            r.immediate == false,
            r.sacctmgr_path@ == "sacctmgr"@,
            r.sub_commands@ == seq![SlurmSubCommand::Show { parseable }],
    {
        let mut sub_commands: Vec<SlurmSubCommand> = Vec::new();
        sub_commands.push(SlurmSubCommand::Show { parseable });
        proof {
            assert(sub_commands@ =~= seq![SlurmSubCommand::Show { parseable }]);
        }
        Self::new_inner(String::new(), sub_commands)
    }

    /// A sequence that changes attributes of an existing user: exactly one
    /// `modify` sub-command carrying the given attribute assignments in the
    /// given order.
    pub fn new_modify(username: String, modifier: Vec<(Modifier, Vec<String>)>) -> (r: Self)
        ensures
            r.username == username,
            r.immediate == false,
            r.sacctmgr_path@ == "sacctmgr"@,
            r.sub_commands@ == seq![SlurmSubCommand::Modify(modifier)],
    {
        let mut sub_commands: Vec<SlurmSubCommand> = Vec::new();
        sub_commands.push(SlurmSubCommand::Modify(modifier));
        proof {
            assert(sub_commands@.len() == 1);
        }
        Self::new_inner(username, sub_commands)
    }

    /// A sequence that assigns the default QOS and the QOS set of an
    /// existing user, default QOS first.
    pub fn new_modify_qos_default_qows(username: String, default_qos: String, qos: Vec<String>) -> (r:
        Self)
        ensures
            r.username == username,
            r.immediate == false,
            r.sacctmgr_path@ == "sacctmgr"@,
            r.sub_commands@.len() == 1,
            r.sub_commands@[0] is Modify,
            spec_entry_views(r.sub_commands@[0]->Modify_0@) == seq![
                spec_modify_entry(Modifier::DefaultQOS, seq![default_qos@]),
                spec_modify_entry(Modifier::Qos, views_of(qos@)),
            ],
    {
        let entries = Self::qos_entries(default_qos, qos);
        Self::new_modify(username, entries)
    }

    /// The attribute assignments `DefaultQOS=...` then `QOS=...`.
    fn qos_entries(default_qos: String, qos: Vec<String>) -> (r: Vec<(Modifier, Vec<String>)>)
        ensures
            spec_entry_views(r@) == seq![
                spec_modify_entry(Modifier::DefaultQOS, seq![default_qos@]),
                spec_modify_entry(Modifier::Qos, views_of(qos@)),
            ],
    {
        let mut default_values: Vec<String> = Vec::new();
        let ghost dq = default_qos@;
        default_values.push(default_qos);
        let mut entries: Vec<(Modifier, Vec<String>)> = Vec::new();
        entries.push((Modifier::DefaultQOS, default_values));
        entries.push((Modifier::Qos, qos));
        proof {
            assert(views_of(entries@[0].1@) =~~= seq![dq]);
            assert(spec_entry_views(entries@) =~~= seq![
                spec_modify_entry(Modifier::DefaultQOS, seq![dq]),
                spec_modify_entry(Modifier::Qos, views_of(entries@[1].1@)),
            ]);
        }
        entries
    }

    /// A sequence that creates a user.
    ///
    /// The accounting backend requires the user/account association to
    /// exist before per-user QOS attributes can be set, and requires the
    /// user to already hold a QOS set before a default QOS can be assigned.
    /// The sequence is therefore always exactly two sub-commands in fixed
    /// order — the `add` creating the association, then the `modify`
    /// assigning default QOS and QOS set — even when the QOS list is empty.
    pub fn new_add(username: String, group: Group, default_qos: String, qos: Vec<String>) -> (r:
        Self)
        ensures
            r.username == username,
            r.immediate == false,
            r.sacctmgr_path@ == "sacctmgr"@,
            r.sub_commands@.len() == 2,
            r.sub_commands@[0] == (SlurmSubCommand::Add { group }),
            r.sub_commands@[1] is Modify,
            spec_entry_views(r.sub_commands@[1]->Modify_0@) == seq![
                spec_modify_entry(Modifier::DefaultQOS, seq![default_qos@]),
                spec_modify_entry(Modifier::Qos, views_of(qos@)),
            ],
    {
        let entries = Self::qos_entries(default_qos, qos);
        let mut sub_commands: Vec<SlurmSubCommand> = Vec::new();
        sub_commands.push(SlurmSubCommand::Add { group });
        sub_commands.push(SlurmSubCommand::Modify(entries));
        proof {
            assert(sub_commands@.len() == 2);
        }
        Self::new_inner(username, sub_commands)
    }

    /// Request that every sub-command of the sequence carry the marker that
    /// suppresses the tool's interactive confirmation prompt.
    pub fn immediate(self, immediate: bool) -> (r: Self)
        ensures
            r.username == self.username,
            r.sub_commands == self.sub_commands,
            r.sacctmgr_path == self.sacctmgr_path,
            r.immediate == immediate,
    {
        let mut s = self;
        s.immediate = immediate;
        s
    }

    /// Use the accounting tool under the given path instead of relying on
    /// the environment to resolve its bare name.
    pub fn sacctmgr_path(self, sacctmgr_path: String) -> (r: Self)
        ensures
            r.username == self.username,
            r.sub_commands == self.sub_commands,
            r.immediate == self.immediate,
            r.sacctmgr_path == sacctmgr_path,
    {
        let mut s = self;
        s.sacctmgr_path = sacctmgr_path;
        s
    }

    /// One space-joined command line per sub-command, each starting with
    /// the tool path, in sub-command order — the form handed to a remote
    /// shell session.
    pub fn remote_command(self) -> (r: Vec<String>)
        ensures
            r@.len() == self.sub_commands@.len(),
            forall|i: int|
                0 <= i < r@.len() ==> (#[trigger] r@[i])@ == spec_remote_line(
                    self.sacctmgr_path@,
                    self.sub_commands@[i],
                    self.username@,
                    self.immediate,
                ),
    {
        let CommandBuilder { sub_commands, username, immediate, sacctmgr_path } = self;
        let ghost cmds = sub_commands@;
        let args = Self::construct_args(username, immediate, sub_commands);
        let ghost argseq = args@;
        let mut rest = args;
        let mut r: Vec<String> = Vec::new();
        while rest.len() > 0
            invariant
                argseq.len() == cmds.len(),
                argseq.len() == r@.len() + rest@.len(),
                rest@ == argseq.skip(r@.len() as int),
                forall|i: int|
                    0 <= i < argseq.len() ==> views_of((#[trigger] argseq[i])@) == spec_command_args(
                        cmds[i],
                        self.username@,
                        immediate,
                    ),
                forall|i: int|
                    0 <= i < r@.len() ==> (#[trigger] r@[i])@ == spec_remote_line(
                        sacctmgr_path@,
                        cmds[i],
                        self.username@,
                        immediate,
                    ),
            decreases rest@.len(),
        {
            let ghost k = r@.len() as int;
            let mut a = rest.remove(0);
            proof {
                assert(argseq.skip(k)[0] == argseq[k]);
                assert(rest@ =~= argseq.skip(k + 1));
            }
            let ghost aview = a@;
            let mut full: Vec<String> = Vec::new();
            full.push(sacctmgr_path.clone());
            full.append(&mut a);
            proof {
                assert(views_of(full@) =~~= seq![sacctmgr_path@] + views_of(aview));
            }
            let line = join_strings(&full, " ");
            r.push(line);
        }
        r
    }

    /// The tool path and argument words of each sub-command, in order — the
    /// form handed to local subprocess execution.
    pub fn local_command_parts(self) -> (r: Vec<(String, Vec<String>)>)
        ensures
            r@.len() == self.sub_commands@.len(),
            forall|i: int|
                0 <= i < r@.len() ==> (#[trigger] r@[i]).0@ == self.sacctmgr_path@
                    && views_of(r@[i].1@) == spec_command_args(
                    self.sub_commands@[i],
                    self.username@,
                    self.immediate,
                ),
    {
        let CommandBuilder { sub_commands, username, immediate, sacctmgr_path } = self;
        let ghost cmds = sub_commands@;
        let args = Self::construct_args(username, immediate, sub_commands);
        let ghost argseq = args@;
        let mut rest = args;
        let mut r: Vec<(String, Vec<String>)> = Vec::new();
        while rest.len() > 0
            invariant
                argseq.len() == cmds.len(),
                argseq.len() == r@.len() + rest@.len(),
                rest@ == argseq.skip(r@.len() as int),
                forall|i: int|
                    0 <= i < argseq.len() ==> views_of((#[trigger] argseq[i])@) == spec_command_args(
                        cmds[i],
                        self.username@,
                        immediate,
                    ),
                forall|i: int|
                    0 <= i < r@.len() ==> (#[trigger] r@[i]).0@ == sacctmgr_path@
                        && views_of(r@[i].1@) == spec_command_args(cmds[i], self.username@, immediate),
            decreases rest@.len(),
        {
            let ghost k = r@.len() as int;
            let a = rest.remove(0);
            proof {
                assert(argseq.skip(k)[0] == argseq[k]);
                assert(rest@ =~= argseq.skip(k + 1));
            }
            r.push((sacctmgr_path.clone(), a));
        }
        r
    }

    /// Lower every sub-command to its argument words, appending the
    /// immediate marker to each one when the flag is set.
    pub fn construct_args(username: String, immediate: bool, sub_commands: Vec<SlurmSubCommand>) -> (r:
        Vec<Vec<String>>)
        ensures
            r@.len() == sub_commands@.len(),
            forall|i: int|
                0 <= i < r@.len() ==> views_of((#[trigger] r@[i])@) == spec_command_args(
                    sub_commands@[i],
                    username@,
                    immediate,
                ),
    {
        let ghost cmds = sub_commands@;
        let mut rest = sub_commands;
        let mut r: Vec<Vec<String>> = Vec::new();
        while rest.len() > 0
            invariant
                cmds.len() == r@.len() + rest@.len(),
                rest@ == cmds.skip(r@.len() as int),
                forall|i: int|
                    0 <= i < r@.len() ==> views_of((#[trigger] r@[i])@) == spec_command_args(
                        cmds[i],
                        username@,
                        immediate,
                    ),
            decreases rest@.len(),
        {
            let ghost k = r@.len() as int;
            let cmd = rest.remove(0);
            proof {
                assert(cmds.skip(k)[0] == cmds[k]);
                assert(rest@ =~= cmds.skip(k + 1));
            }
            let mut args = from_username(cmd, username.clone());
            if immediate {
                let ghost prev = args@;
                args.push(String::from_str("--immediate"));
                proof {
                    assert(views_of(args@) =~~= views_of(prev).push("--immediate"@));
                }
            }
            proof {
                assert(views_of(args@) =~~= spec_command_args(cmds[k], username@, immediate));
            }
            r.push(args);
        }
        r
    }
}

/// The accounting attributes a modify request supplies, in the fixed order
/// default QOS then QOS set.  An omitted optional field contributes no
/// entry at all; a supplied field contributes one even when its value is
/// the empty string.
pub open spec fn spec_modify_attrs(data: Modifiable) -> Seq<(Modifier, Seq<Seq<char>>)> {
    (if data.default_qos is Some {
        seq![(Modifier::DefaultQOS, seq![data.default_qos->0@])]
    } else {
        Seq::<(Modifier, Seq<Seq<char>>)>::empty()
    }) + (if data.qos@.len() > 0 {
        seq![(Modifier::Qos, views_of(data.qos@))]
    } else {
        Seq::<(Modifier, Seq<Seq<char>>)>::empty()
    })
}

/// Build the modify payload for the attributes the caller actually
/// supplied: absence means "leave unchanged" and yields no entry, while a
/// supplied empty string yields an entry with an empty value.
pub fn modify_entries(data: &Modifiable) -> (r: Vec<(Modifier, Vec<String>)>)
    ensures
        r@.len() == spec_modify_attrs(*data).len(),
        forall|j: int|
            0 <= j < r@.len() ==> (#[trigger] r@[j]).0 == spec_modify_attrs(*data)[j].0 && views_of(
                r@[j].1@,
            ) == spec_modify_attrs(*data)[j].1,
{
    let mut r: Vec<(Modifier, Vec<String>)> = Vec::new();
    if let Some(default_qos) = &data.default_qos {
        let mut values: Vec<String> = Vec::new();
        values.push(default_qos.clone());
        proof {
            assert(views_of(values@) =~~= seq![data.default_qos->0@]);
        }
        r.push((Modifier::DefaultQOS, values));
    }
    if data.qos.len() > 0 {
        r.push((Modifier::Qos, data.qos.clone()));
    }
    r
}

/// An omitted optional field never appears as a key of the modify payload,
/// while a supplied field always does — even with an empty value.
pub proof fn lemma_omitted_fields_never_appear(data: Modifiable)
    ensures
        data.default_qos is None ==> forall|j: int|
            0 <= j < spec_modify_attrs(data).len() ==> (#[trigger] spec_modify_attrs(data)[j]).0
                != Modifier::DefaultQOS,
        data.qos@.len() == 0 ==> forall|j: int|
            0 <= j < spec_modify_attrs(data).len() ==> (#[trigger] spec_modify_attrs(data)[j]).0
                != Modifier::Qos,
        data.default_qos matches Some(d) ==> exists|j: int|
            0 <= j < spec_modify_attrs(data).len() && #[trigger] spec_modify_attrs(data)[j] == (
            Modifier::DefaultQOS,
            seq![d@],
            ),
        data.qos@.len() > 0 ==> exists|j: int|
            0 <= j < spec_modify_attrs(data).len() && #[trigger] spec_modify_attrs(data)[j] == (
            Modifier::Qos,
            views_of(data.qos@),
            ),
{
    if data.default_qos is Some {
        assert(spec_modify_attrs(data)[0] == (Modifier::DefaultQOS, seq![data.default_qos->0@]));
    }
    if data.qos@.len() > 0 {
        let k = spec_modify_attrs(data).len() - 1;
        assert(spec_modify_attrs(data)[k] == (Modifier::Qos, views_of(data.qos@)));
    }
}

/// The immediate marker is appended to every sub-command of a sequence:
/// with the flag set, each lowered argument vector is the unflagged vector
/// plus the marker, and each remote line is the unflagged line plus a space
/// and the marker.
pub proof fn lemma_immediate_appends_to_every_sub_command(
    path: Seq<char>,
    cmd: SlurmSubCommand,
    username: Seq<char>,
)
    ensures
        spec_command_args(cmd, username, true) == spec_command_args(cmd, username, false).push(
            "--immediate"@,
        ),
        spec_remote_line(path, cmd, username, true) == spec_remote_line(path, cmd, username, false)
            + " "@ + "--immediate"@,
{
    assert(spec_command_args(cmd, username, true) =~~= spec_command_args(cmd, username, false).push(
        "--immediate"@,
    ));
    let base = seq![path] + spec_command_args(cmd, username, false);
    lemma_join_push(base, " "@, "--immediate"@);
    assert(seq![path] + spec_command_args(cmd, username, true) =~~= base.push("--immediate"@));
}

} // verus!

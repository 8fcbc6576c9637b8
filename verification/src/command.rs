//! Chat commands, who may use them, and the names that they go by.
use vstd::prelude::*;

use crate::text::{has_text, texts};

verus! {

/// The standing of a chat user, or the standing that a command asks for.
#[derive(Clone, Copy, Debug, PartialEq, Eq, Structural)]
pub enum Permission {
    Admin,
    Mod,
    Public,
}

/// The scenes that a configuration may name beside those of the switcher.
#[derive(Clone, Copy, Debug, PartialEq, Eq, Structural)]
pub enum OptionalScene {
    Privacy,
    Starting,
    Ending,
}

/// The channel that a raid goes to.
#[derive(Debug, PartialEq, Eq)]
pub struct RaidedInfo {
    pub target: String,
    pub display: String,
}

/// A [`RaidedInfo`] as characters.
pub struct RaidedInfoView {
    pub target: Seq<char>,
    pub display: Seq<char>,
}

impl View for RaidedInfo {
    type V = RaidedInfoView;

    open spec fn view(&self) -> RaidedInfoView {
        RaidedInfoView { target: self.target@, display: self.display@ }
    }
}

impl Clone for RaidedInfo {
    fn clone(&self) -> (r: Self)
        ensures
            r@ == self@,
    {
        RaidedInfo { target: self.target.clone(), display: self.display.clone() }
    }
}

/// Everything that can be asked for in chat, and stopping for a raid.
#[derive(Debug, PartialEq, Eq)]
pub enum Command {
    Alias,
    Autostop,
    Bitrate,
    Collection,
    EndingScene,
    Fix,
    LiveScene,
    Mod,
    Mute,
    Noalbs,
    Notify,
    Ortrigger,
    Otrigger,
    PrivacyScene,
    Public,
    Rec,
    Refresh,
    Rtrigger,
    ServerInfo,
    Source,
    Sourceinfo,
    Start,
    StartingScene,
    Stop,
    StopOnRaid(RaidedInfo),
    Switch,
    Trigger,
    /// A word that names no command.
    Unknown(String),
    Version,
}

/// A [`Command`] with its texts as characters.
pub enum CommandView {
    Alias,
    Autostop,
    Bitrate,
    Collection,
    EndingScene,
    Fix,
    LiveScene,
    Mod,
    Mute,
    Noalbs,
    Notify,
    Ortrigger,
    Otrigger,
    PrivacyScene,
    Public,
    Rec,
    Refresh,
    Rtrigger,
    ServerInfo,
    Source,
    Sourceinfo,
    Start,
    StartingScene,
    Stop,
    StopOnRaid(RaidedInfoView),
    Switch,
    Trigger,
    Unknown(Seq<char>),
    Version,
}

impl View for Command {
    type V = CommandView;

    open spec fn view(&self) -> CommandView {
        match self {
            Command::Alias => CommandView::Alias,
            Command::Autostop => CommandView::Autostop,
            Command::Bitrate => CommandView::Bitrate,
            Command::Collection => CommandView::Collection,
            Command::EndingScene => CommandView::EndingScene,
            Command::Fix => CommandView::Fix,
            Command::LiveScene => CommandView::LiveScene,
            Command::Mod => CommandView::Mod,
            Command::Mute => CommandView::Mute,
            Command::Noalbs => CommandView::Noalbs,
            Command::Notify => CommandView::Notify,
            Command::Ortrigger => CommandView::Ortrigger,
            Command::Otrigger => CommandView::Otrigger,
            Command::PrivacyScene => CommandView::PrivacyScene,
            Command::Public => CommandView::Public,
            Command::Rec => CommandView::Rec,
            Command::Refresh => CommandView::Refresh,
            Command::Rtrigger => CommandView::Rtrigger,
            Command::ServerInfo => CommandView::ServerInfo,
            Command::Source => CommandView::Source,
            Command::Sourceinfo => CommandView::Sourceinfo,
            Command::Start => CommandView::Start,
            Command::StartingScene => CommandView::StartingScene,
            Command::Stop => CommandView::Stop,
            Command::StopOnRaid(info) => CommandView::StopOnRaid(info@),
            Command::Switch => CommandView::Switch,
            Command::Trigger => CommandView::Trigger,
            Command::Unknown(word) => CommandView::Unknown(word@),
            Command::Version => CommandView::Version,
        }
    }
}

impl Clone for Command {
    fn clone(&self) -> (r: Self)
        ensures
            r@ == self@,
    {
        match self {
            Command::Alias => Command::Alias,
            Command::Autostop => Command::Autostop,
            Command::Bitrate => Command::Bitrate,
            Command::Collection => Command::Collection,
            Command::EndingScene => Command::EndingScene,
            Command::Fix => Command::Fix,
            Command::LiveScene => Command::LiveScene,
            Command::Mod => Command::Mod,
            Command::Mute => Command::Mute,
            Command::Noalbs => Command::Noalbs,
            Command::Notify => Command::Notify,
            Command::Ortrigger => Command::Ortrigger,
            Command::Otrigger => Command::Otrigger,
            Command::PrivacyScene => Command::PrivacyScene,
            Command::Public => Command::Public,
            Command::Rec => Command::Rec,
            Command::Refresh => Command::Refresh,
            Command::Rtrigger => Command::Rtrigger,
            Command::ServerInfo => Command::ServerInfo,
            Command::Source => Command::Source,
            Command::Sourceinfo => Command::Sourceinfo,
            Command::Start => Command::Start,
            Command::StartingScene => Command::StartingScene,
            Command::Stop => Command::Stop,
            Command::StopOnRaid(info) => Command::StopOnRaid(info.clone()),
            Command::Switch => Command::Switch,
            Command::Trigger => Command::Trigger,
            Command::Unknown(word) => Command::Unknown(word.clone()),
            Command::Version => Command::Version,
        }
    }
}

impl Command {
    /// Whether two commands are the same, their texts compared by characters.
    pub fn same(&self, other: &Command) -> (r: bool)
        ensures
            r == (self@ == other@),
    {
        match (self, other) {
            (Command::Alias, Command::Alias) => true,
            (Command::Autostop, Command::Autostop) => true,
            (Command::Bitrate, Command::Bitrate) => true,
            (Command::Collection, Command::Collection) => true,
            (Command::EndingScene, Command::EndingScene) => true,
            (Command::Fix, Command::Fix) => true,
            (Command::LiveScene, Command::LiveScene) => true,
            (Command::Mod, Command::Mod) => true,
            (Command::Mute, Command::Mute) => true,
            (Command::Noalbs, Command::Noalbs) => true,
            (Command::Notify, Command::Notify) => true,
            (Command::Ortrigger, Command::Ortrigger) => true,
            (Command::Otrigger, Command::Otrigger) => true,
            (Command::PrivacyScene, Command::PrivacyScene) => true,
            (Command::Public, Command::Public) => true,
            (Command::Rec, Command::Rec) => true,
            (Command::Refresh, Command::Refresh) => true,
            (Command::Rtrigger, Command::Rtrigger) => true,
            (Command::ServerInfo, Command::ServerInfo) => true,
            (Command::Source, Command::Source) => true,
            (Command::Sourceinfo, Command::Sourceinfo) => true,
            (Command::Start, Command::Start) => true,
            (Command::StartingScene, Command::StartingScene) => true,
            (Command::Stop, Command::Stop) => true,
            (Command::StopOnRaid(a), Command::StopOnRaid(b)) => a.target == b.target && a.display
                == b.display,
            (Command::Switch, Command::Switch) => true,
            (Command::Trigger, Command::Trigger) => true,
            (Command::Unknown(a), Command::Unknown(b)) => *a == *b,
            (Command::Version, Command::Version) => true,
            _ => false,
        }
    }
}

/// How a command is configured.
#[derive(Debug, PartialEq, Eq)]
pub struct CommandInfo {
    /// The standing that the command asks for.
    pub permission: Option<Permission>,
    /// Users who may use the command whatever their standing.
    pub user_permissions: Option<Vec<String>>,
    /// Other names of the command.
    pub alias: Option<Vec<String>>,
}

/// A [`CommandInfo`] with its texts as characters.
pub struct CommandInfoView {
    pub permission: Option<Permission>,
    pub user_permissions: Option<Seq<Seq<char>>>,
    pub alias: Option<Seq<Seq<char>>>,
}

/// The strings inside an option, as characters.
pub open spec fn maybe_texts(o: Option<Vec<String>>) -> Option<Seq<Seq<char>>> {
    match o {
        Some(v) => Some(texts(v@)),
        None => None,
    }
}

impl View for CommandInfo {
    type V = CommandInfoView;

    open spec fn view(&self) -> CommandInfoView {
        CommandInfoView {
            permission: self.permission,
            user_permissions: maybe_texts(self.user_permissions),
            alias: maybe_texts(self.alias),
        }
    }
}

impl Default for CommandInfo {
    fn default() -> (r: Self)
        ensures
            r@ == plain_info(None),
    {
        CommandInfo { permission: None, user_permissions: None, alias: None }
    }
}

/// A configuration that says nothing but the standing that a command asks for.
pub open spec fn plain_info(permission: Option<Permission>) -> CommandInfoView {
    CommandInfoView { permission, user_permissions: None, alias: None }
}

/// Who may use a command.
#[derive(Debug, PartialEq, Eq)]
pub struct CommandPermissions {
    pub permission: Option<Permission>,
    pub user_permissions: Option<Vec<String>>,
}

/// A [`CommandPermissions`] with its names as characters.
pub struct CommandPermissionsView {
    pub permission: Option<Permission>,
    pub user_permissions: Option<Seq<Seq<char>>>,
}

impl View for CommandPermissions {
    type V = CommandPermissionsView;

    open spec fn view(&self) -> CommandPermissionsView {
        CommandPermissionsView {
            permission: self.permission,
            user_permissions: maybe_texts(self.user_permissions),
        }
    }
}

/// A copy of a list of strings.
fn copy_texts(v: &Vec<String>) -> (r: Vec<String>)
    ensures
        texts(r@) == texts(v@),
{
    let r = v.clone();
    assert(texts(r@) =~= texts(v@)) by {
        assert forall|i: int| 0 <= i < v@.len() implies r@[i]@ == v@[i]@ by {
            assert(cloned(v@[i], r@[i]));
        }
    }
    r
}

/// The configurations of commands, at most one for each command.
#[derive(Debug)]
pub struct CommandTable {
    entries: Vec<(Command, CommandInfo)>,
}

/// Where the configuration of `command` stands among `entries`.
spec fn entry_at(entries: Seq<(Command, CommandInfo)>, command: CommandView, i: int) -> bool {
    0 <= i < entries.len() && entries[i].0@ == command
}

/// The mapping that `entries` write down.
spec fn entry_map(entries: Seq<(Command, CommandInfo)>) -> Map<CommandView, CommandInfoView> {
    Map::new(
        |command: CommandView| exists|i: int| entry_at(entries, command, i),
        |command: CommandView| entries[choose|i: int| entry_at(entries, command, i)].1@,
    )
}

/// No command occurs twice among `entries`.
spec fn distinct(entries: Seq<(Command, CommandInfo)>) -> bool {
    forall|i: int, j: int| 0 <= i < j < entries.len() ==> entries[i].0@ != entries[j].0@
}

impl View for CommandTable {
    type V = Map<CommandView, CommandInfoView>;

    closed spec fn view(&self) -> Map<CommandView, CommandInfoView> {
        entry_map(self.entries@)
    }
}

impl CommandTable {
    #[verifier::type_invariant]
    spec fn well_formed(self) -> bool {
        distinct(self.entries@)
    }

    /// A table without entries.
    pub fn new() -> (r: Self)
        ensures
            r@ == Map::<CommandView, CommandInfoView>::empty(),
    {
        let r = CommandTable { entries: Vec::new() };
        assert(r@ =~= Map::<CommandView, CommandInfoView>::empty()) by {
            assert forall|c: CommandView| !r@.dom().contains(c) by {
                assert(forall|i: int| !entry_at(r.entries@, c, i));
            }
        }
        r
    }

    /// Where the configuration of `command` stands.
    fn position(&self, command: &Command) -> (r: Option<usize>)
        ensures
            match r {
                Some(i) => entry_at(self.entries@, command@, i as int) && self@.dom().contains(
                    command@,
                ) && self@[command@] == self.entries@[i as int].1@,
                None => !self@.dom().contains(command@) && forall|i: int|
                    !entry_at(self.entries@, command@, i),
            },
    {
        proof {
            use_type_invariant(self);
        }
        let mut i: usize = 0;
        while i < self.entries.len()
            invariant
                i <= self.entries.len(),
                distinct(self.entries@),
                forall|j: int| 0 <= j < i ==> self.entries@[j].0@ != command@,
            decreases self.entries.len() - i,
        {
            if self.entries[i].0.same(command) {
                proof {
                    assert(entry_at(self.entries@, command@, i as int));
                    let k = choose|k: int| entry_at(self.entries@, command@, k);
                    assert(k == i);
                }
                return Some(i);
            }
            i += 1;
        }
        None
    }

    /// Sets the configuration of `command`, in place of one that it had.
    pub fn insert(&mut self, command: Command, info: CommandInfo)
        ensures
            final(self)@ == old(self)@.insert(command@, info@),
    {
        let at = self.position(&command);
        proof {
            use_type_invariant(&*self);
        }
        let ghost before = self.entries@;
        let ghost key = command@;
        let ghost value = info@;
        let mut entries: Vec<(Command, CommandInfo)> = Vec::new();
        std::mem::swap(&mut entries, &mut self.entries);
        match at {
            Some(i) => {
                entries.set(i, (command, info));
                proof {
                    lemma_entry_map_insert(before, entries@, i as int);
                }
            },
            None => {
                entries.push((command, info));
                proof {
                    lemma_entry_map_insert(before, entries@, before.len() as int);
                }
            },
        }
        self.entries = entries;
    }

    /// The configuration of `command`.
    pub fn get(&self, command: &Command) -> (r: Option<&CommandInfo>)
        ensures
            match r {
                Some(info) => self@.dom().contains(command@) && info@ == self@[command@],
                None => !self@.dom().contains(command@),
            },
    {
        match self.position(command) {
            Some(i) => Some(&self.entries[i].1),
            None => None,
        }
    }
}

/// Whether `alias` is another name of the command that `info` configures.
pub open spec fn has_alias(info: CommandInfoView, alias: Seq<char>) -> bool {
    match info.alias {
        Some(names) => names.contains(alias),
        None => false,
    }
}

/// Whether `alias` is another name of `command` in `commands`.
pub open spec fn alias_names(
    commands: Map<CommandView, CommandInfoView>,
    alias: Seq<char>,
    command: CommandView,
) -> bool {
    commands.dom().contains(command) && has_alias(commands[command], alias)
}

/// Whether `alias` is another name of any command in `commands`.
pub open spec fn alias_known(
    commands: Map<CommandView, CommandInfoView>,
    alias: Seq<char>,
) -> bool {
    exists|command: CommandView| alias_names(commands, alias, command)
}

/// Looks up which command goes by the name `alias`. Where several do, it is one
/// of them.
pub fn get_command_from_alias_string(commands: &CommandTable, alias: &str) -> (r: Option<Command>)
    ensures
        match r {
            Some(command) => alias_names(commands@, alias@, command@),
            None => !alias_known(commands@, alias@),
        },
{
    let mut i: usize = 0;
    proof {
        use_type_invariant(commands);
    }
    while i < commands.entries.len()
        invariant
            i <= commands.entries.len(),
            distinct(commands.entries@),
            forall|j: int|
                0 <= j < i ==> !has_alias((#[trigger] commands.entries@[j]).1@, alias@),
        decreases commands.entries.len() - i,
    {
        let entry = &commands.entries[i];
        if let Some(names) = &entry.1.alias {
            if has_text(names, alias) {
                proof {
                    assert(entry_at(commands.entries@, entry.0@, i as int));
                    let k = choose|k: int| entry_at(commands.entries@, entry.0@, k);
                    assert(k == i);
                }
                return Some(entry.0.clone());
            }
        }
        i += 1;
    }
    proof {
        if alias_known(commands@, alias@) {
            let command = choose|command: CommandView| alias_names(commands@, alias@, command);
            let k = choose|k: int| entry_at(commands.entries@, command, k);
            assert(!has_alias(commands.entries@[k].1@, alias@));
        }
    }
    None
}

/// Setting one entry, in place or behind the others, inserts into the mapping.
proof fn lemma_entry_map_insert(
    before: Seq<(Command, CommandInfo)>,
    after: Seq<(Command, CommandInfo)>,
    at: int,
)
    requires
        distinct(before),
        0 <= at < after.len(),
        after.len() == before.len() || after.len() == before.len() + 1,
        after.len() == before.len() + 1 ==> at == before.len() && forall|i: int|
            !entry_at(before, after[at].0@, i),
        forall|i: int| 0 <= i < before.len() && i != at ==> after[i] == before[i],
        at < before.len() ==> before[at].0@ == after[at].0@,
    ensures
        distinct(after),
        entry_map(after) == entry_map(before).insert(after[at].0@, after[at].1@),
{
    let key = after[at].0@;
    assert forall|i: int, j: int| 0 <= i < j < after.len() implies after[i].0@ != after[j].0@ by {
        assert(!entry_at(before, key, i) || i == at);
        assert(!entry_at(before, key, j) || j == at);
    }
    assert(entry_at(after, key, at));
    assert forall|c: CommandView|
        entry_map(after).dom().contains(c) == entry_map(before).insert(
            key,
            after[at].1@,
        ).dom().contains(c) by {
        if entry_map(before).dom().contains(c) {
            let i = choose|i: int| entry_at(before, c, i);
            assert(entry_at(after, c, i));
        }
        if entry_map(after).dom().contains(c) && c != key {
            let i = choose|i: int| entry_at(after, c, i);
            assert(entry_at(before, c, i));
        }
    }
    assert forall|c: CommandView| entry_map(after).dom().contains(c) implies entry_map(after)[c]
        == entry_map(before).insert(key, after[at].1@)[c] by {
        let i = choose|i: int| entry_at(after, c, i);
        if c == key {
            assert(i == at);
        } else {
            assert(entry_at(before, c, i));
            let j = choose|j: int| entry_at(before, c, j);
            assert(i == j);
        }
    }
    assert(entry_map(after) =~= entry_map(before).insert(key, after[at].1@));
}

/// The mapping that an optional table writes down: an absent table has no entries.
pub open spec fn maybe_table(commands: Option<CommandTable>) -> Map<CommandView, CommandInfoView> {
    match commands {
        Some(table) => table@,
        None => Map::empty(),
    }
}

/// Which command an alias stands for: one of the user's own, else one of the defaults.
pub open spec fn alias_answer(
    user_commands: Map<CommandView, CommandInfoView>,
    default_commands: Map<CommandView, CommandInfoView>,
    alias: Seq<char>,
    answer: Option<CommandView>,
) -> bool {
    if alias_known(user_commands, alias) {
        answer is Some && alias_names(user_commands, alias, answer->0)
    } else if alias_known(default_commands, alias) {
        answer is Some && alias_names(default_commands, alias, answer->0)
    } else {
        answer is None
    }
}

/// The command inside an option.
pub open spec fn maybe_command(o: Option<Command>) -> Option<CommandView> {
    match o {
        Some(command) => Some(command@),
        None => None,
    }
}

/// Looks up an alias among the user's commands, then among the defaults.
pub fn try_get_command_from_alias(
    user_commands: &Option<CommandTable>,
    default_commands: &CommandTable,
    potential_command: &str,
) -> (r: Option<Command>)
    ensures
        alias_answer(
            maybe_table(*user_commands),
            default_commands@,
            potential_command@,
            maybe_command(r),
        ),
{
    if let Some(user_cmd) = user_commands {
        if let Some(cmd) = get_command_from_alias_string(user_cmd, potential_command) {
            assert(alias_known(maybe_table(*user_commands), potential_command@));
            return Some(cmd);
        }
    }
    assert(!alias_known(maybe_table(*user_commands), potential_command@));
    let r = get_command_from_alias_string(default_commands, potential_command);
    assert(r is Some ==> alias_known(default_commands@, potential_command@));
    r
}

/// Who may use `command` by `commands`, if it is configured there.
pub open spec fn listed_permission(
    command: CommandView,
    commands: Map<CommandView, CommandInfoView>,
) -> Option<CommandPermissionsView> {
    if commands.dom().contains(command) {
        Some(
            CommandPermissionsView {
                permission: commands[command].permission,
                user_permissions: commands[command].user_permissions,
            },
        )
    } else {
        None
    }
}

/// The permissions inside an option.
pub open spec fn maybe_permissions(o: Option<CommandPermissions>) -> Option<
    CommandPermissionsView,
> {
    match o {
        Some(p) => Some(p@),
        None => None,
    }
}

/// Computes [`listed_permission`].
pub fn try_get_permission(command: &Command, commands: &CommandTable) -> (r: Option<
    CommandPermissions,
>)
    ensures
        maybe_permissions(r) == listed_permission(command@, commands@),
{
    match commands.get(command) {
        Some(info) => {
            let user_permissions = match &info.user_permissions {
                Some(names) => Some(copy_texts(names)),
                None => None,
            };
            Some(CommandPermissions { permission: info.permission, user_permissions })
        },
        None => None,
    }
}

/// Who may use `command`: as the user configured it, with the default standing
/// where the user's configuration names none; else as it is by default; and
/// admins alone where it is configured nowhere.
pub open spec fn permission_for(
    command: CommandView,
    user_commands: Map<CommandView, CommandInfoView>,
    default_commands: Map<CommandView, CommandInfoView>,
) -> CommandPermissionsView {
    match (listed_permission(command, user_commands), listed_permission(command, default_commands))
    {
        (Some(own), Some(default)) if own.permission is None => CommandPermissionsView {
            permission: default.permission,
            ..own
        },
        (Some(own), _) => own,
        (None, Some(default)) => default,
        (None, None) => CommandPermissionsView {
            permission: Some(Permission::Admin),
            user_permissions: None,
        },
    }
}

/// Computes [`permission_for`].
pub fn get_permission(
    command: &Command,
    user_commands: &Option<CommandTable>,
    default_commands: &CommandTable,
) -> (r: CommandPermissions)
    ensures
        r@ == permission_for(command@, maybe_table(*user_commands), default_commands@),
{
    let own = match user_commands {
        Some(table) => try_get_permission(command, table),
        None => None,
    };
    match own {
        Some(mut p) => {
            if p.permission.is_none() {
                p.permission = match try_get_permission(command, default_commands) {
                    Some(d) => d.permission,
                    None => None,
                };
            }
            p
        },
        None => match try_get_permission(command, default_commands) {
            Some(p) => p,
            None => CommandPermissions {
                permission: Some(Permission::Admin),
                user_permissions: None,
            },
        },
    }
}

/// Whether a user of standing `user_permission`, other than an admin, may use a
/// command that asks for `permission`.
pub open spec fn standing_allows(permission: Permission, user_permission: Permission) -> bool {
    permission == Permission::Public || (permission == Permission::Mod && user_permission
        == Permission::Mod)
}

/// Decides [`standing_allows`].
pub fn permission_is_allowed(permission: &Permission, user_permission: &Permission) -> (r: bool)
    ensures
        r == standing_allows(*permission, *user_permission),
{
    *permission == Permission::Public || (*permission == Permission::Mod && *user_permission
        == Permission::Mod)
}

} // verus!

//! Which messages lead to which commands, and who may use them how often.
use std::time::Instant;
use vstd::prelude::*;

use crate::clock::{count_seconds, now, seconds_between};
use crate::command::{
    alias_answer, get_permission, maybe_table, permission_for, permission_is_allowed, plain_info,
    standing_allows, try_get_command_from_alias, Command, CommandInfo, CommandInfoView,
    CommandPermissions, CommandPermissionsView, CommandTable, CommandView, Permission, RaidedInfo,
    RaidedInfoView,
};
use crate::message::{
    AutomaticSwitchingScene, ChatMessage, ChatPlatform, DispatchCommand, HandleMessage,
    InternalChatUpdate, InternalUpdate,
};
use crate::phrase::{said, say, Message};
use crate::servers::{begin_switch_notice, switch_notice_begins};
use crate::text::{has_text, same_text, split_words, strip_prefix, stripped, texts, words};
use crate::turn::Turn;

verus! {

// Rate limiting.
/// When a channel last had a command of somebody without standing.
#[derive(Debug)]
pub struct Timeout {
    pub channel: String,
    pub time: Instant,
}

/// A [`Timeout`] with its channel as characters.
pub struct TimeoutView {
    pub channel: Seq<char>,
    pub time: Instant,
}

impl View for Timeout {
    type V = TimeoutView;

    open spec fn view(&self) -> TimeoutView {
        TimeoutView { channel: self.channel@, time: self.time }
    }
}

/// The timeouts, with their channels as characters.
pub open spec fn timeouts_view(timeouts: Seq<Timeout>) -> Seq<TimeoutView> {
    timeouts.map_values(|timeout: Timeout| timeout@)
}

/// The place of the first timeout of `channel`, or the number of timeouts.
pub open spec fn timeout_place(timeouts: Seq<TimeoutView>, channel: Seq<char>) -> nat
    decreases timeouts.len(),
{
    if timeouts.len() == 0 || timeouts[0].channel == channel {
        0
    } else {
        1 + timeout_place(timeouts.skip(1), channel)
    }
}

/// Whether `channel` had a command before.
pub open spec fn has_timeout(timeouts: Seq<TimeoutView>, channel: Seq<char>) -> bool {
    timeout_place(timeouts, channel) < timeouts.len()
}

/// The place of the first timeout of `channel` holds one, and those before it are of others.
pub proof fn lemma_timeout_place(timeouts: Seq<TimeoutView>, channel: Seq<char>)
    ensures
        timeout_place(timeouts, channel) <= timeouts.len(),
        has_timeout(timeouts, channel) ==> timeouts[timeout_place(
            timeouts,
            channel,
        ) as int].channel == channel,
        forall|i: int|
            0 <= i < timeout_place(timeouts, channel) ==> (#[trigger] timeouts[i]).channel
                != channel,
    decreases timeouts.len(),
{
    if timeouts.len() != 0 && timeouts[0].channel != channel {
        let rest = timeouts.skip(1);
        lemma_timeout_place(rest, channel);
        assert forall|i: int| 0 <= i < timeout_place(timeouts, channel) implies (
        #[trigger] timeouts[i]).channel != channel by {
            if i > 0 {
                assert(rest[i - 1] == timeouts[i]);
            }
        }
    }
}

/// A timeout of `channel` with none before it stands where [`timeout_place`] says.
pub proof fn lemma_timeout_place_unique(timeouts: Seq<TimeoutView>, channel: Seq<char>, at: int)
    requires
        0 <= at <= timeouts.len(),
        at < timeouts.len() ==> timeouts[at].channel == channel,
        forall|i: int| 0 <= i < at ==> (#[trigger] timeouts[i]).channel != channel,
    ensures
        timeout_place(timeouts, channel) == at,
{
    lemma_timeout_place(timeouts, channel);
    let place = timeout_place(timeouts, channel) as int;
    if place < at {
        assert(timeouts[place].channel != channel);
    }
    if at < place {
        assert(timeouts[at].channel != channel);
    }
}

/// Commands in a channel are refused up to this many whole seconds after the last one.
pub const TIMEOUT_SECONDS: u64 = 5;

/// The timeouts after a command in `channel` was let through at `time`.
pub open spec fn noted(
    timeouts: Seq<TimeoutView>,
    channel: Seq<char>,
    time: Instant,
) -> Seq<TimeoutView> {
    if has_timeout(timeouts, channel) {
        timeouts.update(timeout_place(timeouts, channel) as int, TimeoutView { channel, time })
    } else {
        timeouts.push(TimeoutView { channel, time })
    }
}

/// Whether a command in `channel` is refused, `seconds` after the last one.
pub open spec fn too_soon(timeouts: Seq<TimeoutView>, channel: Seq<char>, seconds: u64) -> bool {
    has_timeout(timeouts, channel) && seconds <= TIMEOUT_SECONDS
}

/// Finds the timeout of `channel`.
pub fn find_timeout(timeouts: &Vec<Timeout>, channel: &str) -> (r: Option<usize>)
    ensures
        match r {
            Some(i) => has_timeout(timeouts_view(timeouts@), channel@) && i == timeout_place(
                timeouts_view(timeouts@),
                channel@,
            ),
            None => !has_timeout(timeouts_view(timeouts@), channel@),
        },
{
    let ghost view = timeouts_view(timeouts@);
    let mut i: usize = 0;
    while i < timeouts.len()
        invariant
            i <= timeouts.len(),
            view == timeouts_view(timeouts@),
            forall|j: int| 0 <= j < i ==> (#[trigger] view[j]).channel != channel@,
        decreases timeouts.len() - i,
    {
        assert(view[i as int].channel == timeouts@[i as int].channel@);
        if same_text(timeouts[i].channel.as_str(), channel) {
            proof {
                lemma_timeout_place_unique(view, channel@, i as int);
            }
            return Some(i);
        }
        i += 1;
    }
    proof {
        lemma_timeout_place_unique(view, channel@, i as int);
    }
    None
}

/// Notes a command in `channel` at `time`, unless it comes too soon: `seconds` after
/// the last one there, if there was one.
pub fn note_command(
    timeouts: &mut Vec<Timeout>,
    channel: &str,
    seconds: u64,
    time: Instant,
) -> (refused: bool)
    ensures
        refused == too_soon(timeouts_view(old(timeouts)@), channel@, seconds),
        refused ==> final(timeouts)@ == old(timeouts)@,
        !refused ==> timeouts_view(final(timeouts)@) == noted(
            timeouts_view(old(timeouts)@),
            channel@,
            time,
        ),
{
    let ghost before = timeouts_view(timeouts@);
    match find_timeout(timeouts, channel) {
        Some(i) => {
            if seconds <= TIMEOUT_SECONDS {
                return true;
            }
            timeouts.set(i, Timeout { channel: channel.to_owned(), time });
            assert(timeouts_view(timeouts@) =~= noted(before, channel@, time));
        },
        None => {
            timeouts.push(Timeout { channel: channel.to_owned(), time });
            assert(timeouts_view(timeouts@) =~= noted(before, channel@, time));
        },
    }
    false
}

// Configuration.
/// How the chat of a user is configured.
#[derive(Debug)]
pub struct ChatConfig {
    /// What commands start with.
    pub prefix: String,
    /// The user's own configuration of commands.
    pub commands: Option<CommandTable>,
    /// Who may use every command.
    pub admins: Vec<String>,
    pub enable_public_commands: bool,
    pub enable_mod_commands: bool,
    /// Stop the stream when the channel raids another one.
    pub enable_auto_stop_stream_on_host_or_raid: bool,
    /// Name the raided channel when the stream stops for it.
    pub announce_raid_on_auto_stop: bool,
}

/// What is known of the user whose channel a message concerns.
#[derive(Debug)]
pub struct User {
    pub chat: Option<ChatConfig>,
    /// The language of the chat.
    pub lang: String,
    /// Whether the stream runs.
    pub is_streaming: bool,
    pub last_stream_started_at: Instant,
}

// Who may use a command.
/// Whether `sender`, of the given standing, may use a command that asks for
/// `permissions`: admins may, and those who are named; others where their standing
/// is enough and commands are open to it.
pub open spec fn may_use(
    chat: ChatConfig,
    sender: Seq<char>,
    standing: Permission,
    permissions: CommandPermissionsView,
) -> bool {
    ||| standing == Permission::Admin
    ||| texts(chat.admins@).contains(sender)
    ||| permissions.user_permissions is Some && permissions.user_permissions->0.contains(sender)
    ||| {
        &&& permissions.permission is Some
        &&& standing_allows(permissions.permission->0, standing)
        &&& standing == Permission::Public ==> chat.enable_public_commands
        &&& standing == Permission::Mod ==> chat.enable_mod_commands || (
        chat.enable_public_commands && permissions.permission->0 != Permission::Mod)
    }
}

// Which command is meant.
/// The word that a message gives as a command: its first word without the prefix.
pub open spec fn command_word_of(message: Seq<char>, prefix: Seq<char>) -> Option<Seq<char>> {
    stripped(words(message, true)[0], prefix)
}

/// Whether `command` is what is meant where a word was read as `parsed`: the command
/// itself, or for an unknown word a command that has it as an alias.
pub open spec fn meant(
    user_commands: Map<CommandView, CommandInfoView>,
    default_commands: Map<CommandView, CommandInfoView>,
    parsed: CommandView,
    command: CommandView,
) -> bool {
    match parsed {
        CommandView::Unknown(word) => {
            ||| alias_answer(user_commands, default_commands, word, Some(command))
            ||| alias_answer(user_commands, default_commands, word, None) && command == parsed
        },
        _ => command == parsed,
    }
}

/// The commands that are configured without the user doing so.
pub open spec fn default_commands() -> Map<CommandView, CommandInfoView> {
    map![
        CommandView::Switch => plain_info(None),
        CommandView::Bitrate => plain_info(Some(Permission::Public)),
        CommandView::Fix => plain_info(Some(Permission::Mod)),
        CommandView::ServerInfo => plain_info(Some(Permission::Mod)),
        CommandView::Otrigger => plain_info(Some(Permission::Mod)),
        CommandView::Refresh => plain_info(Some(Permission::Mod)),
        CommandView::Rtrigger => plain_info(Some(Permission::Mod)),
        CommandView::Sourceinfo => plain_info(Some(Permission::Mod)),
        CommandView::Trigger => plain_info(Some(Permission::Mod)),
        CommandView::Version => plain_info(Some(Permission::Public)),
    ]
}

/// A configuration that says nothing but the standing that a command asks for.
fn open_to(permission: Permission) -> (r: CommandInfo)
    ensures
        r@ == plain_info(Some(permission)),
{
    CommandInfo { permission: Some(permission), user_permissions: None, alias: None }
}

// Raids.
/// A stream that started less than this many seconds ago is not stopped for a raid.
pub const RAID_SECONDS: u64 = 60;

/// How many seconds before `at` the stream of a user started; zero where there is no user.
pub open spec fn since_started(user: Option<&User>, at: Instant) -> u64 {
    match user {
        Some(user) => seconds_between(at, user.last_stream_started_at),
        None => 0,
    }
}

/// Whether the stream of a user, which started `seconds` ago, stops for a raid.
pub open spec fn stops_for_raid(user: User, seconds: u64) -> bool {
    &&& user.chat is Some
    &&& user.chat->0.enable_auto_stop_stream_on_host_or_raid
    &&& user.is_streaming
    &&& seconds >= RAID_SECONDS
}

/// The command that stops the stream of a user for a raid.
pub open spec fn raid_command(chat: ChatConfig, target: RaidedInfoView) -> CommandView {
    if chat.announce_raid_on_auto_stop {
        CommandView::StopOnRaid(target)
    } else {
        CommandView::Stop
    }
}

/// Whether `dispatched` stops the stream of `user` for a raid from `channel`.
pub open spec fn raid_dispatch(
    dispatched: DispatchCommand,
    user: User,
    platform: ChatPlatform,
    channel: Seq<char>,
    target: RaidedInfoView,
    version: Seq<char>,
) -> bool {
    &&& dispatched.command@ == raid_command(user.chat->0, target)
    &&& dispatched.lang@ == user.lang@
    &&& dispatched.version@ == version
    &&& dispatched.chat_message.platform == platform
    &&& dispatched.chat_message.permission == Permission::Admin
    &&& dispatched.chat_message.channel@ == channel
    &&& dispatched.chat_message.sender@ == "NOALBSbot"@
    &&& dispatched.chat_message.message@
        == "Hi your channel raided and I would like to stop it for you"@
}

/// What an incoming message asks for.
#[derive(Debug, PartialEq, Eq)]
pub enum Task {
    Chat(ChatMessage),
    Raid(InternalChatUpdate, RaidedInfo),
    OfflineTimeout(InternalChatUpdate),
    Switched(AutomaticSwitchingScene),
}

/// Sorts an incoming message. An empty chat message asks for nothing.
pub fn task_of(message: HandleMessage) -> (r: Option<Task>)
    ensures
        match message {
            HandleMessage::ChatMessage(msg) => r == if msg.message@.len() == 0 {
                None
            } else {
                Some(Task::Chat(msg))
            },
            HandleMessage::InternalChatUpdate(update) => match update.kind {
                InternalUpdate::Raided(info) => r matches Some(Task::Raid(u, i)) && u == update
                    && i@ == info@,
                InternalUpdate::OfflineTimeout => r == Some(Task::OfflineTimeout(update)),
            },
            HandleMessage::AutomaticSwitchingScene(ss) => r == Some(Task::Switched(ss)),
        },
{
    match message {
        HandleMessage::ChatMessage(msg) => if msg.message.as_str().is_empty() {
            None
        } else {
            Some(Task::Chat(msg))
        },
        HandleMessage::InternalChatUpdate(update) => {
            let raided = match &update.kind {
                InternalUpdate::Raided(info) => Some(info.clone()),
                InternalUpdate::OfflineTimeout => None,
            };
            match raided {
                Some(info) => Some(Task::Raid(update, info)),
                None => Some(Task::OfflineTimeout(update)),
            }
        },
        HandleMessage::AutomaticSwitchingScene(ss) => Some(Task::Switched(ss)),
    }
}

// The handler.
/// What is known across messages.
#[derive(Debug)]
pub struct ChatHandler {
    /// The platforms that something can be said on.
    pub chat_senders: Vec<ChatPlatform>,
    /// The timeouts of the channels on Twitch; no other platform has any.
    pub timeouts: Vec<Timeout>,
    pub default_commands: CommandTable,
}

impl ChatHandler {
    /// The platforms that something can be said on.
    pub open spec fn senders(self) -> Set<ChatPlatform> {
        self.chat_senders@.to_set()
    }

    /// The timeouts of the channels on Twitch.
    pub open spec fn timeouts_spec(self) -> Seq<TimeoutView> {
        timeouts_view(self.timeouts@)
    }

    /// A handler that has seen no message and can say nothing anywhere.
    pub fn new() -> (r: Self)
        ensures
            r.senders() == Set::<ChatPlatform>::empty(),
            r.timeouts_spec() == Seq::<TimeoutView>::empty(),
            r.default_commands@ == default_commands(),
    {
        let r = ChatHandler {
            chat_senders: Vec::new(),
            timeouts: Vec::new(),
            default_commands: Self::default_command_settings(),
        };
        assert(r.senders() =~= Set::<ChatPlatform>::empty());
        assert(r.timeouts_spec() =~= Seq::<TimeoutView>::empty());
        r
    }

    /// Makes the table [`default_commands`].
    pub fn default_command_settings() -> (r: CommandTable)
        ensures
            r@ == default_commands(),
    {
        let mut default = CommandTable::new();
        default.insert(Command::Switch, CommandInfo::default());
        default.insert(Command::Bitrate, open_to(Permission::Public));
        default.insert(Command::Fix, open_to(Permission::Mod));
        default.insert(Command::ServerInfo, open_to(Permission::Mod));
        default.insert(Command::Otrigger, open_to(Permission::Mod));
        default.insert(Command::Refresh, open_to(Permission::Mod));
        default.insert(Command::Rtrigger, open_to(Permission::Mod));
        default.insert(Command::Sourceinfo, open_to(Permission::Mod));
        default.insert(Command::Trigger, open_to(Permission::Mod));
        default.insert(Command::Version, open_to(Permission::Public));
        default
    }

    /// From now on something can be said on this platform.
    pub fn add_chat_sender(&mut self, platform: ChatPlatform)
        ensures
            final(self).senders() == old(self).senders().insert(platform),
            final(self).timeouts == old(self).timeouts,
            final(self).default_commands == old(self).default_commands,
    {
        let ghost before = self.chat_senders@;
        self.chat_senders.push(platform);
        assert(self.senders() =~= before.to_set().insert(platform)) by {
            assert forall|p: ChatPlatform|
                self.chat_senders@.contains(p) == (before.contains(p) || p == platform) by {
                if before.contains(p) {
                    let i = choose|i: int| 0 <= i < before.len() && before[i] == p;
                    assert(self.chat_senders@[i] == p);
                }
                assert(self.chat_senders@[before.len() as int] == platform);
            }
        }
    }

    /// Whether something can be said on this platform.
    pub fn has_sender(&self, platform: ChatPlatform) -> (r: bool)
        ensures
            r == self.senders().contains(platform),
    {
        let mut i: usize = 0;
        while i < self.chat_senders.len()
            invariant
                i <= self.chat_senders.len(),
                forall|j: int| 0 <= j < i ==> self.chat_senders@[j] != platform,
            decreases self.chat_senders.len() - i,
        {
            if self.chat_senders[i] == platform {
                return true;
            }
            i += 1;
        }
        false
    }

    /// How many seconds before `at` the last command of those without standing was let
    /// through in `channel`; zero where there was no such command.
    pub open spec fn since_last(self, channel: Seq<char>, at: Instant) -> u64 {
        let timeouts = self.timeouts_spec();
        if has_timeout(timeouts, channel) {
            seconds_between(at, timeouts[timeout_place(timeouts, channel) as int].time)
        } else {
            0
        }
    }

    /// Computes [`ChatHandler::since_last`].
    fn seconds_since_last(&self, channel: &str, at: &Instant) -> (r: u64)
        ensures
            r == self.since_last(channel@, *at),
    {
        match find_timeout(&self.timeouts, channel) {
            Some(i) => count_seconds(at, &self.timeouts[i].time),
            None => 0,
        }
    }

    /// Whether `refused` tells what becomes of a command in `channel`, and `after` what
    /// becomes of this handler: the command is refused where it comes too soon `at` that
    /// time, and is else noted with `time`.
    pub open spec fn limits(
        self,
        after: ChatHandler,
        channel: Seq<char>,
        at: Instant,
        time: Instant,
        refused: bool,
    ) -> bool {
        let timeouts = self.timeouts_spec();
        &&& refused == too_soon(timeouts, channel, self.since_last(channel, at))
        &&& after.timeouts_spec() == if refused {
            timeouts
        } else {
            noted(timeouts, channel, time)
        }
    }

    /// Lets a command through in `channel`, unless the last one there is too recent. The
    /// clock is read twice: for how long ago that was, and for the time to note.
    pub fn handle_timeout(&mut self, platform: &ChatPlatform, channel: &str) -> (refused: bool)
        requires
            *platform == ChatPlatform::Twitch,
        ensures
            final(self).chat_senders == old(self).chat_senders,
            final(self).default_commands == old(self).default_commands,
            exists|at: Instant, time: Instant| #[trigger]
                old(self).limits(*final(self), channel@, at, time, refused),
    {
        let at = now();
        let seconds = self.seconds_since_last(channel, &at);
        let time = now();
        let refused = note_command(&mut self.timeouts, channel, seconds, time);
        assert(old(self).limits(*self, channel@, at, time, refused));
        refused
    }

    /// The word that a message gives as a command, if there is a chat to read it for.
    pub fn command_word(&self, chat: &Option<ChatConfig>, msg: &ChatMessage) -> (r: Option<String>)
        requires
            chat is Some ==> words(msg.message@, true).len() > 0,
        ensures
            match chat {
                Some(chat) => crate::text::maybe_text(r) == command_word_of(
                    msg.message@,
                    chat.prefix@,
                ),
                None => r is None,
            },
    {
        match chat {
            Some(chat) => {
                let parts = split_words(msg.message.as_str(), true);
                assert(texts(parts@)[0] == parts@[0]@);
                strip_prefix(parts[0].as_str(), chat.prefix.as_str())
            },
            None => None,
        }
    }

    /// The command that is meant where a word was read as `parsed`, and who may use it.
    pub fn resolve_command(&self, parsed: Command, user_commands: &Option<CommandTable>) -> (r: (
        Command,
        CommandPermissions,
    ))
        ensures
            meant(maybe_table(*user_commands), self.default_commands@, parsed@, r.0@),
            r.1@ == permission_for(r.0@, maybe_table(*user_commands), self.default_commands@),
    {
        let mut command = parsed;
        let found = match &command {
            Command::Unknown(word) => try_get_command_from_alias(
                user_commands,
                &self.default_commands,
                word.as_str(),
            ),
            _ => None,
        };
        if let Some(cmd) = found {
            command = cmd;
        }
        let permission = get_permission(&command, user_commands, &self.default_commands);
        (command, permission)
    }

    /// The command that a message means, and who may use it. `parsed` is what its
    /// command word was read as.
    pub fn get_command(
        &self,
        chat: &Option<ChatConfig>,
        msg: &ChatMessage,
        parsed: Command,
    ) -> (r: Option<(Command, CommandPermissions)>)
        requires
            chat is Some ==> words(msg.message@, true).len() > 0,
        ensures
            r is Some <==> chat is Some && command_word_of(msg.message@, chat->0.prefix@) is Some,
            match r {
                Some((command, permissions)) => {
                    &&& meant(
                        maybe_table(chat->0.commands),
                        self.default_commands@,
                        parsed@,
                        command@,
                    )
                    &&& permissions@ == permission_for(
                        command@,
                        maybe_table(chat->0.commands),
                        self.default_commands@,
                    )
                },
                None => true,
            },
    {
        match self.command_word(chat, msg) {
            Some(_) => match chat {
                Some(chat) => Some(self.resolve_command(parsed, &chat.commands)),
                None => None,
            },
            None => None,
        }
    }

    /// Decides [`may_use`], if there is a chat to decide it for.
    pub fn is_allowed_to_use_command(
        &self,
        chat: &Option<ChatConfig>,
        msg: &ChatMessage,
        permission: &CommandPermissions,
    ) -> (r: Option<bool>)
        ensures
            r == match chat {
                Some(chat) => Some(may_use(*chat, msg.sender@, msg.permission, permission@)),
                None => None,
            },
    {
        let chat = match chat {
            Some(chat) => chat,
            None => return None,
        };
        let user_permission = msg.permission;
        if user_permission == Permission::Admin || has_text(&chat.admins, msg.sender.as_str()) {
            return Some(true);
        }
        if let Some(names) = &permission.user_permissions {
            if has_text(names, msg.sender.as_str()) {
                return Some(true);
            }
        }
        if user_permission == Permission::Mod && !chat.enable_public_commands
            && !chat.enable_mod_commands {
            return Some(false);
        }
        if let Some(wanted) = permission.permission {
            if user_permission == Permission::Mod && wanted == Permission::Mod
                && !chat.enable_mod_commands {
                return Some(false);
            }
        }
        if user_permission == Permission::Public && !chat.enable_public_commands {
            return Some(false);
        }
        match permission.permission {
            Some(wanted) => Some(permission_is_allowed(&wanted, &user_permission)),
            None => Some(false),
        }
    }

    /// Whether `msg`, whose command word was read as `parsed`, means `command`.
    pub open spec fn means(
        self,
        chat: ChatConfig,
        parsed: CommandView,
        command: CommandView,
    ) -> bool {
        meant(maybe_table(chat.commands), self.default_commands@, parsed, command)
    }

    /// Whether the sender of `msg` may use `command`.
    pub open spec fn permits(
        self,
        chat: ChatConfig,
        msg: ChatMessage,
        command: CommandView,
    ) -> bool {
        may_use(
            chat,
            msg.sender@,
            msg.permission,
            permission_for(command, maybe_table(chat.commands), self.default_commands@),
        )
    }

    /// Whether `msg` gives a command word that is to be heard for `user`.
    pub open spec fn gives_command(user: Option<&User>, msg: ChatMessage) -> bool {
        &&& user is Some
        &&& user->0.chat is Some
        &&& command_word_of(msg.message@, user->0.chat->0.prefix@) is Some
    }

    /// Whether `dispatched` carries out `command` for `user` as `msg` asked.
    pub open spec fn carries_out(
        dispatched: DispatchCommand,
        user: User,
        msg: ChatMessage,
        command: CommandView,
        version: Seq<char>,
    ) -> bool {
        &&& dispatched.command@ == command
        &&& dispatched.lang@ == user.lang@
        &&& dispatched.version@ == version
        &&& dispatched.chat_message == msg
    }

    /// Whether `r` is the answer to `msg`, which means `command`, and `after` is what
    /// becomes of this handler: the sender has to be permitted; those without standing
    /// are limited, and what is let through is noted; and there has to be a way to
    /// answer. The message comes at `time`, `seconds` after the last one of those
    /// without standing in its channel, if there was one.
    pub open spec fn answers_as(
        self,
        after: ChatHandler,
        user: User,
        msg: ChatMessage,
        command: CommandView,
        version: Seq<char>,
        seconds: u64,
        time: Instant,
        r: Option<DispatchCommand>,
    ) -> bool {
        let limited = msg.permission == Permission::Public;
        if !self.permits(user.chat->0, msg, command) || (limited && too_soon(
            self.timeouts_spec(),
            msg.channel@,
            seconds,
        )) {
            r is None && after.timeouts_spec() == self.timeouts_spec()
        } else {
            &&& after.timeouts_spec() == if limited {
                noted(self.timeouts_spec(), msg.channel@, time)
            } else {
                self.timeouts_spec()
            }
            &&& r is Some <==> self.senders().contains(msg.platform)
            &&& r is Some ==> Self::carries_out(r->0, user, msg, command, version)
        }
    }

    /// Whether `r` is the answer to `msg`, whose command word was read as `parsed`, and
    /// `after` is what becomes of this handler: as [`ChatHandler::answers_as`] says for
    /// a command that is meant, and nothing where the message gives no command.
    pub open spec fn answers(
        self,
        after: ChatHandler,
        user: Option<&User>,
        msg: ChatMessage,
        parsed: CommandView,
        version: Seq<char>,
        seconds: u64,
        time: Instant,
        r: Option<DispatchCommand>,
    ) -> bool {
        &&& after.chat_senders == self.chat_senders
        &&& after.default_commands == self.default_commands
        &&& if Self::gives_command(user, msg) {
            exists|command: CommandView|
                {
                    &&& self.means(user->0.chat->0, parsed, command)
                    &&& #[trigger] self.answers_as(
                        after,
                        *user->0,
                        msg,
                        command,
                        version,
                        seconds,
                        time,
                        r,
                    )
                }
        } else {
            r is None && after.timeouts_spec() == self.timeouts_spec()
        }
    }

    /// Whether `msg` can be handled: it has a word to read, and whoever is limited
    /// writes on Twitch.
    pub open spec fn can_handle(
        self,
        user: Option<&User>,
        msg: ChatMessage,
        parsed: CommandView,
    ) -> bool {
        &&& user is Some && user->0.chat is Some ==> words(msg.message@, true).len() > 0
        &&& Self::gives_command(user, msg) && msg.permission == Permission::Public && (
        exists|command: CommandView|
            self.means(user->0.chat->0, parsed, command) && #[trigger] self.permits(
                user->0.chat->0,
                msg,
                command,
            )) ==> msg.platform == ChatPlatform::Twitch
    }

    /// The command to carry out for a chat message that comes at `time`, `seconds`
    /// after the last one of those without standing in its channel. `user` is the user
    /// of the channel, if there is one, and `parsed` is what the command word of the
    /// message was read as.
    pub fn chat_message_after(
        &mut self,
        user: Option<&User>,
        msg: ChatMessage,
        parsed: Command,
        version: String,
        seconds: u64,
        time: Instant,
    ) -> (r: Option<DispatchCommand>)
        requires
            old(self).can_handle(user, msg, parsed@),
        ensures
            old(self).answers(*final(self), user, msg, parsed@, version@, seconds, time, r),
    {
        let ghost before = *self;
        let ghost read_as = parsed@;
        let user = match user {
            Some(user) => user,
            None => return None,
        };
        let (command, permission) = match self.get_command(&user.chat, &msg, parsed) {
            Some(found) => found,
            None => return None,
        };
        let ghost meaning = command@;
        let allowed = match self.is_allowed_to_use_command(&user.chat, &msg, &permission) {
            Some(allowed) => allowed,
            None => return None,
        };
        assert(allowed == before.permits(user.chat->0, msg, meaning));
        assert(before.means(user.chat->0, read_as, meaning));
        let ghost text = version@;
        let ghost asked = msg;
        let refused = !allowed || (msg.permission == Permission::Public && note_command(
            &mut self.timeouts,
            msg.channel.as_str(),
            seconds,
            time,
        ));
        let r = if refused || !self.has_sender(msg.platform) {
            None
        } else {
            Some(DispatchCommand { lang: user.lang.clone(), command, chat_message: msg, version })
        };
        assert(before.answers_as(*self, *user, asked, meaning, text, seconds, time, r));
        r
    }

    /// The command to carry out for a chat message: one that the message means, that
    /// its sender may use, that does not come too soon by the clock, and that can be
    /// answered. `user` is the user of the channel, if there is one, and `parsed` is
    /// what the command word of the message was read as.
    pub fn handle_chat_message(
        &mut self,
        user: Option<&User>,
        msg: ChatMessage,
        parsed: Command,
        version: String,
    ) -> (r: Option<DispatchCommand>)
        requires
            old(self).can_handle(user, msg, parsed@),
        ensures
            exists|at: Instant, time: Instant| #[trigger]
                old(self).answers(
                    *final(self),
                    user,
                    msg,
                    parsed@,
                    version@,
                    old(self).since_last(msg.channel@, at),
                    time,
                    r,
                ),
    {
        let at = now();
        let seconds = self.seconds_since_last(msg.channel.as_str(), &at);
        let time = now();
        self.chat_message_after(user, msg, parsed, version, seconds, time)
    }

    /// The message that a channel was offline for too long, if it can be sent. `lang`
    /// is the language of the channel's user, if there is one.
    pub fn handle_offline_timeout(
        &self,
        host: &InternalChatUpdate,
        lang: Option<&str>,
    ) -> (r: Option<Message>)
        ensures
            match lang {
                Some(lang) if self.senders().contains(host.platform) => r is Some && r->0@ == said(
                    "offlineTimeout.timeout"@,
                    lang@,
                ),
                _ => r is None,
            },
    {
        if !self.has_sender(host.platform) {
            return None;
        }
        match lang {
            Some(lang) => Some(say("offlineTimeout.timeout", lang)),
            None => None,
        }
    }

    /// Begins to tell of a change of the scene, if that can be sent. `lang` is the
    /// language of the channel's user, if there is one.
    pub fn handle_automatic_switching_message(
        &self,
        ss: &AutomaticSwitchingScene,
        lang: Option<&str>,
    ) -> (r: Option<Turn>)
        ensures
            match lang {
                Some(lang) if self.senders().contains(ss.platform) => r is Some && r->0@
                    == switch_notice_begins(lang@, ss.scene@, ss.switch_type),
                _ => r is None,
            },
    {
        if !self.has_sender(ss.platform) {
            return None;
        }
        match lang {
            Some(lang) => Some(begin_switch_notice(lang, ss.scene.as_str(), ss.switch_type)),
            None => None,
        }
    }

    /// Whether `r` is the answer to a raid, given how many seconds ago the stream of the
    /// channel's user started.
    pub open spec fn answers_raid(
        self,
        user: Option<&User>,
        raid: InternalChatUpdate,
        target: RaidedInfoView,
        version: Seq<char>,
        seconds: u64,
        r: Option<DispatchCommand>,
    ) -> bool {
        &&& r is Some <==> user is Some && stops_for_raid(*user->0, seconds)
            && self.senders().contains(raid.platform)
        &&& r is Some ==> raid_dispatch(
            r->0,
            *user->0,
            raid.platform,
            raid.channel@,
            target,
            version,
        )
    }

    /// The command that stops the stream for a raid, given how many seconds ago the
    /// stream started.
    pub fn raid_after(
        &self,
        user: Option<&User>,
        raid: InternalChatUpdate,
        target_info: RaidedInfo,
        version: String,
        seconds: u64,
    ) -> (r: Option<DispatchCommand>)
        ensures
            self.answers_raid(user, raid, target_info@, version@, seconds, r),
    {
        let user = match user {
            Some(user) => user,
            None => return None,
        };
        let chat = match &user.chat {
            Some(chat) => chat,
            None => return None,
        };
        if !chat.enable_auto_stop_stream_on_host_or_raid {
            return None;
        }
        if !user.is_streaming || seconds < RAID_SECONDS {
            return None;
        }
        let command = if chat.announce_raid_on_auto_stop {
            Command::StopOnRaid(target_info)
        } else {
            Command::Stop
        };
        if !self.has_sender(raid.platform) {
            return None;
        }
        Some(
            DispatchCommand {
                lang: user.lang.clone(),
                command,
                chat_message: ChatMessage {
                    platform: raid.platform,
                    permission: Permission::Admin,
                    channel: raid.channel,
                    sender: "NOALBSbot".to_owned(),
                    message: "Hi your channel raided and I would like to stop it for you".to_owned(),
                },
                version,
            },
        )
    }

    /// The command that stops the stream for a raid. The clock decides whether the
    /// stream runs for long enough.
    pub fn handle_raid(
        &self,
        user: Option<&User>,
        raid: InternalChatUpdate,
        target_info: RaidedInfo,
        version: String,
    ) -> (r: Option<DispatchCommand>)
        ensures
            exists|at: Instant| #[trigger]
                self.answers_raid(
                    user,
                    raid,
                    target_info@,
                    version@,
                    since_started(user, at),
                    r,
                ),
    {
        let at = now();
        let seconds: u64 = match user {
            Some(user) => count_seconds(&at, &user.last_stream_started_at),
            None => 0,
        };
        assert(seconds == since_started(user, at));
        self.raid_after(user, raid, target_info, version, seconds)
    }
}

} // verus!

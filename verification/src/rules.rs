//! What holds of who may use commands, how often, and by which names.
use std::time::Instant;
use vstd::prelude::*;

use crate::clock::seconds_between;
use crate::command::{
    alias_known, alias_names, has_alias, permission_for, CommandInfoView, CommandPermissionsView,
    CommandView, Permission, RaidedInfoView,
};
use crate::dispatch::{command_begins, params_of};
use crate::handler::{
    command_word_of, has_timeout, lemma_timeout_place, lemma_timeout_place_unique, may_use, meant,
    noted, raid_dispatch, timeout_place, too_soon, ChatConfig, ChatHandler, TimeoutView, User,
    TIMEOUT_SECONDS,
};
use crate::message::{ChatMessage, ChatPlatform, DispatchCommand};
use crate::settings::{asked_value, toggle_begins};
use crate::text::{is_space, is_word, law_first_word, texts, words};
use crate::turn::{asks, done, EffectView, QueryView, StateView, Toggle};

verus! {

// Who may use a command.
/// Whether somebody may use every command: an admin by standing or by name.
pub open spec fn is_admin(chat: ChatConfig, sender: Seq<char>, standing: Permission) -> bool {
    standing == Permission::Admin || texts(chat.admins@).contains(sender)
}

/// Whether a command names somebody who may use it.
pub open spec fn is_named(permissions: CommandPermissionsView, sender: Seq<char>) -> bool {
    permissions.user_permissions is Some && permissions.user_permissions->0.contains(sender)
}

/// Admins may use every command, and so may those whom it names.
pub proof fn law_admins_and_named_may(
    chat: ChatConfig,
    sender: Seq<char>,
    standing: Permission,
    permissions: CommandPermissionsView,
)
    requires
        is_admin(chat, sender, standing) || is_named(permissions, sender),
    ensures
        may_use(chat, sender, standing, permissions),
{
}

/// What everybody may use, moderators may; and what moderators may use, admins may.
pub proof fn law_standing_never_hurts(
    chat: ChatConfig,
    sender: Seq<char>,
    permissions: CommandPermissionsView,
)
    ensures
        may_use(chat, sender, Permission::Public, permissions) ==> may_use(
            chat,
            sender,
            Permission::Mod,
            permissions,
        ),
        may_use(chat, sender, Permission::Mod, permissions) ==> may_use(
            chat,
            sender,
            Permission::Admin,
            permissions,
        ),
{
}

/// Opening commands to more people, or making more of them admins, takes them from nobody.
pub proof fn law_opening_never_hurts(
    chat: ChatConfig,
    wider: ChatConfig,
    sender: Seq<char>,
    standing: Permission,
    permissions: CommandPermissionsView,
)
    requires
        forall|name: Seq<char>| #[trigger]
            texts(chat.admins@).contains(name) ==> texts(wider.admins@).contains(name),
        chat.enable_public_commands ==> wider.enable_public_commands,
        chat.enable_mod_commands ==> wider.enable_mod_commands,
        may_use(chat, sender, standing, permissions),
    ensures
        may_use(wider, sender, standing, permissions),
{
}

/// Naming more people who may use a command takes it from nobody.
pub proof fn law_naming_never_hurts(
    chat: ChatConfig,
    sender: Seq<char>,
    standing: Permission,
    permissions: CommandPermissionsView,
    wider: CommandPermissionsView,
)
    requires
        wider.permission == permissions.permission,
        forall|name: Seq<char>| #[trigger] is_named(permissions, name) ==> is_named(wider, name),
        may_use(chat, sender, standing, permissions),
    ensures
        may_use(chat, sender, standing, wider),
{
    assert(is_named(permissions, sender) ==> is_named(wider, sender));
}

/// Where commands are open to nobody, only admins and those who are named may use them.
pub proof fn law_closed_to_others(
    chat: ChatConfig,
    sender: Seq<char>,
    standing: Permission,
    permissions: CommandPermissionsView,
)
    requires
        !chat.enable_public_commands,
        !chat.enable_mod_commands,
    ensures
        may_use(chat, sender, standing, permissions) == (is_admin(chat, sender, standing)
            || is_named(permissions, sender)),
{
}

/// A command that is configured nowhere is for admins alone.
pub proof fn law_unconfigured_for_admins(
    chat: ChatConfig,
    sender: Seq<char>,
    standing: Permission,
    command: CommandView,
    user_commands: Map<CommandView, CommandInfoView>,
    default_commands: Map<CommandView, CommandInfoView>,
)
    requires
        !user_commands.dom().contains(command),
        !default_commands.dom().contains(command),
    ensures
        may_use(chat, sender, standing, permission_for(command, user_commands, default_commands))
            == is_admin(chat, sender, standing),
{
}

/// What the user configures of a command counts, whatever it is by default; only where the
/// user names no standing does the one that it asks for by default.
pub proof fn law_user_comes_first(
    command: CommandView,
    user_commands: Map<CommandView, CommandInfoView>,
    default_commands: Map<CommandView, CommandInfoView>,
)
    requires
        user_commands.dom().contains(command),
    ensures
        ({
            let own = user_commands[command];
            let r = permission_for(command, user_commands, default_commands);
            &&& r.user_permissions == own.user_permissions
            &&& own.permission is Some ==> r.permission == own.permission
            &&& own.permission is None ==> r.permission == if default_commands.dom().contains(
                command,
            ) {
                default_commands[command].permission
            } else {
                None
            }
        }),
{
}

// Names of commands.
/// A word that names a command means that command, whatever the aliases are.
pub proof fn law_commands_mean_themselves(
    user_commands: Map<CommandView, CommandInfoView>,
    default_commands: Map<CommandView, CommandInfoView>,
    parsed: CommandView,
    command: CommandView,
)
    requires
        !(parsed is Unknown),
    ensures
        meant(user_commands, default_commands, parsed, command) == (command == parsed),
{
}

/// Some command is always meant.
pub proof fn law_something_is_meant(
    user_commands: Map<CommandView, CommandInfoView>,
    default_commands: Map<CommandView, CommandInfoView>,
    parsed: CommandView,
)
    ensures
        exists|command: CommandView|
            #[trigger] meant(user_commands, default_commands, parsed, command),
{
    match parsed {
        CommandView::Unknown(word) => {
            if alias_known(user_commands, word) {
                let c = choose|c: CommandView| alias_names(user_commands, word, c);
                assert(meant(user_commands, default_commands, parsed, c));
            } else if alias_known(default_commands, word) {
                let c = choose|c: CommandView| alias_names(default_commands, word, c);
                assert(meant(user_commands, default_commands, parsed, c));
            } else {
                assert(meant(user_commands, default_commands, parsed, parsed));
            }
        },
        _ => {
            assert(meant(user_commands, default_commands, parsed, parsed));
        },
    }
}

/// An alias of the user means a command of the user, not one by default.
pub proof fn law_user_aliases_come_first(
    user_commands: Map<CommandView, CommandInfoView>,
    default_commands: Map<CommandView, CommandInfoView>,
    word: Seq<char>,
    command: CommandView,
)
    requires
        alias_known(user_commands, word),
    ensures
        meant(user_commands, default_commands, CommandView::Unknown(word), command)
            == alias_names(user_commands, word, command),
{
}

/// An alias that the user gives to a single command means that command.
pub proof fn law_alias_means_its_command(
    user_commands: Map<CommandView, CommandInfoView>,
    default_commands: Map<CommandView, CommandInfoView>,
    word: Seq<char>,
    command: CommandView,
    info: CommandInfoView,
    other: CommandView,
)
    requires
        !alias_known(user_commands, word),
        has_alias(info, word),
    ensures
        meant(
            user_commands.insert(command, info),
            default_commands,
            CommandView::Unknown(word),
            other,
        ) == (other == command),
{
    let after = user_commands.insert(command, info);
    assert(alias_names(after, word, command));
    assert(alias_known(after, word));
    if alias_names(after, word, other) && other != command {
        assert(alias_names(user_commands, word, other));
    }
}

/// A word that is neither a command nor an alias leads to nothing.
pub proof fn law_unknown_words_do_nothing(
    user_commands: Map<CommandView, CommandInfoView>,
    default_commands: Map<CommandView, CommandInfoView>,
    word: Seq<char>,
    command: CommandView,
    params: Seq<Seq<char>>,
    platform: ChatPlatform,
    lang: Seq<char>,
    version: Seq<char>,
)
    requires
        !alias_known(user_commands, word),
        !alias_known(default_commands, word),
        meant(user_commands, default_commands, CommandView::Unknown(word), command),
    ensures
        command == CommandView::Unknown(word),
        command_begins(command, params, platform, lang, version) == done(),
{
}

/// A message that starts with the prefix and a word gives that word as a command, and what
/// follows as its parameters.
pub proof fn law_messages_read_back(prefix: Seq<char>, word: Seq<char>, rest: Seq<char>)
    requires
        (prefix + word).len() > 0,
        is_word(prefix + word, false),
        rest.len() == 0 || rest[0] == ' ',
    ensures
        words(prefix + word + rest, true).len() > 0,
        command_word_of(prefix + word + rest, prefix) == Some(word),
        params_of(prefix + word + rest) == words(rest, false),
{
    let first = prefix + word;
    assert forall|i: int| 0 <= i < first.len() implies !is_space(#[trigger] first[i], true) by {
        assert(!is_space(first[i], false));
    }
    law_first_word(first, rest, true);
    law_first_word(first, rest, false);
    assert(first.subrange(0, prefix.len() as int) =~= prefix);
    assert(first.skip(prefix.len() as int) =~= word);
    assert((seq![first] + words(rest, false)).skip(1) =~= words(rest, false));
}

// How often.
/// Whether no channel has two timeouts.
pub open spec fn one_timeout_each(timeouts: Seq<TimeoutView>) -> bool {
    forall|i: int, j: int|
        0 <= i < j < timeouts.len() ==> (#[trigger] timeouts[i]).channel != (
        #[trigger] timeouts[j]).channel
}

/// Noting a command keeps one timeout for each channel.
pub proof fn law_one_timeout_each(timeouts: Seq<TimeoutView>, channel: Seq<char>, time: Instant)
    requires
        one_timeout_each(timeouts),
    ensures
        one_timeout_each(noted(timeouts, channel, time)),
{
    lemma_timeout_place(timeouts, channel);
    let after = noted(timeouts, channel, time);
    assert forall|i: int, j: int| 0 <= i < j < after.len() implies (#[trigger] after[i]).channel
        != (#[trigger] after[j]).channel by {
        if j < timeouts.len() {
            assert(timeouts[i].channel != timeouts[j].channel);
            assert(after[i].channel == timeouts[i].channel);
            assert(after[j].channel == timeouts[j].channel);
        } else {
            assert(timeouts[i].channel != channel);
        }
    }
}

/// A command that was noted makes those after it wait: they are refused as long as no more
/// than the timeout has passed, and the time that counts is that of the command.
pub proof fn law_noted_commands_count(
    timeouts: Seq<TimeoutView>,
    channel: Seq<char>,
    time: Instant,
    seconds: u64,
)
    ensures
        ({
            let after = noted(timeouts, channel, time);
            &&& has_timeout(after, channel)
            &&& after[timeout_place(after, channel) as int].time == time
            &&& too_soon(after, channel, seconds) == (seconds <= TIMEOUT_SECONDS)
        }),
{
    lemma_timeout_place(timeouts, channel);
    let after = noted(timeouts, channel, time);
    let at = timeout_place(timeouts, channel) as int;
    assert forall|i: int| 0 <= i < at implies (#[trigger] after[i]).channel != channel by {
        assert(timeouts[i].channel != channel);
    }
    lemma_timeout_place_unique(after, channel, at);
}

/// A command in one channel makes nobody wait in another.
pub proof fn law_channels_are_apart(
    timeouts: Seq<TimeoutView>,
    channel: Seq<char>,
    other: Seq<char>,
    time: Instant,
    seconds: u64,
)
    requires
        channel != other,
    ensures
        ({
            let after = noted(timeouts, channel, time);
            &&& too_soon(after, other, seconds) == too_soon(timeouts, other, seconds)
            &&& has_timeout(timeouts, other) ==> after[timeout_place(after, other) as int]
                == timeouts[timeout_place(timeouts, other) as int]
        }),
{
    lemma_timeout_place(timeouts, channel);
    lemma_timeout_place(timeouts, other);
    let after = noted(timeouts, channel, time);
    let at = timeout_place(timeouts, other) as int;
    let place = if at < timeouts.len() {
        at
    } else {
        after.len() as int
    };
    assert forall|i: int| 0 <= i < place implies (#[trigger] after[i]).channel != other by {
        if i < timeouts.len() {
            assert(timeouts[i].channel != other);
            assert(after[i].channel == timeouts[i].channel);
        }
    }
    lemma_timeout_place_unique(after, other, place);
}

/// A wait is counted from the last command that was noted in the same channel, whatever
/// was noted in others.
pub proof fn law_waits_count_from_the_own_channel(
    before: ChatHandler,
    after: ChatHandler,
    channel: Seq<char>,
    other: Seq<char>,
    time: Instant,
    at: Instant,
)
    requires
        after.timeouts_spec() == noted(before.timeouts_spec(), channel, time),
        channel != other,
    ensures
        after.since_last(channel, at) == seconds_between(at, time),
        after.since_last(other, at) == before.since_last(other, at),
{
    law_noted_commands_count(before.timeouts_spec(), channel, time, 0);
    law_channels_are_apart(before.timeouts_spec(), channel, other, time, 0);
}

/// After a command of somebody without standing was let through, another one in the same
/// channel is refused as long as no more than the timeout has passed.
pub proof fn law_second_command_waits(
    before: ChatHandler,
    between: ChatHandler,
    after: ChatHandler,
    user: &User,
    first: ChatMessage,
    first_parsed: CommandView,
    first_seconds: u64,
    first_time: Instant,
    answer: Option<DispatchCommand>,
    second_user: Option<&User>,
    second: ChatMessage,
    parsed: CommandView,
    version: Seq<char>,
    seconds: u64,
    time: Instant,
    r: Option<DispatchCommand>,
)
    requires
        answer is Some,
        before.answers(
            between,
            Some(user),
            first,
            first_parsed,
            version,
            first_seconds,
            first_time,
            answer,
        ),
        between.answers(after, second_user, second, parsed, version, seconds, time, r),
        first.permission == Permission::Public,
        second.permission == Permission::Public,
        first.channel@ == second.channel@,
        seconds <= TIMEOUT_SECONDS,
    ensures
        r is None,
        after.timeouts_spec() == between.timeouts_spec(),
{
    law_noted_commands_count(before.timeouts_spec(), first.channel@, first_time, seconds);
}

/// Those with standing never wait: time makes no difference to them, and their commands
/// make nobody wait.
pub proof fn law_standing_never_waits(
    before: ChatHandler,
    after: ChatHandler,
    user: Option<&User>,
    msg: ChatMessage,
    parsed: CommandView,
    version: Seq<char>,
    seconds: u64,
    time: Instant,
    r: Option<DispatchCommand>,
    other_seconds: u64,
    other_time: Instant,
)
    requires
        before.answers(after, user, msg, parsed, version, seconds, time, r),
        msg.permission != Permission::Public,
    ensures
        before.answers(after, user, msg, parsed, version, other_seconds, other_time, r),
        after.timeouts_spec() == before.timeouts_spec(),
{
    if ChatHandler::gives_command(user, msg) {
        let command = choose|command: CommandView|
            {
                &&& before.means(user->0.chat->0, parsed, command)
                &&& #[trigger] before.answers_as(
                    after,
                    *user->0,
                    msg,
                    command,
                    version,
                    seconds,
                    time,
                    r,
                )
            };
        assert(before.answers_as(
            after,
            *user->0,
            msg,
            command,
            version,
            other_seconds,
            other_time,
            r,
        ));
    }
}

/// Whatever message is handled, no channel comes to have two timeouts.
pub proof fn law_handling_keeps_one_timeout_each(
    before: ChatHandler,
    after: ChatHandler,
    user: Option<&User>,
    msg: ChatMessage,
    parsed: CommandView,
    version: Seq<char>,
    seconds: u64,
    time: Instant,
    r: Option<DispatchCommand>,
)
    requires
        before.answers(after, user, msg, parsed, version, seconds, time, r),
        one_timeout_each(before.timeouts_spec()),
    ensures
        one_timeout_each(after.timeouts_spec()),
{
    law_one_timeout_each(before.timeouts_spec(), msg.channel@, time);
}

/// Whatever is carried out for a message, its sender may use.
pub proof fn law_only_permitted_commands(
    before: ChatHandler,
    after: ChatHandler,
    user: Option<&User>,
    msg: ChatMessage,
    parsed: CommandView,
    version: Seq<char>,
    seconds: u64,
    time: Instant,
    r: Option<DispatchCommand>,
)
    requires
        before.answers(after, user, msg, parsed, version, seconds, time, r),
        r is Some,
    ensures
        user is Some && user->0.chat is Some,
        before.means(user->0.chat->0, parsed, r->0.command@),
        before.permits(user->0.chat->0, msg, r->0.command@),
        before.senders().contains(msg.platform),
{
}

// Raids.
/// A raid stops the stream, and names the raided channel where that is configured.
pub proof fn law_raids_stop_the_stream(
    dispatched: DispatchCommand,
    user: User,
    platform: ChatPlatform,
    channel: Seq<char>,
    target: RaidedInfoView,
    version: Seq<char>,
)
    requires
        user.chat is Some,
        raid_dispatch(dispatched, user, platform, channel, target, version),
    ensures
        command_begins(
            dispatched.command@,
            params_of(dispatched.chat_message.message@),
            dispatched.chat_message.platform,
            dispatched.lang@,
            dispatched.version@,
        ) == asks(
            QueryView::StreamOptions,
            StateView::StopOptions(
                if user.chat->0.announce_raid_on_auto_stop {
                    Some(target)
                } else {
                    None
                },
            ),
        ),
{
}

// Settings.
/// A word that is neither on nor off changes no setting: it is told as it is.
pub proof fn law_other_words_change_nothing(toggle: Toggle, word: Option<Seq<char>>)
    requires
        asked_value(word) is None,
    ensures
        toggle_begins(toggle, asked_value(word)).effects == Seq::<EffectView>::empty(),
        toggle_begins(toggle, asked_value(word)) == toggle_begins(toggle, None),
{
}

} // verus!

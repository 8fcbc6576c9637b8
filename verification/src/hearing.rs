//! Which messages are heard, from whom and how often, and what is made of them.
use std::time::Instant;
use vstd::prelude::*;

use crate::clock::{count_seconds, seconds_between};
use crate::command::{
    alias_known, alias_names, get_command_from_alias_string, get_permission, maybe_table,
    try_get_command_from_alias, Command, CommandInfoView, CommandPermissions,
    CommandPermissionsView, CommandTable, CommandView, Permission, RaidedInfo,
};
use crate::handler::{
    command_word_of, default_commands, has_timeout, lemma_timeout_place, may_use, meant,
    note_command, noted, task_of, timeout_place, timeouts_view, too_soon, ChatConfig, ChatHandler,
    Task, Timeout, TimeoutView, User,
};
use crate::message::{
    AutomaticSwitchingScene, ChatMessage, ChatPlatform, DispatchCommand, HandleMessage,
    InternalChatUpdate, InternalUpdate,
};
use crate::phrase::{Message, MessageView, PhraseView};
use crate::rules::{is_admin, is_named};
use crate::text::{is_space, is_word, law_first_word, texts, words};
use crate::turn::Turn;

verus! {

// Who may use a command.
/// Whether somebody who is neither an admin nor named may use a command, by standing:
/// viewers what is for everybody, where that is open; moderators that too, where anything
/// is open, and what is for moderators, where that is open.
pub open spec fn by_standing(
    standing: Permission,
    wanted: Option<Permission>,
    public_open: bool,
    mod_open: bool,
) -> bool {
    match (standing, wanted) {
        (Permission::Public, Some(Permission::Public)) => public_open,
        (Permission::Mod, Some(Permission::Public)) => public_open || mod_open,
        (Permission::Mod, Some(Permission::Mod)) => mod_open,
        _ => false,
    }
}

/// Admins may use a command, those whom it names may, and others by their standing alone.
pub proof fn law_others_go_by_standing(
    handler: &ChatHandler,
    chat: Option<ChatConfig>,
    msg: &ChatMessage,
    permissions: &CommandPermissions,
    r: Option<bool>,
)
    requires
        call_ensures(ChatHandler::is_allowed_to_use_command, (handler, &chat, msg, permissions), r),
    ensures
        chat is None ==> r is None,
        chat is Some ==> r == Some(
            {
                let chat = chat->0;
                ||| msg.permission == Permission::Admin
                ||| exists|i: int|
                    0 <= i < chat.admins@.len() && (#[trigger] chat.admins@[i])@ == msg.sender@
                ||| permissions.user_permissions is Some && exists|i: int|
                    0 <= i < permissions.user_permissions->0@.len() && (
                    #[trigger] permissions.user_permissions->0@[i])@ == msg.sender@
                ||| by_standing(
                    msg.permission,
                    permissions.permission,
                    chat.enable_public_commands,
                    chat.enable_mod_commands,
                )
            },
        ),
{
    if let Some(chat) = chat {
        lemma_listed(chat.admins@, msg.sender@);
        if let Some(names) = permissions.user_permissions {
            lemma_listed(names@, msg.sender@);
        }
    }
}

proof fn lemma_listed(list: Seq<String>, s: Seq<char>)
    ensures
        texts(list).contains(s) == exists|i: int|
            0 <= i < list.len() && (#[trigger] list[i])@ == s,
{
    if texts(list).contains(s) {
        let i = choose|i: int| 0 <= i < texts(list).len() && texts(list)[i] == s;
        assert(list[i]@ == s);
    }
    if exists|i: int| 0 <= i < list.len() && (#[trigger] list[i])@ == s {
        let i = choose|i: int| 0 <= i < list.len() && (#[trigger] list[i])@ == s;
        assert(texts(list)[i] == s);
    }
}

/// Naming somebody opens a command to that one alone: for a sender who is no admin and is
/// not named, it makes no difference whom a command names; and a moderator of this kind may
/// use only what is for moderators or for everybody.
pub proof fn law_names_open_to_the_named_alone(
    chat: ChatConfig,
    sender: Seq<char>,
    standing: Permission,
    permissions: CommandPermissionsView,
    others: Option<Seq<Seq<char>>>,
)
    requires
        !is_admin(chat, sender, standing),
        !is_named(permissions, sender),
        !is_named(CommandPermissionsView { user_permissions: others, ..permissions }, sender),
    ensures
        may_use(chat, sender, standing, permissions) == may_use(
            chat,
            sender,
            standing,
            CommandPermissionsView { user_permissions: others, ..permissions },
        ),
        may_use(chat, sender, standing, permissions) ==> permissions.permission == Some(
            Permission::Public,
        ) || (permissions.permission == Some(Permission::Mod) && standing == Permission::Mod),
{
}

/// What the user configures of a command comes before what it is by default, the default
/// standing counts where the user names none, and what is configured nowhere is for admins.
pub proof fn law_configurations_are_looked_up(
    command: &Command,
    user_commands: Option<CommandTable>,
    default_commands: &CommandTable,
    r: CommandPermissions,
)
    requires
        call_ensures(get_permission, (command, &user_commands, default_commands), r),
    ensures
        ({
            let own = user_commands is Some && user_commands->0@.dom().contains(command@);
            let default = default_commands@.dom().contains(command@);
            if own {
                &&& r@.user_permissions == user_commands->0@[command@].user_permissions
                &&& r@.permission == if user_commands->0@[command@].permission is Some {
                    user_commands->0@[command@].permission
                } else if default {
                    default_commands@[command@].permission
                } else {
                    None
                }
            } else if default {
                &&& r@.user_permissions == default_commands@[command@].user_permissions
                &&& r@.permission == default_commands@[command@].permission
            } else {
                &&& r@.user_permissions is None
                &&& r@.permission == Some(Permission::Admin)
            }
        }),
{
}

/// Which commands are configured by default: some are for everybody, the others for
/// moderators, and switching for admins; none names anybody or has an alias.
pub proof fn law_defaults(command: CommandView)
    ensures
        ({
            let public = command is Bitrate || command is Version;
            let mods = command is Fix || command is ServerInfo || command is Otrigger
                || command is Refresh || command is Rtrigger || command is Sourceinfo
                || command is Trigger;
            &&& default_commands().dom().contains(command) == (public || mods || command is Switch)
            &&& default_commands().dom().contains(command) ==> {
                let info = default_commands()[command];
                &&& info.alias is None
                &&& info.user_permissions is None
                &&& info.permission == if public {
                    Some(Permission::Public)
                } else if mods {
                    Some(Permission::Mod)
                } else {
                    None
                }
            }
        }),
{
}

/// A new handler knows the defaults, has noted nothing and can say nothing.
pub proof fn law_new_handlers(r: ChatHandler)
    requires
        call_ensures(ChatHandler::new, (), r),
    ensures
        r.default_commands@ == default_commands(),
        r.timeouts@.len() == 0,
        forall|platform: ChatPlatform| !r.senders().contains(platform),
{
    assert(r.timeouts_spec().len() == r.timeouts@.len());
}

// Names.
/// Whether a word is an alias of a command in a table.
pub open spec fn goes_by(
    commands: Map<CommandView, CommandInfoView>,
    command: CommandView,
    word: Seq<char>,
) -> bool {
    &&& commands.dom().contains(command)
    &&& commands[command].alias is Some
    &&& exists|i: int|
        0 <= i < commands[command].alias->0.len() && #[trigger] commands[command].alias->0[i]
            == word
}

proof fn lemma_goes_by(
    commands: Map<CommandView, CommandInfoView>,
    command: CommandView,
    word: Seq<char>,
)
    ensures
        alias_names(commands, word, command) == goes_by(commands, command, word),
{
}

/// An alias is looked up among the commands of a table: what is found goes by it, and
/// nothing is found where none does.
pub proof fn law_aliases_are_looked_up(
    commands: &CommandTable,
    word: &str,
    r: Option<Command>,
    command: CommandView,
)
    requires
        call_ensures(get_command_from_alias_string, (commands, word), r),
    ensures
        r is Some ==> goes_by(commands@, r->0@, word@),
        goes_by(commands@, command, word@) ==> r is Some,
{
    lemma_goes_by(commands@, command, word@);
    if r is Some {
        lemma_goes_by(commands@, r->0@, word@);
    }
}

/// An alias of the user comes before one by default, and both come before none.
pub proof fn law_aliases_of_the_user_come_first(
    user_commands: Option<CommandTable>,
    default_commands: &CommandTable,
    word: &str,
    r: Option<Command>,
    own: CommandView,
    default: CommandView,
)
    requires
        call_ensures(try_get_command_from_alias, (&user_commands, default_commands, word), r),
    ensures
        user_commands is Some && goes_by(user_commands->0@, own, word@) ==> r is Some && goes_by(
            user_commands->0@,
            r->0@,
            word@,
        ),
        goes_by(default_commands@, default, word@) ==> r is Some,
        r is Some ==> goes_by(default_commands@, r->0@, word@) || (user_commands is Some
            && goes_by(user_commands->0@, r->0@, word@)),
{
    let user = maybe_table(user_commands);
    lemma_goes_by(user, own, word@);
    lemma_goes_by(default_commands@, default, word@);
    if r is Some {
        lemma_goes_by(user, r->0@, word@);
        lemma_goes_by(default_commands@, r->0@, word@);
    }
}

/// Whether a word may mean a command: it is an alias of the command, for the user or by
/// default, or it is an alias of none and the command stands for the unknown word.
pub open spec fn may_mean(
    user_commands: Map<CommandView, CommandInfoView>,
    default_commands: Map<CommandView, CommandInfoView>,
    word: Seq<char>,
    command: CommandView,
) -> bool {
    ||| goes_by(user_commands, command, word)
    ||| {
        &&& forall|other: CommandView| !#[trigger] goes_by(user_commands, other, word)
        &&& goes_by(default_commands, command, word)
    }
    ||| {
        &&& forall|other: CommandView| !#[trigger] goes_by(user_commands, other, word)
        &&& forall|other: CommandView| !#[trigger] goes_by(default_commands, other, word)
        &&& command == CommandView::Unknown(word)
    }
}

proof fn lemma_may_mean(
    user_commands: Map<CommandView, CommandInfoView>,
    default_commands: Map<CommandView, CommandInfoView>,
    word: Seq<char>,
    command: CommandView,
)
    ensures
        meant(user_commands, default_commands, CommandView::Unknown(word), command) == may_mean(
            user_commands,
            default_commands,
            word,
            command,
        ),
{
    assert forall|other: CommandView|
        alias_names(user_commands, word, other) == goes_by(user_commands, other, word) && (
        alias_names(default_commands, word, other) == goes_by(default_commands, other, word)) by {
        lemma_goes_by(user_commands, other, word);
        lemma_goes_by(default_commands, other, word);
    }
    assert(alias_known(user_commands, word) == exists|other: CommandView|
        goes_by(user_commands, other, word)) by {
        if alias_known(user_commands, word) {
            let other = choose|other: CommandView| alias_names(user_commands, word, other);
            assert(goes_by(user_commands, other, word));
        }
        if exists|other: CommandView| goes_by(user_commands, other, word) {
            let other = choose|other: CommandView| goes_by(user_commands, other, word);
            assert(alias_names(user_commands, word, other));
        }
    }
    assert(alias_known(default_commands, word) == exists|other: CommandView|
        goes_by(default_commands, other, word)) by {
        if alias_known(default_commands, word) {
            let other = choose|other: CommandView| alias_names(default_commands, word, other);
            assert(goes_by(default_commands, other, word));
        }
        if exists|other: CommandView| goes_by(default_commands, other, word) {
            let other = choose|other: CommandView| goes_by(default_commands, other, word);
            assert(alias_names(default_commands, word, other));
        }
    }
}

/// A word that names a command means it; another one means the command that it is an alias
/// of, for the user first, or nothing that is known.
pub proof fn law_words_mean_commands(
    handler: &ChatHandler,
    parsed: Command,
    user_commands: Option<CommandTable>,
    r: (Command, CommandPermissions),
)
    requires
        call_ensures(ChatHandler::resolve_command, (handler, parsed, &user_commands), r),
    ensures
        !(parsed@ is Unknown) ==> r.0@ == parsed@,
        parsed@ is Unknown ==> may_mean(
            maybe_table(user_commands),
            handler.default_commands@,
            parsed@->Unknown_0,
            r.0@,
        ),
{
    if parsed@ is Unknown {
        lemma_may_mean(
            maybe_table(user_commands),
            handler.default_commands@,
            parsed@->Unknown_0,
            r.0@,
        );
    }
}

/// The command word of a message is what follows the prefix in its first word; a message
/// whose first word does not begin with the prefix has none.
pub proof fn law_first_words_give_commands(
    handler: &ChatHandler,
    chat: Option<ChatConfig>,
    msg: &ChatMessage,
    r: Option<String>,
    first: Seq<char>,
    rest: Seq<char>,
    word: Seq<char>,
)
    requires
        call_ensures(ChatHandler::command_word, (handler, &chat, msg), r),
        first.len() > 0,
        is_word(first, true),
        rest.len() == 0 || is_space(rest[0], true),
        msg.message@ == first + rest,
    ensures
        chat is None ==> r is None,
        chat is Some && first == chat->0.prefix@ + word ==> r is Some && r->0@ == word,
        chat is Some && r is Some ==> first == chat->0.prefix@ + r->0@,
{
    law_first_word(first, rest, true);
    if let Some(chat) = chat {
        let prefix = chat.prefix@;
        assert(words(msg.message@, true)[0] == first);
        if first == prefix + word {
            assert(first.subrange(0, prefix.len() as int) =~= prefix);
            assert(first.skip(prefix.len() as int) =~= word);
        }
        if r is Some {
            assert(command_word_of(msg.message@, prefix) == Some(r->0@));
            assert(first =~= first.subrange(0, prefix.len() as int) + first.skip(
                prefix.len() as int,
            ));
        }
    }
}

// How often.
/// A command is refused exactly where one was noted in the same channel and no more than
/// five seconds have passed; else it is noted: in the place of the one before it, or behind
/// the others. Nothing else changes.
pub proof fn law_five_seconds(
    timeouts: Seq<TimeoutView>,
    channel: Seq<char>,
    seconds: u64,
    time: Instant,
)
    ensures
        too_soon(timeouts, channel, seconds) == (seconds <= 5 && exists|i: int|
            0 <= i < timeouts.len() && (#[trigger] timeouts[i]).channel == channel),
        ({
            let after = noted(timeouts, channel, time);
            let known = exists|i: int|
                0 <= i < timeouts.len() && (#[trigger] timeouts[i]).channel == channel;
            &&& after.len() == timeouts.len() + if known {
                0int
            } else {
                1int
            }
            &&& exists|i: int|
                0 <= i < after.len() && #[trigger] after[i] == (TimeoutView { channel, time })
            &&& forall|i: int|
                0 <= i < timeouts.len() && timeouts[i].channel != channel
                    ==> #[trigger] after[i] == timeouts[i]
        }),
{
    lemma_timeout_place(timeouts, channel);
    let at = timeout_place(timeouts, channel) as int;
    let after = noted(timeouts, channel, time);
    let known = exists|i: int|
        0 <= i < timeouts.len() && (#[trigger] timeouts[i]).channel == channel;
    if known {
        let i = choose|i: int|
            0 <= i < timeouts.len() && (#[trigger] timeouts[i]).channel == channel;
        assert(!(i < at));
    }
    assert(known == has_timeout(timeouts, channel));
    assert(after[at] == (TimeoutView { channel, time }));
}

/// Noting a command refuses it or notes it.
pub proof fn law_commands_are_noted(
    timeouts: &mut Vec<Timeout>,
    channel: &str,
    seconds: u64,
    time: Instant,
    refused: bool,
)
    requires
        call_ensures(note_command, (timeouts, channel, seconds, time), refused),
    ensures
        refused == (seconds <= 5 && exists|i: int|
            0 <= i < old(timeouts)@.len() && (#[trigger] old(timeouts)@[i]).channel@ == channel@),
        refused ==> final(timeouts)@ == old(timeouts)@,
        !refused ==> timeouts_view(final(timeouts)@) == noted(
            timeouts_view(old(timeouts)@),
            channel@,
            time,
        ),
{
    let before = timeouts_view(old(timeouts)@);
    law_five_seconds(before, channel@, seconds, time);
    lemma_known(old(timeouts)@, channel@);
}

proof fn lemma_known(timeouts: Seq<Timeout>, channel: Seq<char>)
    ensures
        (exists|i: int|
            0 <= i < timeouts.len() && (#[trigger] timeouts[i]).channel@ == channel) == (exists|
            i: int,
        |
            0 <= i < timeouts.len() && (#[trigger] timeouts_view(timeouts)[i]).channel == channel),
{
    let view = timeouts_view(timeouts);
    if exists|i: int| 0 <= i < timeouts.len() && (#[trigger] timeouts[i]).channel@ == channel {
        let i = choose|i: int|
            0 <= i < timeouts.len() && (#[trigger] timeouts[i]).channel@ == channel;
        assert(view[i].channel == channel);
    }
    if exists|i: int| 0 <= i < timeouts.len() && (#[trigger] view[i]).channel == channel {
        let i = choose|i: int| 0 <= i < timeouts.len() && (#[trigger] view[i]).channel == channel;
        assert(timeouts[i].channel@ == channel);
    }
}

/// The time of the first timeout of a channel is the one that counts.
pub open spec fn first_noted(timeouts: Seq<Timeout>, channel: Seq<char>, at: int) -> bool {
    &&& 0 <= at < timeouts.len()
    &&& timeouts[at].channel@ == channel
    &&& forall|i: int| 0 <= i < at ==> (#[trigger] timeouts[i]).channel@ != channel
}

proof fn lemma_since_last(handler: ChatHandler, channel: Seq<char>, at: int, now: Instant)
    requires
        first_noted(handler.timeouts@, channel, at),
    ensures
        has_timeout(handler.timeouts_spec(), channel),
        handler.since_last(channel, now) == seconds_between(now, handler.timeouts@[at].time),
{
    let view = handler.timeouts_spec();
    assert(view[at].channel == channel);
    assert forall|i: int| 0 <= i < at implies (#[trigger] view[i]).channel != channel by {
        assert(handler.timeouts@[i].channel@ != channel);
    }
    crate::handler::lemma_timeout_place_unique(view, channel, at);
}

/// A channel that had a command waits: its next one is refused exactly where the clock, read
/// then, is no more than five seconds behind the time of that command. A channel that had
/// none does not wait.
pub proof fn law_channels_wait_by_the_clock(
    handler: &mut ChatHandler,
    platform: &ChatPlatform,
    channel: &str,
    refused: bool,
    place: int,
)
    requires
        call_ensures(ChatHandler::handle_timeout, (handler, platform, channel), refused),
        *platform == ChatPlatform::Twitch,
    ensures
        first_noted(old(handler).timeouts@, channel@, place) ==> exists|now: Instant|
            refused == (#[trigger] seconds_between(now, old(handler).timeouts@[place].time) <= 5),
        (forall|i: int|
            0 <= i < old(handler).timeouts@.len() ==> (
            #[trigger] old(handler).timeouts@[i]).channel@ != channel@) ==> !refused,
        refused ==> final(handler).timeouts_spec() == old(handler).timeouts_spec(),
        !refused ==> exists|time: Instant|
            final(handler).timeouts_spec() == #[trigger] noted(
                old(handler).timeouts_spec(),
                channel@,
                time,
            ),
{
    let (at, time) = choose|at: Instant, time: Instant| #[trigger]
        old(handler).limits(*final(handler), channel@, at, time, refused);
    let before = old(handler).timeouts_spec();
    law_five_seconds(before, channel@, old(handler).since_last(channel@, at), time);
    lemma_known(old(handler).timeouts@, channel@);
    if first_noted(old(handler).timeouts@, channel@, place) {
        lemma_since_last(*old(handler), channel@, place, at);
        assert(before[place].channel == channel@);
        assert(refused == (seconds_between(at, old(handler).timeouts@[place].time) <= 5));
    }
}

// Chat messages.
/// Whether a message gives a word, behind the prefix of the user's chat.
pub open spec fn gives(msg: ChatMessage, user: User, word: Seq<char>, rest: Seq<char>) -> bool {
    let first = user.chat->0.prefix@ + word;
    &&& user.chat is Some
    &&& first.len() > 0
    &&& is_word(first, true)
    &&& rest.len() == 0 || is_space(rest[0], true)
    &&& msg.message@ == first + rest
}

/// A command of an admin or a moderator is carried out where they may use it and it can be
/// answered, and at once; that of a viewer too, unless the channel has to wait. What is
/// carried out is the command that was meant, for the message that asked, in the language
/// of the user.
pub proof fn law_commands_are_heard(
    handler: &mut ChatHandler,
    user: &User,
    msg: ChatMessage,
    parsed: Command,
    version: String,
    r: Option<DispatchCommand>,
    word: Seq<char>,
    rest: Seq<char>,
    place: int,
)
    requires
        call_ensures(
            ChatHandler::handle_chat_message,
            (handler, Some(user), msg, parsed, version),
            r,
        ),
        old(handler).can_handle(Some(user), msg, parsed@),
        gives(msg, *user, word, rest),
        !(parsed@ is Unknown),
    ensures
        ({
            let may = old(handler).permits(user.chat->0, msg, parsed@);
            let answerable = old(handler).senders().contains(msg.platform);
            let viewer = msg.permission == Permission::Public;
            let fresh = forall|i: int|
                0 <= i < old(handler).timeouts@.len() ==> (
                #[trigger] old(handler).timeouts@[i]).channel@ != msg.channel@;
            &&& !may ==> r is None
            &&& !answerable ==> r is None
            &&& may && answerable && (!viewer || fresh) ==> r is Some
            &&& may && answerable && viewer && first_noted(
                old(handler).timeouts@,
                msg.channel@,
                place,
            ) ==> exists|now: Instant|
                (r is Some) == (#[trigger] seconds_between(now, old(handler).timeouts@[place].time)
                    > 5)
            &&& r is Some ==> {
                &&& r->0.command@ == parsed@
                &&& r->0.lang@ == user.lang@
                &&& r->0.version@ == version@
                &&& r->0.chat_message == msg
            }
            &&& !viewer || !may ==> final(handler).timeouts_spec() == old(handler).timeouts_spec()
            &&& viewer && may && fresh ==> exists|time: Instant|
                final(handler).timeouts_spec() == #[trigger] noted(
                    old(handler).timeouts_spec(),
                    msg.channel@,
                    time,
                )
        }),
{
    let (at, time) = choose|at: Instant, time: Instant| #[trigger]
        old(handler).answers(
            *final(handler),
            Some(user),
            msg,
            parsed@,
            version@,
            old(handler).since_last(msg.channel@, at),
            time,
            r,
        );
    let prefix = user.chat->0.prefix@;
    let first = prefix + word;
    law_first_word(first, rest, true);
    assert(words(msg.message@, true)[0] == first);
    assert(first.subrange(0, prefix.len() as int) =~= prefix);
    assert(first.skip(prefix.len() as int) =~= word);
    assert(ChatHandler::gives_command(Some(user), msg));
    let seconds = old(handler).since_last(msg.channel@, at);
    law_five_seconds(old(handler).timeouts_spec(), msg.channel@, seconds, time);
    lemma_known(old(handler).timeouts@, msg.channel@);
    if first_noted(old(handler).timeouts@, msg.channel@, place) {
        lemma_since_last(*old(handler), msg.channel@, place, at);
        assert(old(handler).timeouts_spec()[place].channel == msg.channel@);
        assert(seconds == seconds_between(at, old(handler).timeouts@[place].time));
    }
}

/// An alias is heard as the command that it may mean: where its sender may use it and it
/// can be answered, it is carried out for the message that asked.
pub proof fn law_aliases_are_heard(
    handler: &mut ChatHandler,
    user: &User,
    msg: ChatMessage,
    parsed: Command,
    version: String,
    r: Option<DispatchCommand>,
    word: Seq<char>,
    rest: Seq<char>,
)
    requires
        call_ensures(
            ChatHandler::handle_chat_message,
            (handler, Some(user), msg, parsed, version),
            r,
        ),
        old(handler).can_handle(Some(user), msg, parsed@),
        gives(msg, *user, word, rest),
        parsed@ is Unknown,
    ensures
        ({
            let table = maybe_table(user.chat->0.commands);
            let default = old(handler).default_commands@;
            let name = parsed@->Unknown_0;
            &&& r is Some ==> {
                &&& may_mean(table, default, name, r->0.command@)
                &&& old(handler).permits(user.chat->0, msg, r->0.command@)
                &&& old(handler).senders().contains(msg.platform)
                &&& r->0.lang@ == user.lang@
                &&& r->0.version@ == version@
                &&& r->0.chat_message == msg
            }
            &&& (forall|command: CommandView| #[trigger]
                may_mean(table, default, name, command) ==> old(handler).permits(
                    user.chat->0,
                    msg,
                    command,
                )) && msg.permission != Permission::Public && old(handler).senders().contains(
                msg.platform,
            ) ==> r is Some
        }),
{
    let (at, time) = choose|at: Instant, time: Instant| #[trigger]
        old(handler).answers(
            *final(handler),
            Some(user),
            msg,
            parsed@,
            version@,
            old(handler).since_last(msg.channel@, at),
            time,
            r,
        );
    let prefix = user.chat->0.prefix@;
    let first = prefix + word;
    law_first_word(first, rest, true);
    assert(words(msg.message@, true)[0] == first);
    assert(first.subrange(0, prefix.len() as int) =~= prefix);
    assert(first.skip(prefix.len() as int) =~= word);
    assert(ChatHandler::gives_command(Some(user), msg));
    let seconds = old(handler).since_last(msg.channel@, at);
    let command = choose|command: CommandView|
        {
            &&& old(handler).means(user.chat->0, parsed@, command)
            &&& #[trigger] old(handler).answers_as(
                *final(handler),
                *user,
                msg,
                command,
                version@,
                seconds,
                time,
                r,
            )
        };
    lemma_may_mean(
        maybe_table(user.chat->0.commands),
        old(handler).default_commands@,
        parsed@->Unknown_0,
        command,
    );
}

/// A message whose first word does not begin with the prefix is not heard.
pub proof fn law_messages_without_the_prefix_are_not_heard(
    handler: &mut ChatHandler,
    user: &User,
    msg: ChatMessage,
    parsed: Command,
    version: String,
    r: Option<DispatchCommand>,
    first: Seq<char>,
    rest: Seq<char>,
)
    requires
        call_ensures(
            ChatHandler::handle_chat_message,
            (handler, Some(user), msg, parsed, version),
            r,
        ),
        old(handler).can_handle(Some(user), msg, parsed@),
        user.chat is Some,
        first.len() > 0,
        is_word(first, true),
        rest.len() == 0 || is_space(rest[0], true),
        msg.message@ == first + rest,
        forall|word: Seq<char>| first != #[trigger] (user.chat->0.prefix@ + word),
    ensures
        r is None,
        final(handler).timeouts_spec() == old(handler).timeouts_spec(),
{
    law_first_word(first, rest, true);
    let prefix = user.chat->0.prefix@;
    assert(words(msg.message@, true)[0] == first);
    if command_word_of(msg.message@, prefix) is Some {
        let word = first.skip(prefix.len() as int);
        assert(first =~= first.subrange(0, prefix.len() as int) + word);
        assert(first == prefix + word);
    }
}

/// A way to answer is added for its own platform, and for no other.
pub proof fn law_senders_are_added(
    handler: &mut ChatHandler,
    platform: ChatPlatform,
    other: ChatPlatform,
)
    requires
        call_ensures(ChatHandler::add_chat_sender, (handler, platform), ()),
    ensures
        final(handler).senders().contains(other) == (old(handler).senders().contains(other) || other
            == platform),
        final(handler).timeouts == old(handler).timeouts,
{
}

/// A message is not heard without a user or without a chat, and leaves no trace.
pub proof fn law_other_messages_are_not_heard(
    handler: &mut ChatHandler,
    user: Option<&User>,
    msg: ChatMessage,
    parsed: Command,
    version: String,
    r: Option<DispatchCommand>,
)
    requires
        call_ensures(ChatHandler::handle_chat_message, (handler, user, msg, parsed, version), r),
        old(handler).can_handle(user, msg, parsed@),
        user is None || user->0.chat is None,
    ensures
        r is None,
        final(handler).timeouts_spec() == old(handler).timeouts_spec(),
        final(handler).chat_senders == old(handler).chat_senders,
        final(handler).default_commands == old(handler).default_commands,
{
}

/// Whether somebody is permitted to use a command goes by how the command is configured,
/// for the user and by default.
pub proof fn law_permission_goes_by_configuration(
    handler: ChatHandler,
    chat: ChatConfig,
    msg: ChatMessage,
    command: CommandView,
    permissions: CommandPermissionsView,
)
    requires
        permissions == crate::command::permission_for(
            command,
            maybe_table(chat.commands),
            handler.default_commands@,
        ),
    ensures
        handler.permits(chat, msg, command) == (is_admin(chat, msg.sender@, msg.permission)
            || is_named(permissions, msg.sender@) || by_standing(
            msg.permission,
            permissions.permission,
            chat.enable_public_commands,
            chat.enable_mod_commands,
        )),
{
}

// Anything else that arrives.
/// Empty chat messages ask for nothing; every other message asks for what it is about.
pub proof fn law_messages_are_sorted(message: HandleMessage, r: Option<Task>)
    requires
        call_ensures(task_of, (message,), r),
    ensures
        match message {
            HandleMessage::ChatMessage(msg) => (msg.message@.len() == 0 ==> r is None) && (
            msg.message@.len() > 0 ==> r == Some(Task::Chat(msg))),
            HandleMessage::InternalChatUpdate(update) => match update.kind {
                InternalUpdate::Raided(info) => r is Some && r->0 is Raid && r->0->Raid_0 == update
                    && r->0->Raid_1@ == info@,
                InternalUpdate::OfflineTimeout => r == Some(Task::OfflineTimeout(update)),
            },
            HandleMessage::AutomaticSwitchingScene(change) => r == Some(Task::Switched(change)),
        },
{
}

/// A stream that was offline for too long is told in the language of the user, where it can
/// be.
pub proof fn law_offline_timeouts_are_told(
    handler: &ChatHandler,
    update: &InternalChatUpdate,
    lang: Option<&str>,
    r: Option<Message>,
)
    requires
        call_ensures(ChatHandler::handle_offline_timeout, (handler, update, lang), r),
    ensures
        r is Some <==> lang is Some && handler.senders().contains(update.platform),
        r is Some ==> r->0@ == MessageView::Phrase(
            PhraseView {
                key: "offlineTimeout.timeout"@,
                locale: Some(lang->0@),
                args: Seq::empty(),
            },
        ),
{
}

/// A change of the scene is told only where there is a user and a way to.
pub proof fn law_changes_are_told_to_users(
    handler: &ChatHandler,
    change: &AutomaticSwitchingScene,
    lang: Option<&str>,
    r: Option<Turn>,
)
    requires
        call_ensures(ChatHandler::handle_automatic_switching_message, (handler, change, lang), r),
    ensures
        r is Some <==> lang is Some && handler.senders().contains(change.platform),
{
}

/// Whether the stream of a user is to stop for a raid, if it runs for long enough.
pub open spec fn raid_stops(
    handler: ChatHandler,
    user: Option<&User>,
    platform: ChatPlatform,
) -> bool {
    &&& user is Some
    &&& user->0.chat is Some
    &&& user->0.chat->0.enable_auto_stop_stream_on_host_or_raid
    &&& user->0.is_streaming
    &&& handler.senders().contains(platform)
}

/// Whether a command stops the stream for a raid: in the channel that raided, as the user
/// wants it told, and in the language of the user.
pub open spec fn stops_for(
    dispatched: DispatchCommand,
    user: User,
    raid: InternalChatUpdate,
    target: RaidedInfo,
    version: Seq<char>,
) -> bool {
    &&& dispatched.command@ == if user.chat->0.announce_raid_on_auto_stop {
        CommandView::StopOnRaid(target@)
    } else {
        CommandView::Stop
    }
    &&& dispatched.lang@ == user.lang@
    &&& dispatched.version@ == version
    &&& dispatched.chat_message.channel@ == raid.channel@
    &&& dispatched.chat_message.platform == raid.platform
    &&& dispatched.chat_message.permission == Permission::Admin
    &&& dispatched.chat_message.sender@ == "NOALBSbot"@
    &&& dispatched.chat_message.message@
        == "Hi your channel raided and I would like to stop it for you"@
}

/// A raid stops the stream of a user who wants that, exactly where the stream runs for a
/// minute or more.
pub proof fn law_raids_stop_streams_of_a_minute(
    handler: &ChatHandler,
    user: Option<&User>,
    raid: InternalChatUpdate,
    target: RaidedInfo,
    version: String,
    seconds: u64,
    r: Option<DispatchCommand>,
)
    requires
        call_ensures(ChatHandler::raid_after, (handler, user, raid, target, version, seconds), r),
    ensures
        r is Some <==> raid_stops(*handler, user, raid.platform) && seconds >= 60,
        r is Some ==> stops_for(r->0, *user->0, raid, target, version@),
{
}

/// The clock decides for how long the stream runs: it is read at the raid, and counted from
/// the start of the stream.
pub proof fn law_raids_go_by_the_clock(
    handler: &ChatHandler,
    user: Option<&User>,
    raid: InternalChatUpdate,
    target: RaidedInfo,
    version: String,
    r: Option<DispatchCommand>,
)
    requires
        call_ensures(ChatHandler::handle_raid, (handler, user, raid, target, version), r),
    ensures
        !raid_stops(*handler, user, raid.platform) ==> r is None,
        raid_stops(*handler, user, raid.platform) ==> exists|now: Instant|
            (r is Some) == (#[trigger] seconds_between(now, user->0.last_stream_started_at) >= 60),
        r is Some ==> stops_for(r->0, *user->0, raid, target, version@),
{
    let at = choose|at: Instant| #[trigger]
        handler.answers_raid(
            user,
            raid,
            target@,
            version@,
            crate::handler::since_started(user, at),
            r,
        );
    if raid_stops(*handler, user, raid.platform) {
        assert((r is Some) == (seconds_between(at, user->0.last_stream_started_at) >= 60));
    }
}

/// Seconds are counted from the earlier point in time to the later one.
pub proof fn law_seconds_are_counted(later: &Instant, earlier: &Instant, r: u64)
    requires
        call_ensures(count_seconds, (later, earlier), r),
    ensures
        r == seconds_between(*later, *earlier),
{
}

} // verus!

use std::time::{Duration, Instant};

use chat_handler::command::Permission::{Admin, Mod, Public};
use chat_handler::command::{
    Command, CommandInfo, CommandPermissions, CommandTable, Permission, RaidedInfo,
};
use chat_handler::clock::count_seconds;
use chat_handler::handler::{
    find_timeout, note_command, task_of, ChatConfig, ChatHandler, Task, Timeout, User,
};
use chat_handler::message::{
    AutomaticSwitchingScene, ChatMessage, ChatPlatform, HandleMessage, InternalChatUpdate,
    InternalUpdate,
};
use chat_handler::phrase::{say, say1_text};
use chat_handler::turn::{Next, Query, State, SwitchType};

fn config() -> ChatConfig {
    ChatConfig {
        prefix: "!".to_string(),
        commands: None,
        admins: vec!["owner".to_string()],
        enable_public_commands: true,
        enable_mod_commands: true,
        enable_auto_stop_stream_on_host_or_raid: true,
        announce_raid_on_auto_stop: true,
    }
}

fn user(chat: Option<ChatConfig>) -> User {
    User {
        chat,
        lang: "de".to_string(),
        is_streaming: true,
        last_stream_started_at: Instant::now(),
    }
}

fn message(permission: Permission, channel: &str, sender: &str, text: &str) -> ChatMessage {
    ChatMessage {
        platform: ChatPlatform::Twitch,
        permission,
        channel: channel.to_string(),
        sender: sender.to_string(),
        message: text.to_string(),
    }
}

fn handler() -> ChatHandler {
    let mut handler = ChatHandler::new();
    handler.add_chat_sender(ChatPlatform::Twitch);
    handler
}

fn needs(permission: Option<Permission>, users: &[&str]) -> CommandPermissions {
    CommandPermissions {
        permission,
        user_permissions: Some(users.iter().map(|s| s.to_string()).collect()),
    }
}

#[test]
fn commands_are_configured_by_default() {
    let table = ChatHandler::default_command_settings();
    for (command, permission) in [
        (Command::Switch, None),
        (Command::Bitrate, Some(Permission::Public)),
        (Command::Fix, Some(Permission::Mod)),
        (Command::ServerInfo, Some(Permission::Mod)),
        (Command::Otrigger, Some(Permission::Mod)),
        (Command::Refresh, Some(Permission::Mod)),
        (Command::Rtrigger, Some(Permission::Mod)),
        (Command::Sourceinfo, Some(Permission::Mod)),
        (Command::Trigger, Some(Permission::Mod)),
        (Command::Version, Some(Permission::Public)),
    ] {
        let info = table.get(&command);
        assert_eq!(info, Some(&CommandInfo { permission, user_permissions: None, alias: None }));
    }
    assert_eq!(table.get(&Command::Start), None);
    assert_eq!(table.get(&Command::Ortrigger), None);
}

#[test]
fn senders_are_added() {
    let mut handler = ChatHandler::new();
    assert!(!handler.has_sender(ChatPlatform::Twitch));
    handler.add_chat_sender(ChatPlatform::Other(3));
    assert!(!handler.has_sender(ChatPlatform::Twitch));
    handler.add_chat_sender(ChatPlatform::Twitch);
    assert!(handler.has_sender(ChatPlatform::Twitch));
    assert!(handler.has_sender(ChatPlatform::Other(3)));
    assert!(!handler.has_sender(ChatPlatform::Other(4)));
}

#[test]
fn admins_may_use_everything() {
    let handler = handler();
    let mut chat = config();
    chat.enable_public_commands = false;
    chat.enable_mod_commands = false;
    let chat = Some(chat);
    let admin = message(Permission::Admin, "c", "anybody", "!x");
    let owner = message(Permission::Public, "c", "owner", "!x");
    let other = message(Permission::Public, "c", "other", "!x");
    let wanted = needs(Some(Permission::Admin), &[]);
    assert_eq!(handler.is_allowed_to_use_command(&chat, &admin, &wanted), Some(true));
    assert_eq!(handler.is_allowed_to_use_command(&chat, &owner, &wanted), Some(true));
    assert_eq!(handler.is_allowed_to_use_command(&chat, &other, &wanted), Some(false));
    assert_eq!(handler.is_allowed_to_use_command(&None, &admin, &wanted), None);
}

#[test]
fn named_users_may_use_their_command() {
    let handler = handler();
    let mut chat = config();
    chat.enable_public_commands = false;
    chat.enable_mod_commands = false;
    let chat = Some(chat);
    let ann = message(Permission::Public, "c", "ann", "!x");
    let bob = message(Permission::Public, "c", "bob", "!x");
    for wanted in [needs(None, &["ann"]), needs(Some(Permission::Admin), &["ann"])] {
        assert_eq!(handler.is_allowed_to_use_command(&chat, &ann, &wanted), Some(true));
        assert_eq!(handler.is_allowed_to_use_command(&chat, &bob, &wanted), Some(false));
    }
}

#[test]
fn standings_and_switches_decide() {
    let handler = handler();
    for (public, mods, wanted, standing, allowed) in [
        (true, true, Some(Public), Public, true),
        (true, true, Some(Mod), Public, false),
        (true, true, Some(Admin), Public, false),
        (true, true, None, Public, false),
        (true, true, Some(Public), Mod, true),
        (true, true, Some(Mod), Mod, true),
        (true, true, Some(Admin), Mod, false),
        (true, true, None, Mod, false),
        (false, true, Some(Public), Public, false),
        (false, true, Some(Public), Mod, true),
        (false, true, Some(Mod), Mod, true),
        (true, false, Some(Public), Public, true),
        (true, false, Some(Public), Mod, true),
        (true, false, Some(Mod), Mod, false),
        (false, false, Some(Public), Public, false),
        (false, false, Some(Public), Mod, false),
        (false, false, Some(Mod), Mod, false),
    ] {
        let mut chat = config();
        chat.enable_public_commands = public;
        chat.enable_mod_commands = mods;
        let msg = message(standing, "c", "viewer", "!x");
        assert_eq!(
            handler.is_allowed_to_use_command(&Some(chat), &msg, &needs(wanted, &[])),
            Some(allowed)
        );
    }
}

#[test]
fn standing_never_hurts() {
    let handler = handler();
    for public in [true, false] {
        for mods in [true, false] {
            for wanted in [None, Some(Permission::Public), Some(Permission::Mod), Some(Permission::Admin)] {
                let mut chat = config();
                chat.enable_public_commands = public;
                chat.enable_mod_commands = mods;
                let chat = Some(chat);
                let may = |standing: Permission| {
                    let msg = message(standing, "c", "viewer", "!x");
                    handler.is_allowed_to_use_command(&chat, &msg, &needs(wanted, &[])) == Some(true)
                };
                assert!(!may(Permission::Public) || may(Permission::Mod));
                assert!(!may(Permission::Mod) || may(Permission::Admin));
            }
        }
    }
}

#[test]
fn command_words_are_read() {
    let handler = handler();
    let chat = Some(config());
    let word = |text: &str| handler.command_word(&chat, &message(Permission::Admin, "c", "s", text));
    assert_eq!(word("!start now"), Some("start".to_string()));
    assert_eq!(word("  !start"), Some("start".to_string()));
    assert_eq!(word("!"), Some("".to_string()));
    assert_eq!(word("start"), None);
    assert_eq!(word("hi !start"), None);
    assert_eq!(handler.command_word(&None, &message(Permission::Admin, "c", "s", "!x")), None);
}

#[test]
fn aliases_mean_their_commands() {
    let handler = handler();
    let mut table = CommandTable::new();
    table.insert(
        Command::Switch,
        CommandInfo {
            permission: Some(Permission::Mod),
            user_permissions: None,
            alias: Some(vec!["ss".to_string()]),
        },
    );
    let mut chat = config();
    chat.commands = Some(table);
    let chat = Some(chat);
    let msg = message(Permission::Public, "c", "s", "!ss main");
    let parsed = Command::Unknown("ss".to_string());
    let found = handler.get_command(&chat, &msg, parsed);
    assert_eq!(
        found,
        Some((
            Command::Switch,
            CommandPermissions { permission: Some(Permission::Mod), user_permissions: None },
        ))
    );
    let known = handler.get_command(&chat, &msg, Command::Fix);
    assert_eq!(known.map(|(command, _)| command), Some(Command::Fix));
    let unknown = handler.get_command(&chat, &msg, Command::Unknown("zz".to_string()));
    assert_eq!(
        unknown,
        Some((
            Command::Unknown("zz".to_string()),
            CommandPermissions { permission: Some(Permission::Admin), user_permissions: None },
        ))
    );
    let plain = message(Permission::Public, "c", "s", "hello");
    assert_eq!(handler.get_command(&chat, &plain, Command::Fix), None);
    assert_eq!(handler.get_command(&None, &msg, Command::Fix), None);
}

#[test]
fn permitted_commands_are_carried_out() {
    let mut handler = handler();
    let user = user(Some(config()));
    let msg = message(Permission::Mod, "c", "mod", "!fix");
    let dc = handler
        .handle_chat_message(Some(&user), msg, Command::Fix, "2.0".to_string())
        .expect("a command");
    assert_eq!(dc.command, Command::Fix);
    assert_eq!(dc.lang, "de");
    assert_eq!(dc.version, "2.0");
    assert_eq!(dc.chat_message, message(Permission::Mod, "c", "mod", "!fix"));
    assert!(handler.timeouts.is_empty());
}

#[test]
fn other_messages_lead_to_nothing() {
    let mut handler = handler();
    let known = user(Some(config()));
    let version = || "2.0".to_string();
    let admin = |text: &str| message(Permission::Admin, "c", "s", text);
    assert_eq!(handler.handle_chat_message(None, admin("!fix"), Command::Fix, version()), None);
    let without = user(None);
    assert_eq!(
        handler.handle_chat_message(Some(&without), admin("!fix"), Command::Fix, version()),
        None
    );
    assert_eq!(
        handler.handle_chat_message(Some(&known), admin("fix"), Command::Fix, version()),
        None
    );
    let viewer = message(Permission::Public, "c", "v", "!fix");
    assert_eq!(handler.handle_chat_message(Some(&known), viewer, Command::Fix, version()), None);
    assert!(handler.timeouts.is_empty());
    let mut elsewhere = admin("!fix");
    elsewhere.platform = ChatPlatform::Other(1);
    assert_eq!(
        handler.handle_chat_message(Some(&known), elsewhere, Command::Fix, version()),
        None
    );
}

#[test]
fn viewers_wait_between_commands() {
    let mut handler = handler();
    let user = user(Some(config()));
    let ask = |handler: &mut ChatHandler, channel: &str, seconds: u64| {
        let msg = message(Permission::Public, channel, "v", "!bitrate");
        let version = "2.0".to_string();
        handler
            .chat_message_after(Some(&user), msg, Command::Bitrate, version, seconds, Instant::now())
            .is_some()
    };
    assert!(ask(&mut handler, "one", 0));
    assert!(!ask(&mut handler, "one", 0));
    assert!(!ask(&mut handler, "one", 5));
    assert!(ask(&mut handler, "two", 0));
    assert!(!ask(&mut handler, "two", 1));
    assert!(ask(&mut handler, "one", 6));
    assert!(!ask(&mut handler, "one", 2));
    assert_eq!(handler.timeouts.len(), 2);
}

#[test]
fn viewers_wait_by_the_clock() {
    let mut handler = handler();
    let user = user(Some(config()));
    let mut ask = |permission: Permission| {
        let msg = message(permission, "one", "v", "!bitrate");
        handler
            .handle_chat_message(Some(&user), msg, Command::Bitrate, "2.0".to_string())
            .is_some()
    };
    assert!(ask(Permission::Public));
    assert!(!ask(Permission::Public));
    assert!(ask(Permission::Mod));
    assert!(ask(Permission::Admin));
    assert!(!ask(Permission::Public));
}

#[test]
fn a_viewer_who_cannot_be_answered_is_noted_all_the_same() {
    let mut handler = ChatHandler::new();
    let user = user(Some(config()));
    let msg = message(Permission::Public, "one", "v", "!bitrate");
    let r = handler.handle_chat_message(Some(&user), msg, Command::Bitrate, "2.0".to_string());
    assert_eq!(r, None);
    assert_eq!(handler.timeouts.len(), 1);
}

#[test]
fn timeouts_are_kept_for_each_channel() {
    let mut handler = handler();
    assert!(!handler.handle_timeout(&ChatPlatform::Twitch, "one"));
    assert!(handler.handle_timeout(&ChatPlatform::Twitch, "one"));
    assert!(!handler.handle_timeout(&ChatPlatform::Twitch, "two"));
    assert!(handler.handle_timeout(&ChatPlatform::Twitch, "two"));
    assert_eq!(handler.timeouts.len(), 2);
}

#[test]
fn an_old_timeout_lets_commands_through() {
    let mut handler = handler();
    assert!(!handler.handle_timeout(&ChatPlatform::Twitch, "one"));
    if let Some(past) = Instant::now().checked_sub(Duration::from_secs(7)) {
        handler.timeouts[0].time = past;
        assert!(!handler.handle_timeout(&ChatPlatform::Twitch, "one"));
        assert!(handler.timeouts[0].time > past);
        assert!(handler.handle_timeout(&ChatPlatform::Twitch, "one"));
    }
}

#[test]
fn seconds_are_counted_between_two_times() {
    let early = Instant::now();
    let late = early + Duration::from_millis(7900);
    assert_eq!(count_seconds(&late, &early), 7);
    assert_eq!(count_seconds(&early, &early), 0);
    assert_eq!(count_seconds(&early, &late), 0);
}

#[test]
fn waits_count_from_the_own_channel() {
    let mut handler = handler();
    assert!(!handler.handle_timeout(&ChatPlatform::Twitch, "one"));
    assert!(!handler.handle_timeout(&ChatPlatform::Twitch, "two"));
    if let Some(past) = Instant::now().checked_sub(Duration::from_secs(7)) {
        handler.timeouts[0].time = past;
        assert!(handler.handle_timeout(&ChatPlatform::Twitch, "two"));
        assert!(!handler.handle_timeout(&ChatPlatform::Twitch, "one"));
        handler.timeouts[1].time = past;
        assert!(handler.handle_timeout(&ChatPlatform::Twitch, "one"));
        assert!(!handler.handle_timeout(&ChatPlatform::Twitch, "two"));
    }
}

#[test]
fn more_admins_and_more_names_take_nothing_away() {
    let handler = handler();
    let mut chat = config();
    chat.enable_public_commands = false;
    let owner = message(Permission::Public, "c", "owner", "!x");
    let ann = message(Permission::Public, "c", "ann", "!x");
    let few = needs(None, &["ann"]);
    let more = needs(None, &["bob", "ann"]);
    let narrow = Some(chat);
    let mut wider = config();
    wider.enable_public_commands = false;
    wider.admins = vec!["other".to_string(), "owner".to_string()];
    let wider = Some(wider);
    for (chat, wanted) in [(&narrow, &few), (&narrow, &more), (&wider, &few), (&wider, &more)] {
        assert_eq!(handler.is_allowed_to_use_command(chat, &owner, wanted), Some(true));
        assert_eq!(handler.is_allowed_to_use_command(chat, &ann, wanted), Some(true));
    }
}

#[test]
fn commands_are_noted() {
    let first = Instant::now();
    let second = first + Duration::from_secs(10);
    let mut timeouts: Vec<Timeout> = Vec::new();
    assert!(!note_command(&mut timeouts, "a", 0, first));
    assert!(!note_command(&mut timeouts, "b", 0, first));
    assert_eq!(find_timeout(&timeouts, "a"), Some(0));
    assert_eq!(find_timeout(&timeouts, "b"), Some(1));
    assert_eq!(find_timeout(&timeouts, "c"), None);
    assert!(note_command(&mut timeouts, "b", 5, second));
    assert_eq!(timeouts[1].time, first);
    assert!(!note_command(&mut timeouts, "b", 6, second));
    assert_eq!(timeouts[1].time, second);
    assert_eq!(timeouts[0].time, first);
    assert_eq!(timeouts.len(), 2);
}

fn raid(platform: ChatPlatform) -> InternalChatUpdate {
    InternalChatUpdate {
        platform,
        channel: "c".to_string(),
        kind: InternalUpdate::Raided(target()),
    }
}

fn target() -> RaidedInfo {
    RaidedInfo { target: "friend".to_string(), display: "Friend".to_string() }
}

#[test]
fn raids_stop_the_stream() {
    let handler = handler();
    let known = user(Some(config()));
    let version = || "2.0".to_string();
    let dc = handler
        .raid_after(Some(&known), raid(ChatPlatform::Twitch), target(), version(), 60)
        .expect("a command");
    assert_eq!(dc.command, Command::StopOnRaid(target()));
    assert_eq!(dc.lang, "de");
    assert_eq!(dc.chat_message.sender, "NOALBSbot");
    assert_eq!(
        dc.chat_message.message,
        "Hi your channel raided and I would like to stop it for you"
    );
    assert_eq!(dc.chat_message.permission, Permission::Admin);
    assert_eq!(dc.chat_message.channel, "c");
    assert_eq!(dc.run_command().next, Next::Ask(Query::StreamOptions, State::StopOptions(Some(target()))));

    let mut quiet = config();
    quiet.announce_raid_on_auto_stop = false;
    let quiet = user(Some(quiet));
    let dc = handler
        .raid_after(Some(&quiet), raid(ChatPlatform::Twitch), target(), version(), 3600)
        .expect("a command");
    assert_eq!(dc.command, Command::Stop);
}

#[test]
fn some_raids_stop_nothing() {
    let handler = handler();
    let version = || "2.0".to_string();
    let twitch = || raid(ChatPlatform::Twitch);
    let known = user(Some(config()));
    assert_eq!(handler.raid_after(Some(&known), twitch(), target(), version(), 59), None);
    assert_eq!(
        handler.raid_after(Some(&known), raid(ChatPlatform::Other(1)), target(), version(), 99),
        None
    );
    assert_eq!(handler.raid_after(None, twitch(), target(), version(), 99), None);
    let without = user(None);
    assert_eq!(handler.raid_after(Some(&without), twitch(), target(), version(), 99), None);
    let mut off = config();
    off.enable_auto_stop_stream_on_host_or_raid = false;
    let off = user(Some(off));
    assert_eq!(handler.raid_after(Some(&off), twitch(), target(), version(), 99), None);
    let mut idle = user(Some(config()));
    idle.is_streaming = false;
    assert_eq!(handler.raid_after(Some(&idle), twitch(), target(), version(), 99), None);
}

#[test]
fn raids_are_timed_by_the_clock() {
    let handler = handler();
    let mut user = user(Some(config()));
    let version = || "2.0".to_string();
    assert_eq!(handler.handle_raid(Some(&user), raid(ChatPlatform::Twitch), target(), version()), None);
    if let Some(past) = Instant::now().checked_sub(Duration::from_secs(61)) {
        user.last_stream_started_at = past;
        let r = handler.handle_raid(Some(&user), raid(ChatPlatform::Twitch), target(), version());
        assert!(r.is_some());
    }
}

#[test]
fn offline_timeouts_are_told() {
    let handler = handler();
    let update = |platform: ChatPlatform| InternalChatUpdate {
        platform,
        channel: "c".to_string(),
        kind: InternalUpdate::OfflineTimeout,
    };
    assert_eq!(
        handler.handle_offline_timeout(&update(ChatPlatform::Twitch), Some("fr")),
        Some(say("offlineTimeout.timeout", "fr"))
    );
    assert_eq!(handler.handle_offline_timeout(&update(ChatPlatform::Twitch), None), None);
    assert_eq!(handler.handle_offline_timeout(&update(ChatPlatform::Other(1)), Some("fr")), None);
}

#[test]
fn scene_changes_begin_to_be_told() {
    let handler = handler();
    let change = |platform: ChatPlatform| AutomaticSwitchingScene {
        platform,
        channel: "c".to_string(),
        scene: "main".to_string(),
        switch_type: SwitchType::Low,
    };
    let turn = handler
        .handle_automatic_switching_message(&change(ChatPlatform::Twitch), Some("en"))
        .expect("a turn");
    assert!(turn.effects.is_empty());
    assert_eq!(
        turn.next,
        Next::Ask(
            Query::Translate(say1_text("sceneSwitch.switch", "en", "scene", "main")),
            State::SwitchWorded(SwitchType::Low),
        )
    );
    let nowhere = change(ChatPlatform::Other(1));
    assert_eq!(handler.handle_automatic_switching_message(&nowhere, Some("en")), None);
    let nobody = change(ChatPlatform::Twitch);
    assert_eq!(handler.handle_automatic_switching_message(&nobody, None), None);
}

#[test]
fn messages_are_sorted() {
    let empty = HandleMessage::ChatMessage(message(Permission::Admin, "c", "s", ""));
    assert_eq!(task_of(empty), None);
    let chat = HandleMessage::ChatMessage(message(Permission::Admin, "c", "s", "hi"));
    assert_eq!(task_of(chat), Some(Task::Chat(message(Permission::Admin, "c", "s", "hi"))));
    let raided = HandleMessage::InternalChatUpdate(raid(ChatPlatform::Twitch));
    assert_eq!(task_of(raided), Some(Task::Raid(raid(ChatPlatform::Twitch), target())));
    let offline = || InternalChatUpdate {
        platform: ChatPlatform::Twitch,
        channel: "c".to_string(),
        kind: InternalUpdate::OfflineTimeout,
    };
    assert_eq!(
        task_of(HandleMessage::InternalChatUpdate(offline())),
        Some(Task::OfflineTimeout(offline()))
    );
    let change = || AutomaticSwitchingScene {
        platform: ChatPlatform::Twitch,
        channel: "c".to_string(),
        scene: "main".to_string(),
        switch_type: SwitchType::Offline,
    };
    assert_eq!(
        task_of(HandleMessage::AutomaticSwitchingScene(change())),
        Some(Task::Switched(change()))
    );
}

use chat_handler::command::Permission::{Admin, Mod, Public};
use chat_handler::command::{
    get_command_from_alias_string, get_permission, permission_is_allowed,
    try_get_command_from_alias, try_get_permission, Command, CommandInfo, CommandPermissions,
    CommandTable, Permission, RaidedInfo,
};

fn strings(list: &[&str]) -> Option<Vec<String>> {
    Some(list.iter().map(|s| s.to_string()).collect())
}

fn info(permission: Option<Permission>, users: Option<Vec<String>>, alias: Option<Vec<String>>) -> CommandInfo {
    CommandInfo { permission, user_permissions: users, alias }
}

#[test]
fn tables_keep_one_entry_for_each_command() {
    let mut table = CommandTable::new();
    assert_eq!(table.get(&Command::Fix), None);
    table.insert(Command::Fix, info(Some(Permission::Mod), None, None));
    table.insert(Command::Unknown("x".to_string()), info(None, None, strings(&["y"])));
    table.insert(Command::Fix, info(Some(Permission::Public), None, None));
    assert_eq!(table.get(&Command::Fix), Some(&info(Some(Permission::Public), None, None)));
    assert_eq!(
        table.get(&Command::Unknown("x".to_string())),
        Some(&info(None, None, strings(&["y"])))
    );
    assert_eq!(table.get(&Command::Unknown("z".to_string())), None);
}

#[test]
fn commands_are_compared_with_their_texts() {
    let raid = |target: &str, display: &str| {
        Command::StopOnRaid(RaidedInfo { target: target.to_string(), display: display.to_string() })
    };
    assert!(raid("a", "A").same(&raid("a", "A")));
    assert!(!raid("a", "A").same(&raid("a", "B")));
    assert!(!raid("a", "A").same(&Command::Stop));
    assert!(raid("a", "A").clone().same(&raid("a", "A")));
    let all = vec![
        Command::Alias, Command::Autostop, Command::Bitrate, Command::Collection,
        Command::EndingScene, Command::Fix, Command::LiveScene, Command::Mod, Command::Mute,
        Command::Noalbs, Command::Notify, Command::Ortrigger, Command::Otrigger,
        Command::PrivacyScene, Command::Public, Command::Rec, Command::Refresh, Command::Rtrigger,
        Command::ServerInfo, Command::Source, Command::Sourceinfo, Command::Start,
        Command::StartingScene, Command::Stop, Command::Switch, Command::Trigger,
        Command::Unknown("w".to_string()), Command::Version,
    ];
    for (i, a) in all.iter().enumerate() {
        for (j, b) in all.iter().enumerate() {
            assert_eq!(a.same(b), i == j);
            assert_eq!(a.clone() == *b, i == j);
        }
    }
}

#[test]
fn aliases_are_found() {
    let mut table = CommandTable::new();
    table.insert(Command::Switch, info(None, None, strings(&["ss", "scene"])));
    table.insert(Command::Fix, info(None, None, None));
    assert_eq!(get_command_from_alias_string(&table, "scene"), Some(Command::Switch));
    assert_eq!(get_command_from_alias_string(&table, "Scene"), None);
    assert_eq!(get_command_from_alias_string(&CommandTable::new(), "scene"), None);
}

#[test]
fn an_alias_of_several_commands_means_one_of_them() {
    let mut table = CommandTable::new();
    table.insert(Command::Switch, info(None, None, strings(&["x"])));
    table.insert(Command::Fix, info(None, None, strings(&["x"])));
    let found = get_command_from_alias_string(&table, "x");
    assert!(found == Some(Command::Switch) || found == Some(Command::Fix));
}

#[test]
fn aliases_of_the_user_come_first() {
    let mut user = CommandTable::new();
    user.insert(Command::Rec, info(None, None, strings(&["r"])));
    let mut default = CommandTable::new();
    default.insert(Command::Refresh, info(None, None, strings(&["r", "f"])));
    let user = Some(user);
    assert_eq!(try_get_command_from_alias(&user, &default, "r"), Some(Command::Rec));
    assert_eq!(try_get_command_from_alias(&user, &default, "f"), Some(Command::Refresh));
    assert_eq!(try_get_command_from_alias(&user, &default, "g"), None);
    assert_eq!(try_get_command_from_alias(&None, &default, "r"), Some(Command::Refresh));
}

#[test]
fn permissions_are_listed() {
    let mut table = CommandTable::new();
    table.insert(Command::Fix, info(Some(Permission::Mod), strings(&["ann"]), strings(&["f"])));
    assert_eq!(
        try_get_permission(&Command::Fix, &table),
        Some(CommandPermissions {
            permission: Some(Permission::Mod),
            user_permissions: strings(&["ann"]),
        })
    );
    assert_eq!(try_get_permission(&Command::Rec, &table), None);
}

#[test]
fn permissions_of_the_user_come_first() {
    let mut user = CommandTable::new();
    user.insert(Command::Fix, info(Some(Permission::Public), strings(&["ann"]), None));
    user.insert(Command::Bitrate, info(None, strings(&["bob"]), None));
    user.insert(Command::Rec, info(None, None, None));
    let user = Some(user);
    let mut default = CommandTable::new();
    default.insert(Command::Fix, info(Some(Permission::Mod), strings(&["eve"]), None));
    default.insert(Command::Bitrate, info(Some(Permission::Public), None, None));
    default.insert(Command::Version, info(Some(Permission::Mod), strings(&["dan"]), None));

    let fix = get_permission(&Command::Fix, &user, &default);
    assert_eq!(fix.permission, Some(Permission::Public));
    assert_eq!(fix.user_permissions, strings(&["ann"]));
    let bitrate = get_permission(&Command::Bitrate, &user, &default);
    assert_eq!(bitrate.permission, Some(Permission::Public));
    assert_eq!(bitrate.user_permissions, strings(&["bob"]));
    let rec = get_permission(&Command::Rec, &user, &default);
    assert_eq!(rec.permission, None);
    assert_eq!(rec.user_permissions, None);
    let version = get_permission(&Command::Version, &user, &default);
    assert_eq!(version.permission, Some(Permission::Mod));
    assert_eq!(version.user_permissions, strings(&["dan"]));
}

#[test]
fn unconfigured_commands_are_for_admins() {
    let r = get_permission(&Command::Start, &None, &CommandTable::new());
    assert_eq!(r.permission, Some(Permission::Admin));
    assert_eq!(r.user_permissions, None);
}

#[test]
fn standings_allow_commands() {
    for (wanted, standing, allowed) in [
        (Public, Public, true),
        (Public, Mod, true),
        (Public, Admin, true),
        (Mod, Public, false),
        (Mod, Mod, true),
        (Mod, Admin, false),
        (Admin, Public, false),
        (Admin, Mod, false),
        (Admin, Admin, false),
    ] {
        assert_eq!(permission_is_allowed(&wanted, &standing), allowed);
    }
}

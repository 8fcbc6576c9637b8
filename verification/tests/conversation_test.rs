use chat_handler::command::{Command, OptionalScene, Permission, RaidedInfo};
use chat_handler::dispatch::resume;
use chat_handler::error::Error;
use chat_handler::message::{ChatMessage, ChatPlatform, DispatchCommand};
use chat_handler::phrase::{
    phrase0, say, say1, say1_text, say2_text, say_condition, Argument, Message, Phrase,
};
use chat_handler::servers::{begin_switch_notice, find_server, frames_text};
use chat_handler::settings::{enabled_to_bool, flag_word, measure_text};
use chat_handler::stream::{start_bsc, stop_bsc};
use chat_handler::scene::{switch_scene, toggle_mute, toggle_source};
use chat_handler::turn::{
    Effect, Next, Query, Reply, SoftwareStats, State, StreamOptions, StreamServer, SwitchType,
    Toggle, TriggerType, Turn,
};

#[derive(Debug, PartialEq)]
enum Step {
    Did(Effect),
    Asked(Query),
}

/// Carries a conversation to its end.
fn follow(mut turn: Turn, answers: &mut dyn FnMut(&Query) -> Reply) -> Vec<Step> {
    let mut steps = Vec::new();
    loop {
        for effect in turn.effects {
            steps.push(Step::Did(effect));
        }
        match turn.next {
            Next::Done => return steps,
            Next::Ask(query, state) => {
                let reply = answers(&query);
                steps.push(Step::Asked(query));
                turn = resume("en", "chan", state, reply);
            }
        }
    }
}

fn dispatch(command: Command, text: &str) -> DispatchCommand {
    DispatchCommand {
        lang: "en".to_string(),
        command,
        chat_message: ChatMessage {
            platform: ChatPlatform::Twitch,
            permission: Permission::Admin,
            channel: "chan".to_string(),
            sender: "sender".to_string(),
            message: text.to_string(),
        },
        version: "2.1.0".to_string(),
    }
}

fn run(command: Command, text: &str, mut answers: impl FnMut(&Query) -> Reply) -> Vec<Step> {
    follow(dispatch(command, text).run_command(), &mut answers)
}

/// Runs a command that asks nothing.
fn alone(command: Command, text: &str) -> Vec<Step> {
    run(command, text, |query| panic!("asked {:?}", query))
}

fn sent(message: Message) -> Step {
    Step::Did(Effect::Send(message))
}

fn plain(text: &str) -> Step {
    sent(Message::Plain(text.to_string()))
}

fn broken<T>() -> Option<Result<T, Error>> {
    Some(Err(Error::Reported("broken".to_string())))
}

fn options() -> StreamOptions {
    StreamOptions {
        twitch_transcoding_check: false,
        twitch_transcoding_retries: 3,
        twitch_transcoding_delay_seconds: 15,
        record_while_streaming: false,
        switch_to_starting_scene_on_stream_start: false,
    }
}

/// The words that a translation is given in these tests.
fn words(message: &Message) -> String {
    match message {
        Message::Plain(s) => s.clone(),
        Message::Phrase(p) => {
            let mut text = p.key.clone();
            for (_, value) in &p.args {
                if let Argument::Text(s) = value {
                    text.push(' ');
                    text.push_str(s);
                }
            }
            text
        }
        Message::Nested { phrase, inner, .. } => format!("{} {}", phrase.key, inner.key),
    }
}

fn translated(query: &Query) -> Reply {
    match query {
        Query::Translate(message) => Reply::Text(words(message)),
        other => panic!("asked {:?}", other),
    }
}

// Aliases.
#[test]
fn aliases_need_two_words() {
    for text in ["!alias", "!alias one"] {
        assert_eq!(
            alone(Command::Alias, text),
            vec![sent(say("alias.errorIncorrectArguments", "en"))]
        );
    }
}

#[test]
fn aliases_are_added() {
    let steps = run(Command::Alias, "!alias ss switch more", |query| match query {
        Query::ContainsAlias(_) => Reply::Flag(false),
        Query::ParseCommand(_) => Reply::Command(Command::Switch),
        Query::AddAlias(_, _) => Reply::Done(Ok(())),
        other => panic!("asked {:?}", other),
    });
    assert_eq!(
        steps,
        vec![
            Step::Asked(Query::ContainsAlias("ss".to_string())),
            Step::Asked(Query::ParseCommand("switch".to_string())),
            Step::Asked(Query::AddAlias("ss".to_string(), Command::Switch)),
            Step::Did(Effect::SaveConfig),
            sent(say2_text("alias.success", "en", "alias", "ss", "command", "switch")),
        ]
    );
}

#[test]
fn aliases_are_not_added_twice_or_for_nothing() {
    let steps = run(Command::Alias, "!alias ss switch", |_| Reply::Flag(true));
    assert_eq!(steps[1..], [sent(say1_text("alias.errorAlreadyUsed", "en", "alias", "ss"))]);
    let steps = run(Command::Alias, "!alias ss zzz", |query| match query {
        Query::ContainsAlias(_) => Reply::Flag(false),
        _ => Reply::Command(Command::Unknown("zzz".to_string())),
    });
    assert_eq!(steps[2..], [sent(say1_text("alias.errorCommand", "en", "command", "zzz"))]);
    let steps = run(Command::Alias, "!alias ss switch", |query| match query {
        Query::ContainsAlias(_) => Reply::Flag(false),
        Query::ParseCommand(_) => Reply::Command(Command::Switch),
        _ => Reply::Done(Err(Error::Reported("no".to_string()))),
    });
    assert_eq!(steps.len(), 3);
}

#[test]
fn aliases_are_removed() {
    let steps = run(Command::Alias, "!alias rem ss", |query| match query {
        Query::ContainsAlias(_) => Reply::Flag(true),
        _ => Reply::Removed(Ok(true)),
    });
    assert_eq!(
        steps,
        vec![
            Step::Asked(Query::ContainsAlias("ss".to_string())),
            Step::Asked(Query::RemoveAlias("ss".to_string())),
            Step::Did(Effect::SaveConfig),
            sent(say1_text("alias.removed", "en", "alias", "ss")),
        ]
    );
    let steps = run(Command::Alias, "!alias rem ss", |_| Reply::Flag(false));
    assert_eq!(steps[1..], [sent(say1_text("alias.errorAlias", "en", "alias", "ss"))]);
    for removed in [Ok(false), Err(Error::NoSoftwareSet)] {
        let mut removed = Some(removed);
        let steps = run(Command::Alias, "!alias rem ss", |query| match query {
            Query::ContainsAlias(_) => Reply::Flag(true),
            _ => Reply::Removed(removed.take().unwrap()),
        });
        assert_eq!(steps.len(), 2);
    }
}

// Scenes and sources.
#[test]
fn scenes_are_switched() {
    assert_eq!(alone(Command::Switch, "!switch"), vec![sent(say("switch.noParams", "en"))]);
    let steps = run(Command::Switch, "!switch main extra", |_| {
        Reply::Scene(Some(Ok("Main".to_string())))
    });
    assert_eq!(
        steps,
        vec![
            Step::Asked(Query::SwitchScene("main".to_string())),
            sent(say1_text("switch.success", "en", "scene", "Main")),
        ]
    );
    for outcome in [None, broken()] {
        let mut outcome = Some(outcome);
        let steps = run(Command::Switch, "!switch main", |_| Reply::Scene(outcome.take().unwrap()));
        assert_eq!(steps[1..], [sent(say1_text("switch.error", "en", "scene", "main"))]);
    }
}

#[test]
fn sources_are_muted() {
    let steps = run(Command::Mute, "!mute", |_| {
        Reply::Toggled(Some(Ok(("Belabox".to_string(), true))))
    });
    assert_eq!(
        steps,
        vec![
            Step::Asked(Query::ToggleMute("belabox".to_string())),
            sent(say2_text("mute.success", "en", "scene", "Belabox", "muted", "muted")),
        ]
    );
    let steps = run(Command::Mute, "!mute mic", |_| {
        Reply::Toggled(Some(Ok(("Mic".to_string(), false))))
    });
    assert_eq!(
        steps,
        vec![
            Step::Asked(Query::ToggleMute("mic".to_string())),
            sent(say2_text("mute.success", "en", "scene", "Mic", "muted", "unmuted")),
        ]
    );
    let steps = run(Command::Mute, "!mute mic", |_| Reply::Toggled(None));
    assert_eq!(steps[1..], [sent(say1_text("mute.error", "en", "scene", "mic"))]);
}

#[test]
fn sources_are_shown_and_hidden() {
    assert_eq!(alone(Command::Source, "!source"), vec![sent(say("source.noParams", "en"))]);
    for (on, key) in [(true, "source.enabled"), (false, "source.disabled")] {
        let steps = run(Command::Source, "!source cam", |_| {
            Reply::Toggled(Some(Ok(("Cam".to_string(), on))))
        });
        assert_eq!(
            steps,
            vec![
                Step::Asked(Query::ToggleSource("cam".to_string())),
                sent(Message::Nested {
                    phrase: phrase0("source.success", "en").with_text("name", "Cam"),
                    slot: "status".to_string(),
                    inner: phrase0(key, "en"),
                }),
            ]
        );
    }
    let steps = run(Command::Source, "!source cam", |_| Reply::Toggled(broken()));
    assert_eq!(steps[1..], [sent(say1_text("source.error", "en", "name", "cam"))]);
}

#[test]
fn optional_scenes_are_switched() {
    for (command, scene) in [
        (Command::PrivacyScene, OptionalScene::Privacy),
        (Command::StartingScene, OptionalScene::Starting),
        (Command::EndingScene, OptionalScene::Ending),
    ] {
        let steps = run(command.clone(), "!x", |query| match query {
            Query::OptionalScene(_) => Reply::MaybeText(Some("brb".to_string())),
            _ => Reply::Scene(Some(Ok("BRB".to_string()))),
        });
        assert_eq!(
            steps,
            vec![
                Step::Asked(Query::OptionalScene(scene)),
                sent(say1("scene.success", "en", "scene", Argument::Scene(scene))),
                Step::Asked(Query::SwitchScene("brb".to_string())),
                sent(say1_text("switch.success", "en", "scene", "BRB")),
            ]
        );
        let steps = run(command, "!x", |_| Reply::MaybeText(None));
        assert_eq!(
            steps[1..],
            [sent(say1("scene.error", "en", "scene", Argument::Scene(scene)))]
        );
    }
}

#[test]
fn the_live_scene_is_switched_to() {
    let steps = run(Command::LiveScene, "!live", |query| match query {
        Query::NormalScene => Reply::Text("live_main".to_string()),
        _ => Reply::Scene(None),
    });
    assert_eq!(
        steps,
        vec![
            Step::Asked(Query::NormalScene),
            sent(say1_text("scene.success", "en", "scene", "live")),
            Step::Asked(Query::SwitchScene("live_main".to_string())),
            sent(say1_text("switch.error", "en", "scene", "live_main")),
        ]
    );
}

#[test]
fn media_sources_are_fixed() {
    let steps = run(Command::Fix, "!fix", |query| match query {
        Query::HasConnection => Reply::Flag(true),
        _ => Reply::Called(Some(Ok(()))),
    });
    assert_eq!(
        steps,
        vec![
            Step::Asked(Query::HasConnection),
            sent(say("fix.try", "en")),
            Step::Asked(Query::Fix),
        ]
    );
    let steps = run(Command::Fix, "!fix", |query| match query {
        Query::HasConnection => Reply::Flag(true),
        _ => Reply::Called(broken()),
    });
    assert_eq!(steps[3..], [sent(say("fix.error", "en"))]);
    let steps = run(Command::Fix, "!fix", |_| Reply::Flag(false));
    assert_eq!(steps, vec![Step::Asked(Query::HasConnection)]);
}

#[test]
fn a_refresh_restores_the_scene() {
    let scenes = |refresh: Option<&str>| Reply::Scenes {
        refresh: refresh.map(|s| s.to_string()),
        current: "main".to_string(),
    };
    let steps = run(Command::Refresh, "!refresh", |query| match query {
        Query::RefreshScenes => scenes(Some("refresh")),
        _ => Reply::Scene(Some(Ok("x".to_string()))),
    });
    assert_eq!(
        steps,
        vec![
            Step::Asked(Query::RefreshScenes),
            sent(say("refresh.try", "en")),
            Step::Asked(Query::SwitchScene("refresh".to_string())),
            Step::Did(Effect::Sleep(5)),
            Step::Asked(Query::SwitchScene("main".to_string())),
            sent(say("refresh.success", "en")),
        ]
    );
    let steps = run(Command::Refresh, "!refresh", |query| match query {
        Query::RefreshScenes => scenes(Some("refresh")),
        Query::SwitchScene(s) if s == "main" => Reply::Scene(broken()),
        _ => Reply::Scene(Some(Ok("x".to_string()))),
    });
    assert_eq!(steps[5..], [sent(say("refresh.error", "en"))]);
    let steps = run(Command::Refresh, "!refresh", |query| match query {
        Query::RefreshScenes => scenes(Some("refresh")),
        _ => Reply::Scene(None),
    });
    assert_eq!(steps[3..], [sent(say("refresh.error", "en"))]);
    let steps = run(Command::Refresh, "!refresh", |query| match query {
        Query::RefreshScenes => scenes(None),
        Query::HasConnection => Reply::Flag(true),
        _ => Reply::Called(None),
    });
    assert_eq!(
        steps,
        vec![
            Step::Asked(Query::RefreshScenes),
            sent(say("refresh.noScene", "en")),
            Step::Asked(Query::HasConnection),
            sent(say("fix.try", "en")),
            Step::Asked(Query::Fix),
            sent(say("fix.error", "en")),
        ]
    );
}

#[test]
fn outcomes_of_calls_are_told_apart() {
    assert_eq!(start_bsc(None), Err(Error::UnableInitialConnection));
    assert_eq!(stop_bsc(None), Err(Error::UnableInitialConnection));
    assert_eq!(start_bsc(Some(Ok(()))), Ok(()));
    assert_eq!(stop_bsc(broken()), Err(Error::Reported("broken".to_string())));
    assert_eq!(switch_scene(None), Err(Error::NoSoftwareSet));
    assert_eq!(switch_scene(Some(Ok("a".to_string()))), Ok("a".to_string()));
    assert_eq!(toggle_mute(None), Err(Error::NoSoftwareSet));
    assert_eq!(toggle_mute(Some(Ok(("a".to_string(), true)))), Ok(("a".to_string(), true)));
    assert_eq!(toggle_source(None), Err(Error::NoSoftwareSet));
    assert_eq!(toggle_source(broken()), Err(Error::Reported("broken".to_string())));
}

// The stream.
#[test]
fn streams_start() {
    let steps = run(Command::Start, "!start", |query| match query {
        Query::StreamOptions => Reply::Options(options()),
        _ => Reply::Called(Some(Ok(()))),
    });
    assert_eq!(
        steps,
        vec![
            Step::Asked(Query::StreamOptions),
            Step::Asked(Query::StartStreaming),
            sent(say("start.success", "en")),
        ]
    );
    let steps = run(Command::Start, "!start", |query| match query {
        Query::StreamOptions => Reply::Options(StreamOptions {
            record_while_streaming: true,
            switch_to_starting_scene_on_stream_start: true,
            ..options()
        }),
        _ => Reply::Called(None),
    });
    assert_eq!(
        steps[2..],
        [sent(say1(
            "start.error",
            "en",
            "error",
            Argument::Error(Error::UnableInitialConnection)
        ))]
    );
}

#[test]
fn the_scene_and_the_recording_follow_a_start() {
    for scene in [Some("soon".to_string()), None] {
        let steps = run(Command::Start, "!start", |query| match query {
            Query::StreamOptions => Reply::Options(StreamOptions {
                record_while_streaming: true,
                switch_to_starting_scene_on_stream_start: true,
                ..options()
            }),
            Query::OptionalScene(_) => Reply::MaybeText(scene.clone()),
            Query::SwitchScene(_) => Reply::Scene(None),
            Query::IsRecording => Reply::Recording(Some(Ok(false))),
            _ => Reply::Called(Some(Ok(()))),
        });
        let n = steps.len();
        assert_eq!(
            steps[n - 3..],
            [
                Step::Asked(Query::IsRecording),
                Step::Asked(Query::ToggleRecording),
                sent(say("rec.started", "en")),
            ]
        );
        assert_eq!(n, if scene.is_some() { 10 } else { 8 }, "{:?}", steps);
    }
}

/// Starts with transcoding, which is found from the attempt `first` on.
fn transcode(retries: u64, first: usize) -> Vec<Step> {
    let mut looks = 0;
    run(Command::Start, "!start", |query| match query {
        Query::StreamOptions => Reply::Options(StreamOptions {
            twitch_transcoding_check: true,
            twitch_transcoding_retries: retries,
            ..options()
        }),
        Query::CheckTranscoding(_) => {
            looks += 1;
            Reply::Transcoding(if looks >= first { Ok(true) } else { Ok(false) })
        }
        _ => Reply::Called(Some(Ok(()))),
    })
}

fn attempt() -> Vec<Step> {
    vec![
        Step::Asked(Query::StartStreaming),
        Step::Did(Effect::Sleep(15)),
        Step::Asked(Query::CheckTranscoding("chan".to_string())),
    ]
}

fn restart() -> Vec<Step> {
    vec![Step::Asked(Query::StopStreaming), Step::Did(Effect::Sleep(5))]
}

fn trying() -> Vec<Step> {
    vec![
        Step::Asked(Query::StreamOptions),
        Step::Asked(Query::StreamOptions),
        sent(say("startTwitchTranscoding.trying", "en")),
    ]
}

#[test]
fn transcoding_is_found_at_once() {
    let mut expected = trying();
    expected.extend(attempt());
    expected.push(sent(say1_text(
        "startTwitchTranscoding.success",
        "en",
        "attemptsMessage",
        "",
    )));
    assert_eq!(transcode(3, 1), expected);
}

#[test]
fn streams_restart_until_there_is_transcoding() {
    let mut expected = trying();
    expected.extend(attempt());
    expected.extend(restart());
    expected.extend(attempt());
    expected.push(sent(Message::Nested {
        phrase: phrase0("startTwitchTranscoding.success", "en"),
        slot: "attemptsMessage".to_string(),
        inner: phrase0("startTwitchTranscoding.attempts", "en").with_text("count", "2"),
    }));
    assert_eq!(transcode(3, 2), expected);
}

#[test]
fn streams_run_without_transcoding_after_all_attempts() {
    let mut expected = trying();
    expected.extend(attempt());
    expected.extend(restart());
    expected.extend(attempt());
    expected.extend(restart());
    expected.extend(attempt());
    expected.push(sent(say("startTwitchTranscoding.successNoTranscoding", "en")));
    assert_eq!(transcode(3, 9), expected);
}

#[test]
fn no_attempts_succeed_at_once() {
    let mut expected = trying();
    expected.push(sent(say1_text(
        "startTwitchTranscoding.success",
        "en",
        "attemptsMessage",
        "",
    )));
    assert_eq!(transcode(0, 1), expected);
}

#[test]
fn failed_calls_end_the_attempts() {
    let fails_at = |query: Query| {
        run(Command::Start, "!start", move |asked| match asked {
            Query::StreamOptions => Reply::Options(StreamOptions {
                twitch_transcoding_check: true,
                ..options()
            }),
            Query::CheckTranscoding(_) => Reply::Transcoding(Err(Error::InvalidJson)),
            other if *other == query => Reply::Called(broken()),
            _ => Reply::Called(Some(Ok(()))),
        })
    };
    let error = || Argument::Error(Error::Reported("broken".to_string()));
    let steps = fails_at(Query::StartStreaming);
    assert_eq!(steps[4..], [sent(say1("start.error", "en", "error", error()))]);
    let steps = fails_at(Query::StopStreaming);
    assert_eq!(steps[7..], [sent(say1("stop.error", "en", "error", error()))]);
}

#[test]
fn attempts_take_turns() {
    for retries in 0..4 {
        for first in 1..6 {
            let steps = transcode(retries, first);
            let calls: Vec<bool> = steps
                .iter()
                .filter_map(|step| match step {
                    Step::Asked(Query::StartStreaming) => Some(true),
                    Step::Asked(Query::StopStreaming) => Some(false),
                    _ => None,
                })
                .collect();
            for (i, call) in calls.iter().enumerate() {
                assert_eq!(*call, i % 2 == 0);
            }
            assert_eq!(calls.len() % 2 == 1, retries > 0);
            let messages = steps.iter().filter(|s| matches!(s, Step::Did(Effect::Send(_)))).count();
            assert_eq!(messages, 2);
        }
    }
}

#[test]
fn transcoding_that_goes_away_makes_no_difference() {
    let mut looks = 0;
    let steps = run(Command::Start, "!start", |query| match query {
        Query::StreamOptions => Reply::Options(StreamOptions {
            twitch_transcoding_check: true,
            ..options()
        }),
        Query::CheckTranscoding(_) => {
            looks += 1;
            Reply::Transcoding(Ok(looks == 2))
        }
        _ => Reply::Called(Some(Ok(()))),
    });
    assert_eq!(steps, transcode(3, 2));
}

#[test]
fn transcoding_is_for_twitch() {
    let mut dc = dispatch(Command::Start, "!start");
    dc.chat_message.platform = ChatPlatform::Other(1);
    let steps = follow(dc.run_command(), &mut |query| match query {
        Query::StreamOptions => Reply::Options(StreamOptions {
            twitch_transcoding_check: true,
            ..options()
        }),
        _ => Reply::Called(Some(Ok(()))),
    });
    assert_eq!(steps[2..], [sent(say("start.success", "en"))]);
}

#[test]
fn streams_stop() {
    for record in [false, true] {
        let steps = run(Command::Stop, "!stop", |query| match query {
            Query::StreamOptions => {
                Reply::Options(StreamOptions { record_while_streaming: record, ..options() })
            }
            Query::IsRecording => Reply::Recording(Some(Ok(true))),
            _ => Reply::Called(Some(Ok(()))),
        });
        let mut expected = vec![
            Step::Asked(Query::StreamOptions),
            Step::Asked(Query::StopStreaming),
            sent(say("stop.success", "en")),
        ];
        if record {
            expected.push(Step::Asked(Query::IsRecording));
            expected.push(Step::Asked(Query::ToggleRecording));
            expected.push(sent(say("rec.stopped", "en")));
        }
        assert_eq!(steps, expected);
    }
    let steps = run(Command::Stop, "!stop", |query| match query {
        Query::StreamOptions => {
            Reply::Options(StreamOptions { record_while_streaming: true, ..options() })
        }
        _ => Reply::Called(broken()),
    });
    assert_eq!(
        steps[2..],
        [sent(say1("stop.error", "en", "error", Argument::Error(Error::Reported("broken".to_string()))))]
    );
}

#[test]
fn streams_stop_for_raids() {
    let info = RaidedInfo { target: "friend".to_string(), display: "Friend".to_string() };
    let steps = run(Command::StopOnRaid(info), "Hi", |query| match query {
        Query::StreamOptions => Reply::Options(options()),
        _ => Reply::Called(Some(Ok(()))),
    });
    assert_eq!(
        steps[2..],
        [sent(say2_text("stop.raid", "en", "channel", "friend", "display_channel", "Friend"))]
    );
}

#[test]
fn recordings_are_toggled() {
    let toggled = |was: Option<Result<bool, Error>>, ok: bool| {
        let mut was = Some(was);
        run(Command::Rec, "!rec", move |query| match query {
            Query::IsRecording => Reply::Recording(was.take().unwrap()),
            _ => Reply::Called(if ok { Some(Ok(())) } else { broken() }),
        })
    };
    assert_eq!(toggled(None, true), vec![Step::Asked(Query::IsRecording)]);
    assert_eq!(toggled(broken(), true)[1..], [sent(say("rec.errorStatus", "en"))]);
    assert_eq!(toggled(Some(Ok(true)), true)[2..], [sent(say("rec.stopped", "en"))]);
    assert_eq!(toggled(Some(Ok(false)), true)[2..], [sent(say("rec.started", "en"))]);
    assert_eq!(toggled(Some(Ok(false)), false)[2..], [sent(say("rec.errorToggle", "en"))]);
}

// Settings.
#[test]
fn words_are_read_as_on_or_off() {
    for word in ["on", "ON", "On", "oN"] {
        assert_eq!(enabled_to_bool(word), Ok(true));
    }
    for word in ["off", "OFF", "oFf"] {
        assert_eq!(enabled_to_bool(word), Ok(false));
    }
    for word in ["", "onn", "true", "1", "of", "öff"] {
        assert_eq!(enabled_to_bool(word), Err(Error::EnabledToBoolConversionError));
    }
    assert_eq!(flag_word("on"), Ok(true));
    assert_eq!(flag_word("ON"), Err(Error::EnabledToBoolConversionError));
}

#[test]
fn settings_are_turned_on_and_off() {
    for (command, toggle, key) in [
        (Command::Notify, Toggle::Notify, "handleCommands.notify"),
        (Command::Autostop, Toggle::Autostop, "handleCommands.autostop"),
        (Command::Mod, Toggle::Mod, "handleCommands.mod"),
        (Command::Public, Toggle::Public, "handleCommands.public"),
    ] {
        for (word, value) in [("On", true), ("OFF", false)] {
            let text = format!("!x {}", word);
            let steps = run(command.clone(), &text, |_| Reply::Flag(value));
            assert_eq!(
                steps,
                vec![
                    Step::Did(Effect::SetToggle(toggle, value)),
                    Step::Did(Effect::SaveConfig),
                    Step::Asked(Query::IsOn(toggle)),
                    sent(say_condition(key, "en", value)),
                ]
            );
        }
        for text in ["!x", "!x maybe"] {
            let steps = run(command.clone(), text, |_| Reply::Flag(true));
            assert_eq!(
                steps,
                vec![Step::Asked(Query::IsOn(toggle)), sent(say_condition(key, "en", true))]
            );
        }
    }
}

#[test]
fn triggers_are_told() {
    for (command, kind, unit) in [
        (Command::Trigger, TriggerType::Low, "Kbps"),
        (Command::Otrigger, TriggerType::Offline, "Kbps"),
        (Command::Rtrigger, TriggerType::Rtt, "ms"),
        (Command::Ortrigger, TriggerType::RttOffline, "ms"),
    ] {
        let steps = run(command.clone(), "!x", |_| Reply::MaybeNumber(Some(800)));
        let text = format!("800 {}", unit);
        assert_eq!(measure_text(kind, 800), text);
        assert_eq!(
            steps,
            vec![
                Step::Asked(Query::GetTrigger(kind)),
                sent(say1_text("trigger.current", "en", "number", &text)),
            ]
        );
        let steps = run(command, "!x", |_| Reply::MaybeNumber(None));
        assert_eq!(steps[1..], [sent(say("trigger.disabled", "en"))]);
    }
}

#[test]
fn triggers_are_moved() {
    let steps = run(Command::Trigger, "!trigger 500", |_| Reply::MaybeNumber(Some(500)));
    assert_eq!(
        steps,
        vec![
            Step::Asked(Query::UpdateTrigger(TriggerType::Low, 500)),
            Step::Did(Effect::SaveConfig),
            sent(say1_text("trigger.success", "en", "number", "500 Kbps")),
        ]
    );
    let steps = run(Command::Rtrigger, "!rtrigger 0", |_| Reply::MaybeNumber(None));
    assert_eq!(
        steps[1..],
        [
            Step::Did(Effect::SaveConfig),
            sent(say1_text("trigger.successDisabled", "en", "number", "0")),
        ]
    );
    for word in ["lots", "-1", "4294967296"] {
        assert_eq!(
            alone(Command::Trigger, &format!("!trigger {}", word)),
            vec![sent(say1_text("trigger.error", "en", "number", word))]
        );
    }
    let steps = run(Command::Trigger, "!trigger 4294967295", |_| Reply::MaybeNumber(None));
    assert_eq!(steps[0], Step::Asked(Query::UpdateTrigger(TriggerType::Low, 4294967295)));
}

#[test]
fn the_version_is_told() {
    assert_eq!(alone(Command::Version, "!version"), vec![plain("Running NOALBS v2.1.0")]);
    assert_eq!(alone(Command::Noalbs, "!noalbs version"), vec![plain("Running NOALBS v2.1.0")]);
}

#[test]
fn the_helper_is_set_up() {
    assert_eq!(alone(Command::Noalbs, "!noalbs"), vec![]);
    assert_eq!(alone(Command::Noalbs, "!noalbs dance"), vec![]);
    assert_eq!(
        alone(Command::Noalbs, "!noalbs prefix"),
        vec![plain("Can't update NOALBS prefix")]
    );
    assert_eq!(
        alone(Command::Noalbs, "!noalbs prefix ?"),
        vec![
            Step::Did(Effect::SetPrefix("?".to_string())),
            Step::Did(Effect::SaveConfig),
            Step::Did(Effect::PrefixChanged("?".to_string())),
            plain("NOALBS prefix updated to ?"),
        ]
    );
    for (word, on, key) in [
        ("start", true, "noalbs.switcherEnabled"),
        ("stop", false, "noalbs.switcherDisabled"),
    ] {
        assert_eq!(
            run(Command::Noalbs, &format!("!noalbs {}", word), translated),
            vec![
                Step::Did(Effect::SetSwitcher(on)),
                Step::Did(Effect::SaveConfig),
                Step::Asked(Query::Translate(say(key, "en"))),
                plain(key),
            ]
        );
    }
    let steps = run(Command::Noalbs, "!noalbs instant", |query| match query {
        Query::ToggleInstantRecover => Reply::Flag(false),
        other => translated(other),
    });
    assert_eq!(
        steps,
        vec![
            Step::Asked(Query::ToggleInstantRecover),
            Step::Did(Effect::SaveConfig),
            Step::Asked(Query::Translate(say_condition("noalbs.instantSwitch", "en", false))),
            plain("noalbs.instantSwitch handleCommands.disabled"),
        ]
    );
}

#[test]
fn empty_words_are_not_sent() {
    let steps = run(Command::Noalbs, "!noalbs start", |_| Reply::Text(String::new()));
    assert_eq!(steps.len(), 3);
}

#[test]
fn the_language_is_changed() {
    let valid = |ok: bool| {
        move |query: &Query| match query {
            Query::ParseLanguage(_) => Reply::Flag(ok),
            other => translated(other),
        }
    };
    assert_eq!(
        run(Command::Noalbs, "!noalbs lang NB_NO", valid(true)),
        vec![
            Step::Asked(Query::ParseLanguage("NB_NO".to_string())),
            Step::Did(Effect::SetChatLanguage("NB_NO".to_string())),
            Step::Did(Effect::SaveConfig),
            Step::Asked(Query::Translate(say1_text("noalbs.langSuccess", "nb_no", "lang", "NB_NO"))),
            plain("noalbs.langSuccess NB_NO"),
        ]
    );
    assert_eq!(
        run(Command::Noalbs, "!noalbs lang xx", valid(false))[1..],
        [
            Step::Asked(Query::Translate(say1_text("noalbs.langErrorInvalid", "en", "lang", "xx"))),
            plain("noalbs.langErrorInvalid xx"),
        ]
    );
    assert_eq!(
        run(Command::Noalbs, "!noalbs lang", translated),
        vec![
            Step::Asked(Query::Translate(say("noalbs.langError", "en"))),
            plain("noalbs.langError"),
        ]
    );
}

#[test]
fn retries_are_told_and_changed() {
    let steps = run(Command::Noalbs, "!noalbs retry", |query| match query {
        Query::GetRetryAttempts => Reply::Number(7),
        other => translated(other),
    });
    assert_eq!(steps[0], Step::Asked(Query::GetRetryAttempts));
    assert_eq!(steps[2..], [plain("noalbs.retryCount 7")]);
    let steps = run(Command::Noalbs, "!noalbs retry 255", translated);
    assert_eq!(
        steps,
        vec![
            Step::Did(Effect::SetRetryAttempts(255)),
            Step::Did(Effect::SaveConfig),
            Step::Asked(Query::Translate(say1_text("noalbs.retrySuccess", "en", "count", "255"))),
            plain("noalbs.retrySuccess 255"),
        ]
    );
    let steps = run(Command::Noalbs, "!noalbs retry 256", translated);
    assert_eq!(
        steps,
        vec![
            Step::Asked(Query::Translate(say1_text("noalbs.retryError", "en", "count", "256"))),
            plain("noalbs.retryError 256"),
        ]
    );
}

// Collections.
fn current(key: &str) -> Step {
    sent(Message::Phrase(Phrase {
        key: key.to_string(),
        locale: None,
        args: vec![("locale".to_string(), Argument::Text("en".to_string()))],
    }))
}

#[test]
fn collections_are_changed() {
    assert_eq!(
        alone(Command::Collection, "!collection"),
        vec![current("collection.noParams")]
    );
    let change = |names: Option<Vec<&str>>, set: Option<Result<bool, Error>>| {
        let names = names.map(|v| v.iter().map(|s| s.to_string()).collect::<Vec<String>>());
        let mut names = Some(names);
        let mut set = Some(set);
        run(Command::Collection, "!collection ÉTÉ", move |query| match query {
            Query::Collections => Reply::Collections(names.take().unwrap()),
            _ => Reply::CollectionSet(set.take().unwrap()),
        })
    };
    let news = |key: &str| sent(say1_text(key, "en", "collection", "été"));
    assert_eq!(change(None, None)[1..], [news("collection.error")]);
    assert_eq!(change(Some(vec!["ÉTÉ", "x"]), None)[1..], [news("collection.notFound")]);
    assert_eq!(
        change(Some(vec!["x", "été"]), None),
        vec![
            Step::Asked(Query::Collections),
            Step::Asked(Query::SetCollection("été".to_string())),
        ]
    );
    assert_eq!(change(Some(vec!["été"]), broken())[2..], [news("collection.error")]);
    assert_eq!(change(Some(vec!["été"]), Some(Ok(false)))[2..], [news("collection.success")]);
    assert_eq!(
        change(Some(vec!["été"]), Some(Ok(true)))[2..],
        [news("collection.success"), current("collection.note")]
    );
}

#[test]
fn collections_with_capitals_are_never_changed_to() {
    for word in ["Main", "main", "MAIN", "mAIN"] {
        let text = format!("!collection {}", word);
        let steps = run(Command::Collection, &text, |query| match query {
            Query::Collections => Reply::Collections(Some(vec!["Main".to_string()])),
            other => panic!("asked {:?}", other),
        });
        assert_eq!(
            steps,
            vec![
                Step::Asked(Query::Collections),
                sent(say1_text("collection.notFound", "en", "collection", "main")),
            ]
        );
    }
}

// Servers.
fn servers(list: &[(&str, bool)]) -> Vec<StreamServer> {
    list.iter()
        .map(|(name, enabled)| StreamServer { name: name.to_string(), enabled: *enabled })
        .collect()
}

#[test]
fn servers_are_found_by_name() {
    let list = servers(&[("a", true), ("b", false), ("b", true)]);
    assert_eq!(find_server(&list, "b"), Some(1));
    assert_eq!(find_server(&list, "c"), None);
}

#[test]
fn the_source_of_a_server_is_told() {
    let ask = |text: &str, info: Option<&str>| {
        let info = info.map(|s| s.to_string());
        run(Command::Sourceinfo, text, move |query| match query {
            Query::Servers => Reply::Servers(servers(&[("a", true), ("b", false)])),
            Query::SourceInfo(_) => Reply::MaybeText(info.clone()),
            other => translated(other),
        })
    };
    assert_eq!(
        ask("!sourceinfo b", Some("6000 Kbps")),
        vec![
            Step::Asked(Query::Servers),
            Step::Asked(Query::SourceInfo(1)),
            plain("b: 6000 Kbps"),
        ]
    );
    assert_eq!(
        ask("!sourceinfo b", None)[2..],
        [
            Step::Asked(Query::Translate(say("sourceinfo.noInfo", "en"))),
            plain("b: sourceinfo.noInfo"),
        ]
    );
    assert_eq!(
        ask("!sourceinfo c", None)[1..],
        [sent(say1_text("sourceinfo.noInfo", "en", "name", "c"))]
    );
}

#[test]
fn all_sources_are_told() {
    let ask = |told: Vec<Option<&str>>| {
        let told: Vec<Option<String>> = told.iter().map(|o| o.map(|s| s.to_string())).collect();
        run(Command::Sourceinfo, "!sourceinfo", move |query| match query {
            Query::Servers => Reply::Servers(servers(&[("a", true), ("b", false), ("c", true)])),
            Query::SourceInfo(i) => Reply::MaybeText(told[*i].clone()),
            other => panic!("asked {:?}", other),
        })
    };
    assert_eq!(
        ask(vec![Some("x"), None, Some("z")]),
        vec![
            Step::Asked(Query::Servers),
            Step::Asked(Query::SourceInfo(0)),
            Step::Asked(Query::SourceInfo(1)),
            Step::Asked(Query::SourceInfo(2)),
            plain("a: x - c: z"),
        ]
    );
    assert_eq!(ask(vec![None, None, None])[4..], [sent(say("sourceinfo.noInfo", "en"))]);
}

fn bitrate_news(name: &str, message: &str) -> Message {
    Message::Phrase(
        Phrase { key: "bitrate.success".to_string(), locale: None, args: vec![] }
            .with_text("name", name)
            .with_text("message", message),
    )
}

#[test]
fn all_bitrates_are_told() {
    let ask = |told: Vec<Option<&str>>| {
        let told: Vec<Option<String>> = told.iter().map(|o| o.map(|s| s.to_string())).collect();
        run(Command::Bitrate, "!bitrate", move |query| match query {
            Query::Servers => Reply::Servers(servers(&[
                ("a", false),
                ("b", true),
                ("c", true),
                ("d", true),
            ])),
            Query::ServerBitrate(i) => Reply::MaybeText(told[*i].clone()),
            other => translated(other),
        })
    };
    assert_eq!(
        ask(vec![Some("1"), Some("2"), None, Some("4")]),
        vec![
            Step::Asked(Query::Servers),
            Step::Asked(Query::ServerBitrate(1)),
            Step::Asked(Query::Translate(bitrate_news("b", "2"))),
            Step::Asked(Query::ServerBitrate(2)),
            Step::Asked(Query::ServerBitrate(3)),
            Step::Asked(Query::Translate(bitrate_news("d", "4"))),
            plain("bitrate.success b 2 - bitrate.success d 4"),
        ]
    );
    assert_eq!(
        ask(vec![Some("1"), None, None, None])[4..],
        [
            Step::Asked(Query::Translate(say("bitrate.error", "en"))),
            plain("bitrate.error"),
        ]
    );
}

#[test]
fn empty_words_for_bitrates_need_no_separator_before_them() {
    let ask = |texts: Vec<&str>| {
        let texts: Vec<String> = texts.iter().map(|s| s.to_string()).collect();
        let count = texts.len();
        let mut said = 0;
        run(Command::Bitrate, "!bitrate", move |query| match query {
            Query::Servers => Reply::Servers(servers(&vec![("a", true); count])),
            Query::ServerBitrate(_) => Reply::MaybeText(Some("1".to_string())),
            Query::Translate(message) if *message == say("bitrate.error", "en") => {
                Reply::Text("none".to_string())
            }
            _ => {
                said += 1;
                Reply::Text(texts[said - 1].clone())
            }
        })
    };
    assert_eq!(ask(vec!["", "x"]).last(), Some(&plain("x")));
    assert_eq!(ask(vec!["x", ""]).last(), Some(&plain("x - ")));
    assert_eq!(ask(vec!["", ""]).last(), Some(&plain("none")));
}

#[test]
fn scene_changes_are_told() {
    let tell = |kind: SwitchType| {
        follow(begin_switch_notice("en", "main", kind), &mut |query| match query {
            Query::Servers => Reply::Servers(servers(&[("a", true)])),
            Query::ServerBitrate(_) => Reply::MaybeText(Some("9".to_string())),
            other => translated(other),
        })
    };
    for kind in [SwitchType::Normal, SwitchType::Low] {
        assert_eq!(
            tell(kind).last(),
            Some(&plain("sceneSwitch.switch main | bitrate.success a 9"))
        );
    }
    for kind in [SwitchType::Previous, SwitchType::Offline] {
        assert_eq!(tell(kind).len(), 2);
        assert_eq!(tell(kind).last(), Some(&plain("sceneSwitch.switch main")));
    }
}

#[test]
fn the_software_tells_of_itself() {
    let ask = |known: bool, stats: Option<Result<SoftwareStats, Error>>| {
        let mut stats = Some(stats);
        run(Command::ServerInfo, "!serverinfo", move |query| match query {
            Query::HasStreamStatus => Reply::Flag(known),
            Query::Share { part, whole } => Reply::Text(format!("{}/{}", part, whole)),
            _ => Reply::Stats(stats.take().unwrap()),
        })
    };
    assert_eq!(ask(false, None)[1..], [sent(say("serverinfo.noInfo", "en"))]);
    assert_eq!(ask(true, None).len(), 2);
    assert_eq!(ask(true, broken())[2..], [sent(say("serverinfo.noInfo", "en"))]);
    let stats = SoftwareStats {
        fps: "60".to_string(),
        bitrate: "5987".to_string(),
        num_dropped_frames: 12,
        num_total_frames: 1000,
        render_missed_frames: 0,
        render_total_frames: 2000,
        output_skipped_frames: 345,
        output_total_frames: 3000,
        scene: "main".to_string(),
    };
    assert_eq!(frames_text(12, "0.1"), "12 (0.1%)");
    assert_eq!(
        ask(true, Some(Ok(stats)))[2..],
        [
            Step::Asked(Query::Share { part: 12, whole: 1000 }),
            Step::Asked(Query::Share { part: 0, whole: 2000 }),
            Step::Asked(Query::Share { part: 345, whole: 3000 }),
            sent(Message::Phrase(
                phrase0("serverinfo.success", "en")
                    .with_text("fps", "60")
                    .with_text("bitrate", "5987")
                    .with_text("network", "12 (12/1000%)")
                    .with_text("rendering", "0 (0/2000%)")
                    .with_text("encoding", "345 (345/3000%)")
                    .with_text("scene", "main")
            )),
        ]
    );
}

// Anything else.
#[test]
fn unknown_commands_do_nothing() {
    assert_eq!(alone(Command::Unknown("dance".to_string()), "!dance now"), vec![]);
}

#[test]
fn parameters_follow_any_whitespace() {
    let steps = run(Command::Switch, "\u{3000}!switch\u{a0}main", |_| Reply::Scene(None));
    assert_eq!(steps[0], Step::Asked(Query::SwitchScene("main".to_string())));
}

#[test]
fn unfitting_answers_end_conversations() {
    let turn = resume("en", "chan", State::RetryRead, Reply::Flag(true));
    assert_eq!(turn, Turn { effects: vec![], next: Next::Done });
    let turn = resume("en", "chan", State::FixConnection, Reply::Number(1));
    assert_eq!(turn, Turn { effects: vec![], next: Next::Done });
}

#[test]
fn conversations_go_on_in_the_language_of_the_chat() {
    let mut dc = dispatch(Command::Fix, "!fix");
    dc.lang = "fr".to_string();
    let turn = dc.resume(State::FixConnection, Reply::Flag(true));
    assert_eq!(turn.effects, vec![Effect::Send(say("fix.try", "fr"))]);
    assert_eq!(turn.next, Next::Ask(Query::Fix, State::Fixed));
}

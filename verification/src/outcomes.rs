//! What each command comes to: all that it does and asks, from the first word to the last.
use vstd::prelude::*;

use crate::command::{Command, CommandView, OptionalScene, RaidedInfoView};
use crate::dispatch::{command_begins, params_of, resume, resumed};
use crate::error::{Error, ErrorView};
use crate::handler::ChatHandler;
use crate::laws::{attempt_of, kind_asked, kind_of, left, repeats};
use crate::message::{AutomaticSwitchingScene, ChatPlatform, DispatchCommand};
use crate::phrase::{ArgumentView, MessageView, PhraseView};
use crate::runs::{
    answers_fit, appended, asked_for, attempt_query, attempting, attempts_steps, bitrate_answers,
    bitrates_asked, last_attempt, law_all_bitrates_told, law_all_sources_told, law_no_attempts,
    law_recording_follows_stop, law_restarts_until_transcoding, law_shares_are_of_their_totals,
    law_switches_told, lemma_after_start_records, lemma_asked_later, lemma_asks, lemma_attempt_turn,
    lemma_does, no_call_fails, run, sources_asked, succeeded, told_bitrates, told_sources,
    transcoding_in, Answers, Step,
};
use crate::servers::{lemma_place_of, names_of};
use crate::settings::measure;
use crate::stream::{after_start, attempt_begins, stopped, transcoding_options_known};
use crate::text::{decimal, joined, lowercase, number, texts, words};
use crate::turn::{
    and_then, asks, does, done, sends, servers_view, Attempt, EffectView, Plan, QueryView, Reply,
    SoftwareStats, State, StateView, StreamOptions, StreamServer, SwitchType, Toggle, TriggerType,
    Turn, TurnView,
};

verus! {

// The terms in which outcomes are told.
/// What a command is given: the words after it, where it was written, and in which
/// language it is answered.
pub struct Line {
    pub params: Seq<Seq<char>>,
    pub platform: ChatPlatform,
    pub channel: Seq<char>,
    pub lang: Seq<char>,
    pub version: Seq<char>,
}

/// All that a command does and asks.
pub open spec fn outcome(command: CommandView, line: Line, answers: Answers) -> Seq<Step> {
    run(
        line.lang,
        line.channel,
        command_begins(command, line.params, line.platform, line.lang, line.version),
        answers,
    )
}

/// A phrase in the language `lang`.
pub open spec fn words_for(
    key: Seq<char>,
    lang: Seq<char>,
    args: Seq<(Seq<char>, ArgumentView)>,
) -> PhraseView {
    PhraseView { key, locale: Some(lang), args }
}

/// The step that says a phrase in the language `lang`.
pub open spec fn says(
    key: Seq<char>,
    lang: Seq<char>,
    args: Seq<(Seq<char>, ArgumentView)>,
) -> Step {
    Step::Does(EffectView::Send(MessageView::Phrase(words_for(key, lang, args))))
}

/// The step that says a phrase without arguments.
pub open spec fn says_only(key: Seq<char>, lang: Seq<char>) -> Step {
    says(key, lang, Seq::empty())
}

/// The step that says a text as it is.
pub open spec fn says_plainly(text: Seq<char>) -> Step {
    Step::Does(EffectView::Send(MessageView::Plain(text)))
}

/// An argument that is a text.
pub open spec fn text(name: Seq<char>, value: Seq<char>) -> (Seq<char>, ArgumentView) {
    (name, ArgumentView::Text(value))
}

/// The step that saves the configuration.
pub open spec fn saves() -> Step {
    Step::Does(EffectView::SaveConfig)
}

/// How a call failed, without a connection or by itself; none where it succeeded.
pub open spec fn failure(outcome: Option<Result<(), Error>>) -> Option<ErrorView> {
    match outcome {
        None => Some(ErrorView::UnableInitialConnection),
        Some(Err(e)) => Some(e@),
        Some(Ok(_)) => None,
    }
}

/// The argument that tells a failure.
pub open spec fn because(e: ErrorView) -> Seq<(Seq<char>, ArgumentView)> {
    seq![("error"@, ArgumentView::Error(e))]
}

// Commands as they are carried out.
/// A command is carried out with the words that follow the first one of its message, in
/// the channel and the language that it came with.
pub proof fn law_commands_use_their_message(
    dispatched: &DispatchCommand,
    turn: Turn,
    answers: Answers,
)
    requires
        call_ensures(DispatchCommand::run_command, (dispatched,), turn),
    ensures
        run(
            dispatched.lang@,
            dispatched.chat_message.channel@,
            turn@,
            answers,
        ) == outcome(
            dispatched.command@,
            Line {
                params: Seq::new(
                    left(words(dispatched.chat_message.message@, false).len(), 1),
                    |i: int| words(dispatched.chat_message.message@, false)[i + 1],
                ),
                platform: dispatched.chat_message.platform,
                channel: dispatched.chat_message.channel@,
                lang: dispatched.lang@,
                version: dispatched.version@,
            },
            answers,
        ),
{
    let all = words(dispatched.chat_message.message@, false);
    assert(params_of(dispatched.chat_message.message@) =~= Seq::new(
        left(all.len(), 1),
        |i: int| all[i + 1],
    ));
}

/// A command goes on in its own language and about its own channel, whichever way it is
/// asked to.
pub proof fn law_commands_go_on_as_they_began(
    dispatched: &DispatchCommand,
    lang: &str,
    channel: &str,
    state: State,
    reply: Reply,
    turn: Turn,
    other: Turn,
)
    requires
        call_ensures(DispatchCommand::resume, (dispatched, state, reply), turn),
        call_ensures(resume, (lang, channel, state, reply), other),
        lang@ == dispatched.lang@,
        channel@ == dispatched.chat_message.channel@,
    ensures
        turn@ == other@,
        turn@ == resumed(dispatched.lang@, dispatched.chat_message.channel@, state@, reply),
{
}

// Aliases.
/// The command for aliases needs two words.
pub proof fn law_aliases_need_two_words(
    line: Line,
    answers: Answers,
)
    requires
        line.params.len() < 2,
    ensures
        outcome(CommandView::Alias, line, answers) == seq![
            says_only("alias.errorIncorrectArguments"@, line.lang),
        ],
{
    reveal_with_fuel(run, 4);
}

/// An alias that is to go is removed where it is known; what was removed is saved and told.
pub proof fn law_aliases_are_removed(
    line: Line,
    known: bool,
    removed: Result<bool, Error>,
    answers: Answers,
)
    requires
        line.params.len() >= 2,
        line.params[0] == "rem"@,
        forall|state: StateView| #[trigger]
            answers(QueryView::ContainsAlias(line.params[1]), state) == Reply::Flag(known),
        forall|state: StateView| #[trigger]
            answers(QueryView::RemoveAlias(line.params[1]), state) == Reply::Removed(removed),
    ensures
        outcome(CommandView::Alias, line, answers) == ({
            let alias = line.params[1];
            seq![Step::Asks(QueryView::ContainsAlias(alias))] + if !known {
                seq![says("alias.errorAlias"@, line.lang, seq![text("alias"@, alias)])]
            } else {
                seq![Step::Asks(QueryView::RemoveAlias(alias))] + match removed {
                    Ok(true) => seq![
                        saves(),
                        says("alias.removed"@, line.lang, seq![text("alias"@, alias)]),
                    ],
                    _ => Seq::empty(),
                }
            }
        }),
{
    reveal_with_fuel(run, 4);
}

/// A new alias is added for the command that a word names, unless the alias is taken or the
/// word names none; what was added is saved and told.
pub proof fn law_aliases_are_added(
    line: Line,
    known: bool,
    command: Command,
    added: Result<(), Error>,
    answers: Answers,
)
    requires
        line.params.len() >= 2,
        line.params[0] != "rem"@,
        forall|state: StateView| #[trigger]
            answers(QueryView::ContainsAlias(line.params[0]), state) == Reply::Flag(known),
        forall|state: StateView| #[trigger]
            answers(QueryView::ParseCommand(line.params[1]), state) == Reply::Command(command),
        forall|state: StateView| #[trigger]
            answers(QueryView::AddAlias(line.params[0], command@), state) == Reply::Done(added),
    ensures
        outcome(CommandView::Alias, line, answers) == ({
            let alias = line.params[0];
            let name = line.params[1];
            seq![Step::Asks(QueryView::ContainsAlias(alias))] + if known {
                seq![says("alias.errorAlreadyUsed"@, line.lang, seq![text("alias"@, alias)])]
            } else {
                seq![Step::Asks(QueryView::ParseCommand(name))] + if command@ is Unknown {
                    seq![says("alias.errorCommand"@, line.lang, seq![text("command"@, name)])]
                } else {
                    seq![Step::Asks(QueryView::AddAlias(alias, command@))] + match added {
                        Ok(_) => seq![
                            saves(),
                            says(
                                "alias.success"@,
                                line.lang,
                                seq![text("alias"@, alias), text("command"@, name)],
                            ),
                        ],
                        Err(_) => Seq::empty(),
                    }
                }
            }
        }),
{
    reveal_with_fuel(run, 5);
}

// Scenes and sources.
/// The steps that switch to a scene: the one that came of it is told, or the one that was
/// asked for where it failed.
pub open spec fn switching(
    lang: Seq<char>,
    scene: Seq<char>,
    shown: Option<Result<String, Error>>,
) -> Seq<Step> {
    seq![
        Step::Asks(QueryView::SwitchScene(scene)),
        match shown {
            Some(Ok(shown)) => says("switch.success"@, lang, seq![text("scene"@, shown@)]),
            _ => says("switch.error"@, lang, seq![text("scene"@, scene)]),
        },
    ]
}

/// A scene that is named is switched to, and the outcome is told.
pub proof fn law_scenes_are_switched(
    line: Line,
    shown: Option<Result<String, Error>>,
    answers: Answers,
)
    requires
        line.params.len() > 0,
        forall|state: StateView| #[trigger]
            answers(QueryView::SwitchScene(line.params[0]), state) == Reply::Scene(shown),
    ensures
        outcome(CommandView::Switch, line, answers) == switching(line.lang, line.params[0], shown),
{
    reveal_with_fuel(run, 4);
}

/// Without a name no scene is switched to, and no source shown or hidden.
pub proof fn law_switching_needs_a_name(
    line: Line,
    answers: Answers,
)
    requires
        line.params.len() == 0,
    ensures
        outcome(CommandView::Switch, line, answers) == seq![says_only("switch.noParams"@, line.lang)],
        outcome(CommandView::Source, line, answers) == seq![says_only("source.noParams"@, line.lang)],
{
    reveal_with_fuel(run, 4);
}

/// The source that is named is muted or unmuted, or the usual one where none is, and what it
/// is now is told.
pub proof fn law_sources_are_muted(
    line: Line,
    toggled: Option<Result<(String, bool), Error>>,
    answers: Answers,
)
    requires
        forall|state: StateView| #[trigger]
            answers(QueryView::ToggleMute(muted_source(line)), state) == Reply::Toggled(toggled),
    ensures
        outcome(CommandView::Mute, line, answers) == seq![
            Step::Asks(QueryView::ToggleMute(muted_source(line))),
            match toggled {
                Some(Ok((name, true))) => says(
                    "mute.success"@,
                    line.lang,
                    seq![text("scene"@, name@), text("muted"@, "muted"@)],
                ),
                Some(Ok((name, false))) => says(
                    "mute.success"@,
                    line.lang,
                    seq![text("scene"@, name@), text("muted"@, "unmuted"@)],
                ),
                _ => says("mute.error"@, line.lang, seq![text("scene"@, muted_source(line))]),
            },
        ],
{
    reveal_with_fuel(run, 4);
}

/// The source that is muted.
pub open spec fn muted_source(line: Line) -> Seq<char> {
    if line.params.len() > 0 {
        line.params[0]
    } else {
        "belabox"@
    }
}

/// The source that is named is shown or hidden, and what it is now is told.
pub proof fn law_sources_are_toggled(
    line: Line,
    toggled: Option<Result<(String, bool), Error>>,
    answers: Answers,
)
    requires
        line.params.len() > 0,
        forall|state: StateView| #[trigger]
            answers(QueryView::ToggleSource(line.params[0]), state) == Reply::Toggled(toggled),
    ensures
        outcome(CommandView::Source, line, answers) == seq![
            Step::Asks(QueryView::ToggleSource(line.params[0])),
            match toggled {
                Some(Ok((name, on))) => Step::Does(
                    EffectView::Send(
                        MessageView::Nested {
                            phrase: words_for(
                                "source.success"@,
                                line.lang,
                                seq![text("name"@, name@)],
                            ),
                            slot: "status"@,
                            inner: if on {
                                words_for("source.enabled"@, line.lang, Seq::empty())
                            } else {
                                words_for("source.disabled"@, line.lang, Seq::empty())
                            },
                        },
                    ),
                ),
                _ => says("source.error"@, line.lang, seq![text("name"@, line.params[0])]),
            },
        ],
{
    reveal_with_fuel(run, 4);
}

/// The scene that a command is for.
pub open spec fn scene_of(command: CommandView) -> Option<OptionalScene> {
    match command {
        CommandView::PrivacyScene => Some(OptionalScene::Privacy),
        CommandView::StartingScene => Some(OptionalScene::Starting),
        CommandView::EndingScene => Some(OptionalScene::Ending),
        _ => None,
    }
}

/// The steps that show the scene for a purpose, which may have none.
pub open spec fn showing(
    lang: Seq<char>,
    kind: OptionalScene,
    scene: Option<String>,
    shown: Option<Result<String, Error>>,
) -> Seq<Step> {
    let name = seq![("scene"@, ArgumentView::Scene(kind))];
    seq![Step::Asks(QueryView::OptionalScene(kind))] + match scene {
        Some(scene) => seq![says("scene.success"@, lang, name)] + switching(lang, scene@, shown),
        None => seq![says("scene.error"@, lang, name)],
    }
}

/// A command for a scene shows the scene that is configured for its own purpose, or tells that
/// there is none.
pub proof fn law_scenes_for_a_purpose_are_shown(
    line: Line,
    command: CommandView,
    kind: OptionalScene,
    scene: Option<String>,
    shown: Option<Result<String, Error>>,
    answers: Answers,
)
    requires
        scene_of(command) == Some(kind),
        forall|state: StateView| #[trigger]
            answers(QueryView::OptionalScene(kind), state) == Reply::MaybeText(scene),
        scene is Some ==> forall|state: StateView| #[trigger]
            answers(QueryView::SwitchScene(scene->0@), state) == Reply::Scene(shown),
    ensures
        outcome(command, line, answers) == showing(line.lang, kind, scene, shown),
{
    reveal_with_fuel(run, 5);
}

/// The live scene is the one that the switcher shows when all is well.
pub proof fn law_the_live_scene_is_shown(
    line: Line,
    scene: String,
    shown: Option<Result<String, Error>>,
    answers: Answers,
)
    requires
        forall|state: StateView| #[trigger]
            answers(QueryView::NormalScene, state) == Reply::Text(scene),
        forall|state: StateView| #[trigger]
            answers(QueryView::SwitchScene(scene@), state) == Reply::Scene(shown),
    ensures
        outcome(CommandView::LiveScene, line, answers) == seq![
            Step::Asks(QueryView::NormalScene),
            says("scene.success"@, line.lang, seq![text("scene"@, "live"@)]),
        ] + switching(line.lang, scene@, shown),
{
    reveal_with_fuel(run, 4);
}

/// The steps that restart the media sources: where there is a connection that is told, and
/// so is a failure.
pub open spec fn fixing(
    lang: Seq<char>,
    connected: bool,
    outcome: Option<Result<(), Error>>,
) -> Seq<Step> {
    seq![Step::Asks(QueryView::HasConnection)] + if !connected {
        Seq::empty()
    } else {
        seq![says_only("fix.try"@, lang), Step::Asks(QueryView::Fix)] + match outcome {
            Some(Err(_)) => seq![says_only("fix.error"@, lang)],
            Some(Ok(_)) => Seq::empty(),
            None => seq![says_only("fix.error"@, lang)],
        }
    }
}

/// The media sources are restarted.
pub proof fn law_media_sources_are_fixed(
    line: Line,
    connected: bool,
    fixed: Option<Result<(), Error>>,
    answers: Answers,
)
    requires
        forall|state: StateView| #[trigger]
            answers(QueryView::HasConnection, state) == Reply::Flag(connected),
        forall|state: StateView| #[trigger]
            answers(QueryView::Fix, state) == Reply::Called(fixed),
    ensures
        outcome(CommandView::Fix, line, answers) == fixing(line.lang, connected, fixed),
{
    reveal_with_fuel(run, 4);
}

/// A refresh shows its scene for five seconds and then the scene that was shown before, unless
/// one of them fails.
pub proof fn law_scenes_are_refreshed(
    line: Line,
    refresh: String,
    current: String,
    first: Option<Result<String, Error>>,
    second: Option<Result<String, Error>>,
    answers: Answers,
)
    requires
        forall|state: StateView| #[trigger]
            answers(QueryView::RefreshScenes, state) == (Reply::Scenes { refresh: Some(refresh), current }),
        forall|state: StateView|
            state is RefreshShown ==> (#[trigger] answers(QueryView::SwitchScene(refresh@), state))
                == Reply::Scene(first),
        forall|state: StateView|
            state is RefreshRestored ==> (#[trigger] answers(
                QueryView::SwitchScene(current@),
                state,
            )) == Reply::Scene(second),
    ensures
        outcome(CommandView::Refresh, line, answers) == seq![
            Step::Asks(QueryView::RefreshScenes),
            says_only("refresh.try"@, line.lang),
            Step::Asks(QueryView::SwitchScene(refresh@)),
        ] + if first is Some && first->0 is Ok {
            seq![
                Step::Does(EffectView::Sleep(5)),
                Step::Asks(QueryView::SwitchScene(current@)),
                if second is Some && second->0 is Ok {
                    says_only("refresh.success"@, line.lang)
                } else {
                    says_only("refresh.error"@, line.lang)
                },
            ]
        } else {
            seq![says_only("refresh.error"@, line.lang)]
        },
{
    reveal_with_fuel(run, 5);
}

/// Without a scene for it, a refresh restarts the media sources.
pub proof fn law_a_refresh_without_a_scene_fixes(
    line: Line,
    current: String,
    connected: bool,
    fixed: Option<Result<(), Error>>,
    answers: Answers,
)
    requires
        forall|state: StateView| #[trigger]
            answers(QueryView::RefreshScenes, state) == (Reply::Scenes { refresh: None, current }),
        forall|state: StateView| #[trigger]
            answers(QueryView::HasConnection, state) == Reply::Flag(connected),
        forall|state: StateView| #[trigger]
            answers(QueryView::Fix, state) == Reply::Called(fixed),
    ensures
        outcome(CommandView::Refresh, line, answers) == seq![
            Step::Asks(QueryView::RefreshScenes),
            says_only("refresh.noScene"@, line.lang),
        ] + fixing(line.lang, connected, fixed),
{
    reveal_with_fuel(run, 5);
}

// The recording and the stream.
/// The steps that toggle the recording, and tell what became of it.
pub open spec fn recording(
    lang: Seq<char>,
    was: Option<Result<bool, Error>>,
    toggled: Option<Result<(), Error>>,
) -> Seq<Step> {
    seq![Step::Asks(QueryView::IsRecording)] + match was {
        None => Seq::empty(),
        Some(Err(_)) => seq![says_only("rec.errorStatus"@, lang)],
        Some(Ok(was)) => seq![
            Step::Asks(QueryView::ToggleRecording),
            if toggled is None || toggled->0 is Err {
                says_only("rec.errorToggle"@, lang)
            } else if was {
                says_only("rec.stopped"@, lang)
            } else {
                says_only("rec.started"@, lang)
            },
        ],
    }
}

/// What the software and the configuration answer after a start or a stop.
pub struct Aftermath {
    pub scene: Option<String>,
    pub shown: Option<Result<String, Error>>,
    pub was_recording: Option<Result<bool, Error>>,
    pub toggled: Option<Result<(), Error>>,
}

/// Whether the answers are those of an aftermath.
pub open spec fn answers_after(after: Aftermath, answers: Answers) -> bool {
    &&& forall|state: StateView| #[trigger]
        answers(QueryView::OptionalScene(OptionalScene::Starting), state) == Reply::MaybeText(
            after.scene,
        )
    &&& forall|scene: Seq<char>, state: StateView| #[trigger]
        answers(QueryView::SwitchScene(scene), state) == Reply::Scene(after.shown)
    &&& forall|state: StateView| #[trigger]
        answers(QueryView::IsRecording, state) == Reply::Recording(after.was_recording)
    &&& forall|state: StateView| #[trigger]
        answers(QueryView::ToggleRecording, state) == Reply::Called(after.toggled)
}

/// The steps that follow a start: the starting scene, and then the recording, each where
/// the options ask for it.
pub open spec fn following(
    lang: Seq<char>,
    options: StreamOptions,
    after: Aftermath,
) -> Seq<Step> {
    (if options.switch_to_starting_scene_on_stream_start {
        showing(lang, OptionalScene::Starting, after.scene, after.shown)
    } else {
        Seq::empty()
    }) + if options.record_while_streaming {
        recording(lang, after.was_recording, after.toggled)
    } else {
        Seq::empty()
    }
}

/// The command for the recording toggles it.
pub proof fn law_recordings_are_toggled(
    line: Line,
    was: Option<Result<bool, Error>>,
    toggled: Option<Result<(), Error>>,
    answers: Answers,
)
    requires
        forall|state: StateView| #[trigger]
            answers(QueryView::IsRecording, state) == Reply::Recording(was),
        forall|state: StateView| #[trigger]
            answers(QueryView::ToggleRecording, state) == Reply::Called(toggled),
    ensures
        outcome(CommandView::Rec, line, answers) == recording(line.lang, was, toggled),
{
    reveal_with_fuel(run, 4);
}

/// Where the chat is not on Twitch, or no transcoding is asked for, the stream is started once;
/// what the options ask for follows a start that succeeds, and nothing one that fails.
pub proof fn law_streams_start(
    line: Line,
    options: StreamOptions,
    called: Option<Result<(), Error>>,
    after: Aftermath,
    answers: Answers,
)
    requires
        line.platform != ChatPlatform::Twitch || !options.twitch_transcoding_check,
        forall|state: StateView| #[trigger]
            answers(QueryView::StreamOptions, state) == Reply::Options(options),
        forall|state: StateView| #[trigger]
            answers(QueryView::StartStreaming, state) == Reply::Called(called),
        answers_after(after, answers),
    ensures
        outcome(CommandView::Start, line, answers) == seq![
            Step::Asks(QueryView::StreamOptions),
            Step::Asks(QueryView::StartStreaming),
        ] + match failure(called) {
            Some(e) => seq![says("start.error"@, line.lang, because(e))],
            None => seq![says_only("start.success"@, line.lang)] + following(
                line.lang,
                options,
                after,
            ),
        },
{
    let plan = Plan {
        starting: options.switch_to_starting_scene_on_stream_start,
        record: options.record_while_streaming,
    };
    lemma_following(line.lang, line.channel, options, plan, after, answers);
    let options_read = StateView::StartOptions { twitch: line.platform == ChatPlatform::Twitch };
    let started = StateView::Started(plan);
    lemma_asks(line.lang, line.channel, QueryView::StreamOptions, options_read, answers);
    lemma_asks(line.lang, line.channel, QueryView::StartStreaming, started, answers);
    match failure(called) {
        Some(e) => {
            let told = EffectView::Send(
                MessageView::Phrase(words_for("start.error"@, line.lang, because(e))),
            );
            lemma_does(line.lang, line.channel, told, done(), answers);
        },
        None => {
            let told = EffectView::Send(
                MessageView::Phrase(words_for("start.success"@, line.lang, Seq::empty())),
            );
            lemma_does(line.lang, line.channel, told, after_start(plan), answers);
        },
    }
}

proof fn lemma_following(
    lang: Seq<char>,
    channel: Seq<char>,
    options: StreamOptions,
    plan: Plan,
    after: Aftermath,
    answers: Answers,
)
    requires
        answers_after(after, answers),
        plan.starting == options.switch_to_starting_scene_on_stream_start,
        plan.record == options.record_while_streaming,
    ensures
        run(lang, channel, after_start(plan), answers) == following(lang, options, after),
{
    reveal_with_fuel(run, 6);
    let steps = run(lang, channel, after_start(plan), answers);
    if plan.starting {
        match after.scene {
            Some(scene) => {
                assert(steps =~= following(lang, options, after));
            },
            None => {
                assert(steps =~= following(lang, options, after));
            },
        }
    } else {
        assert(steps =~= following(lang, options, after));
    }
}

/// The words that the stream runs with transcoding, after how many attempts.
pub open spec fn transcoding_told(lang: Seq<char>, attempts: nat) -> MessageView {
    if attempts > 1 {
        MessageView::Nested {
            phrase: words_for("startTwitchTranscoding.success"@, lang, Seq::empty()),
            slot: "attemptsMessage"@,
            inner: words_for(
                "startTwitchTranscoding.attempts"@,
                lang,
                seq![text("count"@, decimal(attempts))],
            ),
        }
    } else {
        MessageView::Phrase(
            words_for(
                "startTwitchTranscoding.success"@,
                lang,
                seq![text("attemptsMessage"@, Seq::empty())],
            ),
        )
    }
}

/// On Twitch, where transcoding is asked for, the stream is restarted until the attempt `first`
/// finds it or no more attempts are allowed; and then what the options ask for follows.
pub proof fn law_streams_start_with_transcoding(
    line: Line,
    options: StreamOptions,
    first: nat,
    after: Aftermath,
    answers: Answers,
)
    requires
        line.platform == ChatPlatform::Twitch,
        options.twitch_transcoding_check,
        1 <= options.twitch_transcoding_retries,
        1 <= first,
        forall|state: StateView| #[trigger]
            answers(QueryView::StreamOptions, state) == Reply::Options(options),
        transcoding_in(line.channel, first, answers),
        answers_after(after, answers),
    ensures
        outcome(CommandView::Start, line, answers) == ({
            let retries = options.twitch_transcoding_retries;
            seq![
                Step::Asks(QueryView::StreamOptions),
                Step::Asks(QueryView::StreamOptions),
                says_only("startTwitchTranscoding.trying"@, line.lang),
            ] + (attempts_steps(
                line.channel,
                options.twitch_transcoding_delay_seconds,
                if first <= retries {
                    (first - 1) as nat
                } else {
                    (retries - 1) as nat
                },
            ) + (seq![
                if first <= retries {
                    Step::Does(EffectView::Send(transcoding_told(line.lang, first)))
                } else {
                    says_only("startTwitchTranscoding.successNoTranscoding"@, line.lang)
                },
            ] + following(line.lang, options, after)))
        }),
{
    let plan = Plan {
        starting: options.switch_to_starting_scene_on_stream_start,
        record: options.record_while_streaming,
    };
    let retries = options.twitch_transcoding_retries;
    lemma_following(line.lang, line.channel, options, plan, after, answers);
    law_restarts_until_transcoding(line.lang, line.channel, options, plan, first, answers);
    let first_read = StateView::StartOptions { twitch: true };
    let second_read = StateView::TranscodingOptions(plan);
    lemma_asks(line.lang, line.channel, QueryView::StreamOptions, first_read, answers);
    lemma_asks(line.lang, line.channel, QueryView::StreamOptions, second_read, answers);
    let told = if first <= retries {
        transcoding_told(line.lang, first)
    } else {
        MessageView::Phrase(
            words_for("startTwitchTranscoding.successNoTranscoding"@, line.lang, Seq::empty()),
        )
    };
    lemma_does(line.lang, line.channel, EffectView::Send(told), after_start(plan), answers);
    assert(last_attempt(line.lang, retries, plan, first) == and_then(
        does(EffectView::Send(told)),
        after_start(plan),
    ));
}

/// Where transcoding is asked for and no attempt is allowed, no start is made, and what the
/// options ask for follows all the same.
pub proof fn law_streams_are_said_to_run_without_attempts(
    line: Line,
    options: StreamOptions,
    after: Aftermath,
    answers: Answers,
)
    requires
        line.platform == ChatPlatform::Twitch,
        options.twitch_transcoding_check,
        options.twitch_transcoding_retries == 0,
        forall|state: StateView| #[trigger]
            answers(QueryView::StreamOptions, state) == Reply::Options(options),
        answers_after(after, answers),
    ensures
        outcome(CommandView::Start, line, answers) == seq![
            Step::Asks(QueryView::StreamOptions),
            Step::Asks(QueryView::StreamOptions),
            says_only("startTwitchTranscoding.trying"@, line.lang),
            Step::Does(EffectView::Send(transcoding_told(line.lang, 0))),
        ] + following(line.lang, options, after),
{
    let plan = Plan {
        starting: options.switch_to_starting_scene_on_stream_start,
        record: options.record_while_streaming,
    };
    lemma_following(line.lang, line.channel, options, plan, after, answers);
    law_no_attempts(line.lang, line.channel, options, plan, answers);
    let first_read = StateView::StartOptions { twitch: true };
    let second_read = StateView::TranscodingOptions(plan);
    lemma_asks(line.lang, line.channel, QueryView::StreamOptions, first_read, answers);
    lemma_asks(line.lang, line.channel, QueryView::StreamOptions, second_read, answers);
}

/// Whichever way the stream is started and whatever else is answered, once it was started the
/// starting scene is asked for exactly where the options say so, and the recording is toggled
/// exactly where the options say so.
pub proof fn law_options_decide_what_follows_a_start(
    line: Line,
    options: StreamOptions,
    answers: Answers,
)
    requires
        answers_fit(answers),
        no_call_fails(answers),
        forall|state: StateView| #[trigger]
            answers(QueryView::StreamOptions, state) == Reply::Options(options),
    ensures
        asked_for(
            outcome(CommandView::Start, line, answers),
            QueryView::OptionalScene(OptionalScene::Starting),
        ) == options.switch_to_starting_scene_on_stream_start,
        asked_for(outcome(CommandView::Start, line, answers), QueryView::IsRecording)
            == options.record_while_streaming,
{
    let plan = Plan {
        starting: options.switch_to_starting_scene_on_stream_start,
        record: options.record_while_streaming,
    };
    let twitch = line.platform == ChatPlatform::Twitch;
    let reading = StateView::StartOptions { twitch };
    let begun = command_begins(
        CommandView::Start,
        line.params,
        line.platform,
        line.lang,
        line.version,
    );
    assert(begun == asks(QueryView::StreamOptions, reading));
    if twitch && options.twitch_transcoding_check {
        let again = StateView::TranscodingOptions(plan);
        let turn = transcoding_options_known(line.lang, plan, options);
        let retry = options.twitch_transcoding_retries;
        let delay = options.twitch_transcoding_delay_seconds;
        let attempts = attempt_begins(line.lang, 0, retry, delay, plan);
        if retry > 0 {
            let state = StateView::TranscodingStarted(Attempt { number: 1, retry, delay, plan });
            assert(attempts == asks(QueryView::StartStreaming, state));
            lemma_attempts_follow(line.lang, line.channel, state, answers);
        } else {
            lemma_message_follow(
                line.lang,
                line.channel,
                transcoding_told(line.lang, 0),
                plan,
                answers,
            );
        }
        lemma_plan_said(
            line.lang,
            line.channel,
            words_for("startTwitchTranscoding.trying"@, line.lang, Seq::empty()),
            attempts,
            plan,
            answers,
        );
        lemma_plan_asked(line.lang, line.channel, QueryView::StreamOptions, again, plan, answers);
        lemma_plan_asked(line.lang, line.channel, QueryView::StreamOptions, reading, plan, answers);
    } else {
        let started = StateView::Started(plan);
        let success = MessageView::Phrase(
            words_for("start.success"@, line.lang, Seq::empty()),
        );
        assert(succeeded(answers(QueryView::StartStreaming, started)));
        lemma_message_follow(line.lang, line.channel, success, plan, answers);
        assert(resumed(
            line.lang,
            line.channel,
            started,
            answers(QueryView::StartStreaming, started),
        ) == and_then(sends(success), after_start(plan)));
        lemma_plan_asked(
            line.lang,
            line.channel,
            QueryView::StartStreaming,
            started,
            plan,
            answers,
        );
        lemma_plan_asked(line.lang, line.channel, QueryView::StreamOptions, reading, plan, answers);
    }
}

/// Whether the starting scene and the recording are asked for as a plan says.
spec fn as_planned(steps: Seq<Step>, plan: Plan) -> bool {
    &&& asked_for(steps, QueryView::OptionalScene(OptionalScene::Starting)) == plan.starting
    &&& asked_for(steps, QueryView::IsRecording) == plan.record
}

proof fn lemma_plan_step(step: Step, steps: Seq<Step>, plan: Plan)
    requires
        step != Step::Asks(QueryView::IsRecording),
        step != Step::Asks(QueryView::OptionalScene(OptionalScene::Starting)),
    ensures
        as_planned(seq![step] + steps, plan) == as_planned(steps, plan),
{
    lemma_asked_later(step, steps, QueryView::IsRecording);
    lemma_asked_later(step, steps, QueryView::OptionalScene(OptionalScene::Starting));
}

proof fn lemma_plan_asked(
    lang: Seq<char>,
    channel: Seq<char>,
    query: QueryView,
    state: StateView,
    plan: Plan,
    answers: Answers,
)
    requires
        query != QueryView::IsRecording,
        query != QueryView::OptionalScene(OptionalScene::Starting),
        as_planned(
            run(lang, channel, resumed(lang, channel, state, answers(query, state)), answers),
            plan,
        ),
    ensures
        as_planned(run(lang, channel, asks(query, state), answers), plan),
{
    lemma_asks(lang, channel, query, state, answers);
    lemma_plan_step(
        Step::Asks(query),
        run(lang, channel, resumed(lang, channel, state, answers(query, state)), answers),
        plan,
    );
}

proof fn lemma_plan_said(
    lang: Seq<char>,
    channel: Seq<char>,
    phrase: PhraseView,
    turn: TurnView,
    plan: Plan,
    answers: Answers,
)
    requires
        as_planned(run(lang, channel, turn, answers), plan),
    ensures
        as_planned(
            run(lang, channel, and_then(sends(MessageView::Phrase(phrase)), turn), answers),
            plan,
        ),
{
    let effect = EffectView::Send(MessageView::Phrase(phrase));
    lemma_does(lang, channel, effect, turn, answers);
    lemma_plan_step(Step::Does(effect), run(lang, channel, turn, answers), plan);
}

/// What follows a message after a start is as planned.
proof fn lemma_message_follow(
    lang: Seq<char>,
    channel: Seq<char>,
    message: MessageView,
    plan: Plan,
    answers: Answers,
)
    requires
        answers_fit(answers),
    ensures
        as_planned(
            run(lang, channel, and_then(sends(message), after_start(plan)), answers),
            plan,
        ),
{
    let effect = EffectView::Send(message);
    let rest = run(lang, channel, after_start(plan), answers);
    let scene = QueryView::OptionalScene(OptionalScene::Starting);
    lemma_after_start_records(lang, channel, plan, answers);
    if plan.starting {
        let state = StateView::OptionalSceneRead {
            kind: OptionalScene::Starting,
            record: plan.record,
        };
        lemma_asks(lang, channel, scene, state, answers);
        assert(rest[0] == Step::Asks(scene));
    } else if plan.record {
        let asked = QueryView::IsRecording;
        let state = StateView::Recording;
        let reply = answers(asked, state);
        assert(kind_of(reply) == kind_asked(asked));
        lemma_asks(lang, channel, asked, state, answers);
        let next = resumed(lang, channel, state, reply);
        let later = run(lang, channel, next, answers);
        assert(!asked_for(later, scene)) by {
            if next.next is Ask {
                let toggle = QueryView::ToggleRecording;
                let toggled = next.next->1;
                assert(next == asks(toggle, toggled));
                lemma_asks(lang, channel, toggle, toggled, answers);
                let end = resumed(lang, channel, toggled, answers(toggle, toggled));
                assert(end.next is Done);
                assert(!asked_for(run(lang, channel, end, answers), scene));
                lemma_asked_later(Step::Asks(toggle), run(lang, channel, end, answers), scene);
            }
        }
        lemma_asked_later(Step::Asks(asked), later, scene);
    } else {
        assert(rest =~= Seq::empty());
    }
    lemma_does(lang, channel, effect, after_start(plan), answers);
    lemma_plan_step(Step::Does(effect), rest, plan);
}

proof fn lemma_attempts_follow(
    lang: Seq<char>,
    channel: Seq<char>,
    state: StateView,
    answers: Answers,
)
    requires
        answers_fit(answers),
        no_call_fails(answers),
        attempting(state),
    ensures
        as_planned(
            run(lang, channel, asks(attempt_query(channel, state), state), answers),
            attempt_of(state)->0.plan,
        ),
    decreases repeats(state),
{
    let query = attempt_query(channel, state);
    let reply = answers(query, state);
    let plan = attempt_of(state)->0.plan;
    assert(kind_of(reply) == kind_asked(query));
    let next = resumed(lang, channel, state, reply);
    match lemma_attempt_turn(lang, channel, state, reply) {
        Some(later) => {
            let follow = asks(attempt_query(channel, later), later);
            lemma_attempts_follow(lang, channel, later, answers);
            if next != follow {
                let seconds = choose|seconds: u64|
                    next == #[trigger] and_then(does(EffectView::Sleep(seconds)), follow);
                let wait = EffectView::Sleep(seconds);
                lemma_does(lang, channel, wait, follow, answers);
                lemma_plan_step(Step::Does(wait), run(lang, channel, follow, answers), plan);
            }
            assert(as_planned(run(lang, channel, next, answers), plan));
        },
        None => {
            assert(state is TranscodingChecked);
            let message = next.effects[0]->Send_0;
            assert(next == and_then(sends(message), after_start(plan)));
            lemma_message_follow(lang, channel, message, plan, answers);
        },
    }
    lemma_plan_asked(lang, channel, query, state, plan, answers);
}

/// Where the stream does not start, that is told last, and neither the starting scene nor the
/// recording is asked for.
pub proof fn law_nothing_follows_a_failed_start(
    line: Line,
    options: StreamOptions,
    called: Option<Result<(), Error>>,
    answers: Answers,
)
    requires
        failure(called) is Some,
        line.platform == ChatPlatform::Twitch && options.twitch_transcoding_check ==> 1
            <= options.twitch_transcoding_retries,
        forall|state: StateView| #[trigger]
            answers(QueryView::StreamOptions, state) == Reply::Options(options),
        forall|state: StateView| #[trigger]
            answers(QueryView::StartStreaming, state) == Reply::Called(called),
    ensures
        outcome(CommandView::Start, line, answers) == ({
            let last = seq![
                Step::Asks(QueryView::StartStreaming),
                says("start.error"@, line.lang, because(failure(called)->0)),
            ];
            if line.platform == ChatPlatform::Twitch && options.twitch_transcoding_check {
                seq![
                    Step::Asks(QueryView::StreamOptions),
                    Step::Asks(QueryView::StreamOptions),
                    says_only("startTwitchTranscoding.trying"@, line.lang),
                ] + last
            } else {
                seq![Step::Asks(QueryView::StreamOptions)] + last
            }
        }),
{
    reveal_with_fuel(run, 4);
}

/// A start or a stop that fails in any attempt is told with its reason, and ends them.
pub proof fn law_failed_attempts_are_told(
    lang: Seq<char>,
    channel: Seq<char>,
    attempt: Attempt,
    called: Option<Result<(), Error>>,
    answers: Answers,
)
    requires
        failure(called) is Some,
        forall|state: StateView| #[trigger]
            answers(QueryView::StartStreaming, state) == Reply::Called(called),
        forall|state: StateView| #[trigger]
            answers(QueryView::StopStreaming, state) == Reply::Called(called),
    ensures
        run(
            lang,
            channel,
            asks(QueryView::StartStreaming, StateView::TranscodingStarted(attempt)),
            answers,
        ) == seq![
            Step::Asks(QueryView::StartStreaming),
            says("start.error"@, lang, because(failure(called)->0)),
        ],
        run(
            lang,
            channel,
            asks(QueryView::StopStreaming, StateView::TranscodingStopped(attempt)),
            answers,
        ) == seq![
            Step::Asks(QueryView::StopStreaming),
            says("stop.error"@, lang, because(failure(called)->0)),
        ],
{
    reveal_with_fuel(run, 3);
}

/// The raid that a command stops the stream for.
pub open spec fn raid_of(command: CommandView) -> Option<RaidedInfoView> {
    match command {
        CommandView::StopOnRaid(info) => Some(info),
        _ => None,
    }
}

/// The stream is stopped once, for a raid or without one; the raided channel is named where
/// there is a raid; and the recording is toggled where the options ask for it, raid or not. A
/// stop that fails is told, and nothing follows it.
pub proof fn law_streams_stop(
    line: Line,
    command: CommandView,
    options: StreamOptions,
    called: Option<Result<(), Error>>,
    after: Aftermath,
    answers: Answers,
)
    requires
        command is Stop || command is StopOnRaid,
        forall|state: StateView| #[trigger]
            answers(QueryView::StreamOptions, state) == Reply::Options(options),
        forall|state: StateView| #[trigger]
            answers(QueryView::StopStreaming, state) == Reply::Called(called),
        answers_after(after, answers),
    ensures
        outcome(command, line, answers) == seq![
            Step::Asks(QueryView::StreamOptions),
            Step::Asks(QueryView::StopStreaming),
        ] + match failure(called) {
            Some(e) => seq![says("stop.error"@, line.lang, because(e))],
            None => seq![
                match raid_of(command) {
                    Some(info) => says(
                        "stop.raid"@,
                        line.lang,
                        seq![
                            text("channel"@, info.target),
                            text("display_channel"@, info.display),
                        ],
                    ),
                    None => says_only("stop.success"@, line.lang),
                },
            ] + if options.record_while_streaming {
                recording(line.lang, after.was_recording, after.toggled)
            } else {
                Seq::empty()
            },
        },
{
    reveal_with_fuel(run, 6);
}

/// For every raid or none, and whatever else is answered: after a stop that succeeds the
/// recording is toggled exactly where the options say so.
pub proof fn law_options_decide_what_follows_a_stop(
    line: Line,
    raid: Option<RaidedInfoView>,
    options: StreamOptions,
    answers: Answers,
)
    requires
        no_call_fails(answers),
        forall|state: StateView| #[trigger]
            answers(QueryView::StreamOptions, state) == Reply::Options(options),
    ensures
        asked_for(
            run(
                line.lang,
                line.channel,
                asks(QueryView::StreamOptions, StateView::StopOptions(raid)),
                answers,
            ),
            QueryView::IsRecording,
        ) == options.record_while_streaming,
{
    let record = options.record_while_streaming;
    let reading = StateView::StopOptions(raid);
    let stopping = StateView::Stopped { raid, record };
    let reply = answers(QueryView::StopStreaming, stopping);
    assert(succeeded(reply));
    law_recording_follows_stop(line.lang, line.channel, raid, record, answers);
    let end = resumed(line.lang, line.channel, stopping, reply);
    assert(end == stopped(line.lang, raid, record, Some(Ok(()))));
    lemma_asks(line.lang, line.channel, QueryView::StopStreaming, stopping, answers);
    lemma_asks(line.lang, line.channel, QueryView::StreamOptions, reading, answers);
    let rest = run(line.lang, line.channel, end, answers);
    lemma_asked_later(Step::Asks(QueryView::StopStreaming), rest, QueryView::IsRecording);
    lemma_asked_later(
        Step::Asks(QueryView::StreamOptions),
        seq![Step::Asks(QueryView::StopStreaming)] + rest,
        QueryView::IsRecording,
    );
}

// Settings.
/// The threshold that a command is for.
pub open spec fn threshold_of(command: CommandView) -> Option<TriggerType> {
    match command {
        CommandView::Trigger => Some(TriggerType::Low),
        CommandView::Otrigger => Some(TriggerType::Offline),
        CommandView::Rtrigger => Some(TriggerType::Rtt),
        CommandView::Ortrigger => Some(TriggerType::RttOffline),
        _ => None,
    }
}

/// A threshold in its unit: a rate in kilobits, a time in milliseconds.
pub open spec fn in_unit(kind: TriggerType, n: nat) -> Seq<char> {
    if kind == TriggerType::Low || kind == TriggerType::Offline {
        decimal(n) + " Kbps"@
    } else {
        decimal(n) + " ms"@
    }
}

proof fn lemma_in_unit(kind: TriggerType, n: nat)
    ensures
        measure(kind, n) == in_unit(kind, n),
{
    reveal_strlit(" ");
    reveal_strlit("Kbps");
    reveal_strlit(" Kbps");
    reveal_strlit("ms");
    reveal_strlit(" ms");
    assert(measure(kind, n) =~= in_unit(kind, n));
}

/// A command for a threshold moves that one and no other, to the number that its word writes,
/// and saves and tells it.
pub proof fn law_thresholds_are_moved(
    line: Line,
    command: CommandView,
    kind: TriggerType,
    n: nat,
    value: Option<u32>,
    answers: Answers,
)
    requires
        threshold_of(command) == Some(kind),
        line.params.len() > 0,
        number(line.params[0]) == Some(n),
        n <= u32::MAX,
        forall|state: StateView| #[trigger]
            answers(QueryView::UpdateTrigger(kind, n as u32), state) == Reply::MaybeNumber(value),
    ensures
        outcome(command, line, answers) == seq![
            Step::Asks(QueryView::UpdateTrigger(kind, n as u32)),
            saves(),
            match value {
                Some(v) => says(
                    "trigger.success"@,
                    line.lang,
                    seq![text("number"@, in_unit(kind, v as nat))],
                ),
                None => says(
                    "trigger.successDisabled"@,
                    line.lang,
                    seq![text("number"@, decimal(n))],
                ),
            },
        ],
{
    reveal_with_fuel(run, 4);
    if let Some(v) = value {
        lemma_in_unit(kind, v as nat);
    }
}

/// Without a word, a command for a threshold tells that one, or that it is disabled.
pub proof fn law_thresholds_are_told(
    line: Line,
    command: CommandView,
    kind: TriggerType,
    value: Option<u32>,
    answers: Answers,
)
    requires
        threshold_of(command) == Some(kind),
        line.params.len() == 0,
        forall|state: StateView| #[trigger]
            answers(QueryView::GetTrigger(kind), state) == Reply::MaybeNumber(value),
    ensures
        outcome(command, line, answers) == seq![
            Step::Asks(QueryView::GetTrigger(kind)),
            match value {
                Some(v) => says(
                    "trigger.current"@,
                    line.lang,
                    seq![text("number"@, in_unit(kind, v as nat))],
                ),
                None => says_only("trigger.disabled"@, line.lang),
            },
        ],
{
    reveal_with_fuel(run, 4);
    if let Some(v) = value {
        lemma_in_unit(kind, v as nat);
    }
}

/// A word that writes no number, or one that is too great, moves no threshold.
pub proof fn law_other_words_move_no_threshold(
    line: Line,
    command: CommandView,
    answers: Answers,
)
    requires
        threshold_of(command) is Some,
        line.params.len() > 0,
        number(line.params[0]) is None || number(line.params[0])->0 > u32::MAX,
    ensures
        outcome(command, line, answers) == seq![
            says("trigger.error"@, line.lang, seq![text("number"@, line.params[0])]),
        ],
{
    reveal_with_fuel(run, 4);
}

/// The setting that a command is for.
pub open spec fn setting_of(command: CommandView) -> Option<Toggle> {
    match command {
        CommandView::Notify => Some(Toggle::Notify),
        CommandView::Autostop => Some(Toggle::Autostop),
        CommandView::Mod => Some(Toggle::Mod),
        CommandView::Public => Some(Toggle::Public),
        _ => None,
    }
}

/// The words that a setting is on or off.
pub open spec fn told_setting(key: Seq<char>, lang: Seq<char>, on: bool) -> MessageView {
    MessageView::Nested {
        phrase: words_for(key, lang, Seq::empty()),
        slot: "condition"@,
        inner: if on {
            words_for("handleCommands.enabled"@, lang, Seq::empty())
        } else {
            words_for("handleCommands.disabled"@, lang, Seq::empty())
        },
    }
}

/// The steps that tell whether a setting is on.
pub open spec fn telling(lang: Seq<char>, setting: Toggle, on: bool) -> Seq<Step> {
    seq![
        Step::Asks(QueryView::IsOn(setting)),
        Step::Does(
            EffectView::Send(
                told_setting(
                    match setting {
                        Toggle::Notify => "handleCommands.notify"@,
                        Toggle::Autostop => "handleCommands.autostop"@,
                        Toggle::Mod => "handleCommands.mod"@,
                        Toggle::Public => "handleCommands.public"@,
                    },
                    lang,
                    on,
                ),
            ),
        ),
    ]
}

/// A command for a setting turns that one on for the word on and off for the word off, in
/// capitals or not, saves it, and then tells what it is.
pub proof fn law_settings_are_changed(
    line: Line,
    command: CommandView,
    setting: Toggle,
    wanted: bool,
    on: bool,
    answers: Answers,
)
    requires
        setting_of(command) == Some(setting),
        line.params.len() > 0,
        lowercase(line.params[0]) == if wanted {
            "on"@
        } else {
            "off"@
        },
        forall|state: StateView| #[trigger]
            answers(QueryView::IsOn(setting), state) == Reply::Flag(on),
    ensures
        outcome(command, line, answers) == seq![Step::Does(EffectView::SetToggle(setting, wanted)), saves()] + telling(
            line.lang,
            setting,
            on,
        ),
{
    reveal_with_fuel(run, 4);
    reveal_strlit("on");
    reveal_strlit("off");
    assert("on"@.len() != "off"@.len());
}

/// Without a word, or with any other word, a setting is only told.
pub proof fn law_settings_are_told(
    line: Line,
    command: CommandView,
    setting: Toggle,
    on: bool,
    answers: Answers,
)
    requires
        setting_of(command) == Some(setting),
        line.params.len() > 0 ==> lowercase(line.params[0]) != "on"@ && lowercase(
            line.params[0],
        ) != "off"@,
        forall|state: StateView| #[trigger]
            answers(QueryView::IsOn(setting), state) == Reply::Flag(on),
    ensures
        outcome(command, line, answers) == telling(line.lang, setting, on),
{
    reveal_with_fuel(run, 4);
}

/// The version is told by two commands.
pub proof fn law_the_version_is_told(
    line: Line,
    answers: Answers,
)
    requires
        line.params.len() > 0,
        line.params[0] == "version"@,
    ensures
        outcome(CommandView::Version, line, answers) == seq![
            says_plainly("Running NOALBS v"@ + line.version),
        ],
        outcome(CommandView::Noalbs, line, answers) == seq![
            says_plainly("Running NOALBS v"@ + line.version),
        ],
{
    reveal_with_fuel(run, 4);
}

/// The steps that put a message in words and send them, unless they are empty.
pub open spec fn wording(message: MessageView, words: String) -> Seq<Step> {
    seq![Step::Asks(QueryView::Translate(message))] + if words@.len() == 0 {
        Seq::empty()
    } else {
        seq![says_plainly(words@)]
    }
}

/// Whether the application puts every message in these words.
pub open spec fn worded_as(words: spec_fn(MessageView) -> String, answers: Answers) -> bool {
    forall|message: MessageView, state: StateView| #[trigger]
        answers(QueryView::Translate(message), state) == Reply::Text(words(message))
}

/// A phrase as a message.
pub open spec fn phrased(
    key: Seq<char>,
    lang: Seq<char>,
    args: Seq<(Seq<char>, ArgumentView)>,
) -> MessageView {
    MessageView::Phrase(words_for(key, lang, args))
}

proof fn lemma_subcommands()
    ensures
        "version"@ != "prefix"@,
        "version"@ != "start"@,
        "version"@ != "stop"@,
        "version"@ != "instant"@,
        "version"@ != "lang"@,
        "version"@ != "retry"@,
        "prefix"@ != "start"@,
        "prefix"@ != "stop"@,
        "prefix"@ != "instant"@,
        "prefix"@ != "lang"@,
        "prefix"@ != "retry"@,
        "start"@ != "stop"@,
        "start"@ != "instant"@,
        "start"@ != "lang"@,
        "start"@ != "retry"@,
        "stop"@ != "instant"@,
        "stop"@ != "lang"@,
        "stop"@ != "retry"@,
        "instant"@ != "lang"@,
        "instant"@ != "retry"@,
        "lang"@ != "retry"@,
{
    reveal_strlit("version");
    reveal_strlit("prefix");
    reveal_strlit("start");
    reveal_strlit("stop");
    reveal_strlit("instant");
    reveal_strlit("lang");
    reveal_strlit("retry");
    assert("version"@[0] == 'v' && "prefix"@[0] == 'p' && "instant"@[0] == 'i' && "lang"@[0] == 'l'
        && "retry"@[0] == 'r' && "start"@[0] == 's' && "stop"@[0] == 's');
    assert("start"@.len() == 5 && "stop"@.len() == 4);
}

/// A new prefix is set, saved, made known and told; without one that is told.
pub proof fn law_the_prefix_is_changed(
    line: Line,
    answers: Answers,
)
    requires
        line.params.len() > 0,
        line.params[0] == "prefix"@,
    ensures
        outcome(CommandView::Noalbs, line, answers) == if line.params.len() > 1 {
            seq![
                Step::Does(EffectView::SetPrefix(line.params[1])),
                saves(),
                Step::Does(EffectView::PrefixChanged(line.params[1])),
                says_plainly("NOALBS prefix updated to "@ + line.params[1]),
            ]
        } else {
            seq![says_plainly("Can't update NOALBS prefix"@)]
        },
{
    reveal_with_fuel(run, 4);
    lemma_subcommands();
}

/// The word start turns the switcher on, and the word stop turns it off.
pub proof fn law_the_switcher_is_turned_on_and_off(
    line: Line,
    on: bool,
    words: spec_fn(MessageView) -> String,
    answers: Answers,
)
    requires
        line.params.len() > 0,
        line.params[0] == if on {
            "start"@
        } else {
            "stop"@
        },
        worded_as(words, answers),
    ensures
        outcome(CommandView::Noalbs, line, answers) == ({
            let message = phrased(
                if on {
                    "noalbs.switcherEnabled"@
                } else {
                    "noalbs.switcherDisabled"@
                },
                line.lang,
                Seq::empty(),
            );
            seq![Step::Does(EffectView::SetSwitcher(on)), saves()] + wording(
                message,
                words(message),
            )
        }),
{
    reveal_with_fuel(run, 4);
    lemma_subcommands();
}

/// The word instant toggles instant switching, and what it is then is saved and told.
pub proof fn law_instant_switching_is_toggled(
    line: Line,
    on: bool,
    words: spec_fn(MessageView) -> String,
    answers: Answers,
)
    requires
        line.params.len() > 0,
        line.params[0] == "instant"@,
        forall|state: StateView| #[trigger]
            answers(QueryView::ToggleInstantRecover, state) == Reply::Flag(on),
        worded_as(words, answers),
    ensures
        outcome(CommandView::Noalbs, line, answers) == ({
            let message = told_setting("noalbs.instantSwitch"@, line.lang, on);
            seq![Step::Asks(QueryView::ToggleInstantRecover), saves()] + wording(
                message,
                words(message),
            )
        }),
{
    reveal_with_fuel(run, 4);
    lemma_subcommands();
}

/// A language of the chat is set and saved, and that is told in the new language; another word
/// changes nothing, and that is told in the old one.
pub proof fn law_the_language_is_changed(
    line: Line,
    valid: bool,
    words: spec_fn(MessageView) -> String,
    answers: Answers,
)
    requires
        line.params.len() > 1,
        line.params[0] == "lang"@,
        forall|state: StateView| #[trigger]
            answers(QueryView::ParseLanguage(line.params[1]), state) == Reply::Flag(valid),
        worded_as(words, answers),
    ensures
        outcome(CommandView::Noalbs, line, answers) == ({
            let name = line.params[1];
            let changed = phrased(
                "noalbs.langSuccess"@,
                lowercase(name),
                seq![text("lang"@, name)],
            );
            let refused = phrased(
                "noalbs.langErrorInvalid"@,
                line.lang,
                seq![text("lang"@, name)],
            );
            seq![Step::Asks(QueryView::ParseLanguage(name))] + if valid {
                seq![Step::Does(EffectView::SetChatLanguage(name)), saves()] + wording(
                    changed,
                    words(changed),
                )
            } else {
                wording(refused, words(refused))
            }
        }),
{
    reveal_with_fuel(run, 4);
    lemma_subcommands();
}

/// Without a name no language is set.
pub proof fn law_a_language_has_to_be_named(
    line: Line,
    words: spec_fn(MessageView) -> String,
    answers: Answers,
)
    requires
        line.params.len() == 1,
        line.params[0] == "lang"@,
        worded_as(words, answers),
    ensures
        outcome(CommandView::Noalbs, line, answers) == ({
            let message = phrased("noalbs.langError"@, line.lang, Seq::empty());
            wording(message, words(message))
        }),
{
    reveal_with_fuel(run, 4);
    lemma_subcommands();
}

/// The number of retries is set to the number that a word writes, where it is below 256, saved
/// and told; any other word changes nothing.
pub proof fn law_retries_are_changed(
    line: Line,
    words: spec_fn(MessageView) -> String,
    answers: Answers,
)
    requires
        line.params.len() > 1,
        line.params[0] == "retry"@,
        worded_as(words, answers),
    ensures
        outcome(CommandView::Noalbs, line, answers) == ({
            let word = line.params[1];
            let refused = phrased("noalbs.retryError"@, line.lang, seq![text("count"@, word)]);
            match number(word) {
                Some(n) if n < 256 => {
                    let changed = phrased(
                        "noalbs.retrySuccess"@,
                        line.lang,
                        seq![text("count"@, decimal(n))],
                    );
                    seq![Step::Does(EffectView::SetRetryAttempts(n as u8)), saves()] + wording(
                        changed,
                        words(changed),
                    )
                },
                _ => wording(refused, words(refused)),
            }
        }),
{
    reveal_with_fuel(run, 4);
    lemma_subcommands();
}

/// Without a word the number of retries is told.
pub proof fn law_retries_are_told(
    line: Line,
    retries: u8,
    words: spec_fn(MessageView) -> String,
    answers: Answers,
)
    requires
        line.params.len() == 1,
        line.params[0] == "retry"@,
        forall|state: StateView| #[trigger]
            answers(QueryView::GetRetryAttempts, state) == Reply::Number(retries),
        worded_as(words, answers),
    ensures
        outcome(CommandView::Noalbs, line, answers) == ({
            let message = phrased(
                "noalbs.retryCount"@,
                line.lang,
                seq![text("count"@, decimal(retries as nat))],
            );
            seq![Step::Asks(QueryView::GetRetryAttempts)] + wording(message, words(message))
        }),
{
    reveal_with_fuel(run, 4);
    lemma_subcommands();
}

/// The command for the helper itself does nothing for any other word, or without one.
pub proof fn law_other_subcommands_do_nothing(
    line: Line,
    answers: Answers,
)
    requires
        line.params.len() > 0 ==> !seq![
            "version"@,
            "prefix"@,
            "start"@,
            "stop"@,
            "instant"@,
            "lang"@,
            "retry"@,
        ].contains(line.params[0]),
    ensures
        outcome(CommandView::Noalbs, line, answers) == Seq::<Step>::empty(),
{
    reveal_with_fuel(run, 4);
    if line.params.len() > 0 {
        let word = line.params[0];
        let known = seq![
            "version"@,
            "prefix"@,
            "start"@,
            "stop"@,
            "instant"@,
            "lang"@,
            "retry"@,
        ];
        assert(known[0] != word && known[1] != word && known[2] != word && known[3] != word
            && known[4] != word && known[5] != word && known[6] != word);
    }
}

/// A command that is not known does nothing and says nothing.
pub proof fn law_unknown_commands_come_to_nothing(
    line: Line,
    word: Seq<char>,
    answers: Answers,
)
    ensures
        outcome(CommandView::Unknown(word), line, answers) == Seq::<Step>::empty(),
{
    reveal_with_fuel(run, 4);
}

// Collections.
/// A remark on collections: it is in the language that is current in the process, and has
/// the language of the chat as an argument.
pub open spec fn remarks(key: Seq<char>, lang: Seq<char>) -> Step {
    Step::Does(
        EffectView::Send(
            MessageView::Phrase(
                PhraseView { key, locale: None, args: seq![text("locale"@, lang)] },
            ),
        ),
    )
}

/// The collection that is asked for, in lower case, is changed to where it is configured under
/// that very name; what became of it is told, and a running stream is worth a remark.
pub proof fn law_collections_are_changed(
    line: Line,
    names: Option<Vec<String>>,
    outcome_of: Option<Result<bool, Error>>,
    answers: Answers,
)
    requires
        line.params.len() > 0,
        forall|state: StateView| #[trigger]
            answers(QueryView::Collections, state) == Reply::Collections(names),
        forall|state: StateView| #[trigger]
            answers(QueryView::SetCollection(lowercase(line.params[0])), state) == Reply::CollectionSet(outcome_of),
    ensures
        outcome(CommandView::Collection, line, answers) == ({
            let name = lowercase(line.params[0]);
            let args = seq![text("collection"@, name)];
            seq![Step::Asks(QueryView::Collections)] + if names is None {
                seq![says("collection.error"@, line.lang, args)]
            } else if !(exists|i: int|
                0 <= i < names->0@.len() && (#[trigger] names->0@[i])@ == name) {
                seq![says("collection.notFound"@, line.lang, args)]
            } else {
                seq![Step::Asks(QueryView::SetCollection(name))] + match outcome_of {
                    None => Seq::empty(),
                    Some(Err(_)) => seq![says("collection.error"@, line.lang, args)],
                    Some(Ok(false)) => seq![says("collection.success"@, line.lang, args)],
                    Some(Ok(true)) => seq![
                        says("collection.success"@, line.lang, args),
                        remarks("collection.note"@, line.lang),
                    ],
                }
            }
        }),
{
    reveal_with_fuel(run, 4);
    if let Some(v) = names {
        let name = lowercase(line.params[0]);
        if texts(v@).contains(name) {
            let i = choose|i: int| 0 <= i < texts(v@).len() && texts(v@)[i] == name;
            assert(v@[i]@ == name);
        }
        if exists|i: int| 0 <= i < v@.len() && (#[trigger] v@[i])@ == name {
            let i = choose|i: int| 0 <= i < v@.len() && (#[trigger] v@[i])@ == name;
            assert(texts(v@)[i] == name);
        }
    }
}

/// Without a name no collection is changed to.
pub proof fn law_a_collection_has_to_be_named(
    line: Line,
    answers: Answers,
)
    requires
        line.params.len() == 0,
    ensures
        outcome(CommandView::Collection, line, answers) == seq![remarks("collection.noParams"@, line.lang)],
{
    reveal_with_fuel(run, 4);
}

// Servers and the software.
/// The server that is named is asked for its source, the first one of that name; what it tells
/// is told under its name, or that it tells nothing.
pub proof fn law_a_source_is_told(
    line: Line,
    servers: Vec<StreamServer>,
    at: nat,
    told: Option<String>,
    words: spec_fn(MessageView) -> String,
    answers: Answers,
)
    requires
        line.params.len() > 0,
        at < servers@.len(),
        servers@[at as int].name@ == line.params[0],
        forall|i: int| 0 <= i < at ==> (#[trigger] servers@[i]).name@ != line.params[0],
        forall|state: StateView| #[trigger]
            answers(QueryView::Servers, state) == Reply::Servers(servers),
        forall|state: StateView| #[trigger]
            answers(QueryView::SourceInfo(at), state) == Reply::MaybeText(told),
        worded_as(words, answers),
    ensures
        outcome(CommandView::Sourceinfo, line, answers) == ({
            let silence = phrased("sourceinfo.noInfo"@, line.lang, Seq::empty());
            seq![Step::Asks(QueryView::Servers), Step::Asks(QueryView::SourceInfo(at))]
                + match told {
                Some(info) => seq![says_plainly(line.params[0] + ": "@ + info@)],
                None => seq![
                    Step::Asks(QueryView::Translate(silence)),
                    says_plainly(line.params[0] + ": "@ + words(silence)@),
                ],
            }
        }),
{
    reveal_with_fuel(run, 5);
    let view = servers_view(servers@);
    assert forall|i: int| 0 <= i < at implies (#[trigger] view[i]).name != line.params[0] by {
        assert(servers@[i].name@ != line.params[0]);
    }
    lemma_place_of(view, line.params[0], at as int);
}

/// A server of an unknown name is told to tell nothing.
pub proof fn law_unknown_servers_are_told(
    line: Line,
    servers: Vec<StreamServer>,
    answers: Answers,
)
    requires
        line.params.len() > 0,
        forall|i: int|
            0 <= i < servers@.len() ==> (#[trigger] servers@[i]).name@ != line.params[0],
        forall|state: StateView| #[trigger]
            answers(QueryView::Servers, state) == Reply::Servers(servers),
    ensures
        outcome(CommandView::Sourceinfo, line, answers) == seq![
            Step::Asks(QueryView::Servers),
            says("sourceinfo.noInfo"@, line.lang, seq![text("name"@, line.params[0])]),
        ],
{
    reveal_with_fuel(run, 4);
    let names = names_of(servers_view(servers@));
    if names.contains(line.params[0]) {
        let i = choose|i: int| 0 <= i < names.len() && names[i] == line.params[0];
        assert(servers@[i].name@ == line.params[0]);
    }
}

/// What the servers before `count` tell of their sources, each under its name.
pub open spec fn sources(
    servers: Seq<StreamServer>,
    told: spec_fn(nat) -> Option<String>,
    count: nat,
) -> Seq<Seq<char>>
    decreases count,
{
    if count == 0 {
        Seq::empty()
    } else {
        let before = sources(servers, told, (count - 1) as nat);
        match told((count - 1) as nat) {
            Some(info) => before.push(servers[count - 1].name@ + ": "@ + info@),
            None => before,
        }
    }
}

proof fn lemma_sources_told(
    servers: Seq<StreamServer>,
    told: spec_fn(nat) -> Option<String>,
    count: nat,
)
    requires
        count <= servers.len(),
    ensures
        told_sources(names_of(servers_view(servers)), told, count) == sources(servers, told, count),
    decreases count,
{
    if count > 0 {
        lemma_sources_told(servers, told, (count - 1) as nat);
    }
}

/// Without a name all servers are asked for their sources, one after the other, and what those
/// that answer tell is told in one line.
pub proof fn law_all_sources_are_listed(
    line: Line,
    servers: Vec<StreamServer>,
    told: spec_fn(nat) -> Option<String>,
    answers: Answers,
)
    requires
        line.params.len() == 0,
        forall|state: StateView| #[trigger]
            answers(QueryView::Servers, state) == Reply::Servers(servers),
        forall|i: nat, state: StateView| #[trigger]
            answers(QueryView::SourceInfo(i), state) == Reply::MaybeText(told(i)),
    ensures
        outcome(CommandView::Sourceinfo, line, answers) == ({
            let parts = sources(servers@, told, servers@.len());
            seq![Step::Asks(QueryView::Servers)] + (Seq::new(
                servers@.len(),
                |i: int| Step::Asks(QueryView::SourceInfo(i as nat)),
            ) + seq![
                if parts.len() == 0 {
                    says_only("sourceinfo.noInfo"@, line.lang)
                } else {
                    says_plainly(joined(parts, " - "@))
                },
            ])
        }),
{
    law_all_sources_told(line.lang, line.channel, servers, told, answers);
    lemma_sources_told(servers@, told, servers@.len());
    assert(sources_asked(0, servers@.len()) =~= Seq::new(
        servers@.len(),
        |i: int| Step::Asks(QueryView::SourceInfo(i as nat)),
    ));
}

/// The words for the bitrate of a server, in the language that is current in the process.
pub open spec fn bitrate_news(name: Seq<char>, info: Seq<char>) -> MessageView {
    MessageView::Phrase(
        PhraseView {
            key: "bitrate.success"@,
            locale: None,
            args: seq![text("name"@, name), text("message"@, info)],
        },
    )
}

/// The steps that ask the enabled servers from `index` on for their bitrates, and put what
/// they tell in words.
pub open spec fn asking_bitrates(
    servers: Seq<StreamServer>,
    told: spec_fn(nat) -> Option<String>,
    index: nat,
) -> Seq<Step>
    decreases servers.len() - index,
{
    if index >= servers.len() {
        Seq::empty()
    } else {
        (if !servers[index as int].enabled {
            Seq::empty()
        } else {
            seq![Step::Asks(QueryView::ServerBitrate(index))] + match told(index) {
                Some(info) => seq![
                    Step::Asks(
                        QueryView::Translate(
                            bitrate_news(servers[index as int].name@, info@),
                        ),
                    ),
                ],
                None => Seq::empty(),
            }
        }) + asking_bitrates(servers, told, index + 1)
    }
}

proof fn lemma_asking_bitrates(
    servers: Seq<StreamServer>,
    told: spec_fn(nat) -> Option<String>,
    index: nat,
)
    ensures
        bitrates_asked(servers_view(servers), told, index) == asking_bitrates(servers, told, index),
    decreases servers.len() - index,
{
    if index < servers.len() {
        lemma_asking_bitrates(servers, told, index + 1);
        assert(bitrates_asked(servers_view(servers), told, index) =~= asking_bitrates(
            servers,
            told,
            index,
        ));
    }
}

/// What the enabled servers before `count` tell of their bitrates, in words: each behind
/// those before it, with a separator where these are not empty.
pub open spec fn bitrate_words(
    servers: Seq<StreamServer>,
    told: spec_fn(nat) -> Option<String>,
    words: spec_fn(MessageView) -> String,
    count: nat,
) -> Seq<char>
    decreases count,
{
    if count == 0 {
        Seq::empty()
    } else {
        let before = bitrate_words(servers, told, words, (count - 1) as nat);
        let server = servers[count - 1];
        match told((count - 1) as nat) {
            Some(info) if server.enabled => {
                let news = words(bitrate_news(server.name@, info@))@;
                if before.len() == 0 {
                    news
                } else {
                    before + " - "@ + news
                }
            },
            _ => before,
        }
    }
}

proof fn lemma_bitrate_words(
    servers: Seq<StreamServer>,
    told: spec_fn(nat) -> Option<String>,
    words: spec_fn(MessageView) -> String,
    count: nat,
)
    requires
        count <= servers.len(),
    ensures
        appended(told_bitrates(servers_view(servers), told, words, count)) == bitrate_words(
            servers,
            told,
            words,
            count,
        ),
    decreases count,
{
    if count > 0 {
        let view = servers_view(servers);
        lemma_bitrate_words(servers, told, words, (count - 1) as nat);
        let before = told_bitrates(view, told, words, (count - 1) as nat);
        let all = told_bitrates(view, told, words, count);
        if let Some(info) = told((count - 1) as nat) {
            if servers[count - 1].enabled {
                assert(all.drop_last() =~= before);
            }
        }
    }
}

/// The steps that tell the bitrates, or that there are none, behind what may stand before.
pub open spec fn telling_bitrates(
    lang: Seq<char>,
    before: Seq<char>,
    servers: Seq<StreamServer>,
    told: spec_fn(nat) -> Option<String>,
    words: spec_fn(MessageView) -> String,
) -> Seq<Step> {
    let bitrates = bitrate_words(servers, told, words, servers.len());
    let silence = phrased("bitrate.error"@, lang, Seq::empty());
    seq![Step::Asks(QueryView::Servers)] + (asking_bitrates(servers, told, 0)
        + if bitrates.len() == 0 {
        seq![
            Step::Asks(QueryView::Translate(silence)),
            says_plainly(before + words(silence)@),
        ]
    } else {
        seq![says_plainly(before + bitrates)]
    })
}

/// The enabled servers are asked for their bitrates, one after the other, and what those that
/// answer tell is told in one line; or that none does.
pub proof fn law_bitrates_are_told(
    line: Line,
    servers: Vec<StreamServer>,
    told: spec_fn(nat) -> Option<String>,
    words: spec_fn(MessageView) -> String,
    answers: Answers,
)
    requires
        forall|state: StateView| #[trigger]
            answers(QueryView::Servers, state) == Reply::Servers(servers),
        bitrate_answers(told, words, answers),
    ensures
        outcome(CommandView::Bitrate, line, answers) == telling_bitrates(
            line.lang,
            Seq::empty(),
            servers@,
            told,
            words,
        ),
{
    law_all_bitrates_told(line.lang, line.channel, servers, None, told, words, answers);
    lemma_asking_bitrates(servers@, told, 0);
    lemma_bitrate_words(servers@, told, words, servers@.len());
    let silence = phrased("bitrate.error"@, line.lang, Seq::empty());
    let bitrates = bitrate_words(servers@, told, words, servers@.len());
    assert(Seq::<char>::empty() + words(silence)@ =~= words(silence)@);
    assert(Seq::<char>::empty() + bitrates =~= bitrates);
    assert(outcome(CommandView::Bitrate, line, answers) =~= telling_bitrates(
        line.lang,
        Seq::empty(),
        servers@,
        told,
        words,
    ));
}

/// A change of the scene is put in words and told; where the stream is live, the bitrates
/// stand behind it in the same line.
pub proof fn law_changes_of_the_scene_are_told(
    handler: &ChatHandler,
    change: &AutomaticSwitchingScene,
    lang: &str,
    turn: Option<Turn>,
    servers: Vec<StreamServer>,
    told: spec_fn(nat) -> Option<String>,
    words: spec_fn(MessageView) -> String,
    answers: Answers,
)
    requires
        call_ensures(
            ChatHandler::handle_automatic_switching_message,
            (handler, change, Some(lang)),
            turn,
        ),
        handler.senders().contains(change.platform),
        forall|state: StateView| #[trigger]
            answers(QueryView::Servers, state) == Reply::Servers(servers),
        bitrate_answers(told, words, answers),
    ensures
        turn is Some,
        ({
            let news = phrased(
                "sceneSwitch.switch"@,
                lang@,
                seq![text("scene"@, change.scene@)],
            );
            run(lang@, change.channel@, turn->0@, answers) == seq![
                Step::Asks(QueryView::Translate(news)),
            ] + if change.switch_type == SwitchType::Normal || change.switch_type
                == SwitchType::Low {
                telling_bitrates(lang@, words(news)@ + " | "@, servers@, told, words)
            } else {
                seq![says_plainly(words(news)@)]
            }
        }),
{
    let kind = change.switch_type;
    let channel = change.channel@;
    let news = phrased("sceneSwitch.switch"@, lang@, seq![text("scene"@, change.scene@)]);
    law_switches_told(lang@, channel, change.scene@, kind, servers, told, words, answers);
    lemma_asking_bitrates(servers@, told, 0);
    lemma_bitrate_words(servers@, told, words, servers@.len());
    let before = words(news)@ + " | "@;
    let live = telling_bitrates(lang@, before, servers@, told, words);
    assert(run(lang@, channel, turn->0@, answers) =~= seq![
        Step::Asks(QueryView::Translate(news)),
    ] + if kind == SwitchType::Normal || kind == SwitchType::Low {
        live
    } else {
        seq![says_plainly(words(news)@)]
    });
}

/// A number of frames with its share in percent.
pub open spec fn frames_told(count: u64, share: String) -> Seq<char> {
    decimal(count as nat) + " ("@ + share@ + "%)"@
}

/// What the software tells of itself is told: the dropped frames as a share of all, the missed
/// ones as a share of those rendered, the skipped ones as a share of those put out.
pub proof fn law_the_software_is_told(
    line: Line,
    stats: SoftwareStats,
    share: spec_fn(u64, u64) -> String,
    answers: Answers,
)
    requires
        forall|state: StateView| #[trigger]
            answers(QueryView::HasStreamStatus, state) == Reply::Flag(true),
        forall|state: StateView| #[trigger]
            answers(QueryView::SoftwareStats, state) == Reply::Stats(Some(Ok(stats))),
        forall|part: u64, whole: u64, state: StateView| #[trigger]
            answers(QueryView::Share { part, whole }, state) == Reply::Text(share(part, whole)),
    ensures
        outcome(CommandView::ServerInfo, line, answers) == ({
            let dropped = stats.num_dropped_frames;
            let missed = stats.render_missed_frames;
            let skipped = stats.output_skipped_frames;
            let all = stats.num_total_frames;
            let rendered = stats.render_total_frames;
            let put_out = stats.output_total_frames;
            seq![
                Step::Asks(QueryView::HasStreamStatus),
                Step::Asks(QueryView::SoftwareStats),
                Step::Asks(QueryView::Share { part: dropped, whole: all }),
                Step::Asks(QueryView::Share { part: missed, whole: rendered }),
                Step::Asks(QueryView::Share { part: skipped, whole: put_out }),
                says(
                    "serverinfo.success"@,
                    line.lang,
                    seq![
                        text("fps"@, stats.fps@),
                        text("bitrate"@, stats.bitrate@),
                        text("network"@, frames_told(dropped, share(dropped, all))),
                        text("rendering"@, frames_told(missed, share(missed, rendered))),
                        text("encoding"@, frames_told(skipped, share(skipped, put_out))),
                        text("scene"@, stats.scene@),
                    ],
                ),
            ]
        }),
{
    law_shares_are_of_their_totals(line.lang, line.channel, stats, share, answers);
}

/// Software that has not reported the state of the stream is not asked, and software that fails
/// tells nothing; without a connection nothing is said.
pub proof fn law_silent_software_is_told(
    line: Line,
    known: bool,
    stats: Option<Result<SoftwareStats, Error>>,
    answers: Answers,
)
    requires
        known ==> !(stats is Some && stats->0 is Ok),
        forall|state: StateView| #[trigger]
            answers(QueryView::HasStreamStatus, state) == Reply::Flag(known),
        forall|state: StateView| #[trigger]
            answers(QueryView::SoftwareStats, state) == Reply::Stats(stats),
    ensures
        outcome(CommandView::ServerInfo, line, answers) == seq![Step::Asks(QueryView::HasStreamStatus)] + if !known {
            seq![says_only("serverinfo.noInfo"@, line.lang)]
        } else {
            seq![Step::Asks(QueryView::SoftwareStats)] + if stats is None {
                Seq::empty()
            } else {
                seq![says_only("serverinfo.noInfo"@, line.lang)]
            }
        },
{
    reveal_with_fuel(run, 4);
}

} // verus!

//! Starting and stopping the stream and the recording.
use vstd::prelude::*;

use crate::command::{OptionalScene, RaidedInfo, RaidedInfoView};
use crate::error::{Error, ErrorView};
use crate::message::{ChatPlatform, DispatchCommand};
use crate::phrase::{
    phrase, phrase0, said, said1, said2, say, say1, say1_text, say2_text, Argument, ArgumentView,
    Message, MessageView,
};
use crate::text::{decimal, decimal_text};
use crate::turn::{
    and_then, asks, does, done, maybe_raid, sends, Attempt, Effect, EffectView, Plan, Query,
    QueryView, State, StateView, StreamOptions, Turn, TurnView,
};

verus! {

/// How a call of the broadcasting software failed, if it did. Without a
/// connection it fails with `missing`.
pub open spec fn call_error(
    outcome: Option<Result<(), Error>>,
    missing: ErrorView,
) -> Option<ErrorView> {
    match outcome {
        None => Some(missing),
        Some(Ok(_)) => None,
        Some(Err(e)) => Some(e@),
    }
}

/// What is known of a call of the software: its own outcome, or that there is no
/// connection.
pub fn start_bsc(outcome: Option<Result<(), Error>>) -> (r: Result<(), Error>)
    ensures
        match r {
            Ok(_) => call_error(outcome, ErrorView::UnableInitialConnection) is None,
            Err(e) => call_error(outcome, ErrorView::UnableInitialConnection) == Some(e@),
        },
{
    match outcome {
        Some(result) => result,
        None => Err(Error::UnableInitialConnection),
    }
}

/// The same of the call that stops the stream.
pub fn stop_bsc(outcome: Option<Result<(), Error>>) -> (r: Result<(), Error>)
    ensures
        match r {
            Ok(_) => call_error(outcome, ErrorView::UnableInitialConnection) is None,
            Err(e) => call_error(outcome, ErrorView::UnableInitialConnection) == Some(e@),
        },
{
    match outcome {
        Some(result) => result,
        None => Err(Error::UnableInitialConnection),
    }
}

// Recording.
/// The recording is toggled: first it is asked whether there is one.
pub open spec fn record_begins() -> TurnView {
    asks(QueryView::IsRecording, StateView::Recording)
}

/// The recording is toggled, or not.
pub open spec fn record_if(record: bool) -> TurnView {
    if record {
        record_begins()
    } else {
        done()
    }
}

/// Makes the turn [`record_if`].
pub fn record_when(record: bool) -> (r: Turn)
    ensures
        r@ == record_if(record),
{
    if record {
        Turn::asks(Query::IsRecording, State::Recording)
    } else {
        Turn::done()
    }
}

/// How it goes on once it is known whether the software records.
pub open spec fn recording_known(
    lang: Seq<char>,
    recording: Option<Result<bool, Error>>,
) -> TurnView {
    match recording {
        None => done(),
        Some(Err(_)) => sends(said("rec.errorStatus"@, lang)),
        Some(Ok(was)) => asks(QueryView::ToggleRecording, StateView::RecordingToggled(was)),
    }
}

/// Makes the turn [`recording_known`].
pub fn on_recording(lang: &str, recording: Option<Result<bool, Error>>) -> (r: Turn)
    ensures
        r@ == recording_known(lang@, recording),
{
    match recording {
        None => Turn::done(),
        Some(Err(_)) => Turn::sends(say("rec.errorStatus", lang)),
        Some(Ok(was)) => Turn::asks(Query::ToggleRecording, State::RecordingToggled(was)),
    }
}

/// How it goes on once the recording was toggled, or was not.
pub open spec fn recording_toggled(
    lang: Seq<char>,
    was_recording: bool,
    outcome: Option<Result<(), Error>>,
) -> TurnView {
    sends(
        said(
            if outcome is None || outcome->0 is Err {
                "rec.errorToggle"@
            } else if was_recording {
                "rec.stopped"@
            } else {
                "rec.started"@
            },
            lang,
        ),
    )
}

/// Makes the turn [`recording_toggled`].
pub fn on_recording_toggled(
    lang: &str,
    was_recording: bool,
    outcome: Option<Result<(), Error>>,
) -> (r: Turn)
    ensures
        r@ == recording_toggled(lang@, was_recording, outcome),
{
    match outcome {
        Some(Ok(_)) => if was_recording {
            Turn::sends(say("rec.stopped", lang))
        } else {
            Turn::sends(say("rec.started", lang))
        },
        _ => Turn::sends(say("rec.errorToggle", lang)),
    }
}

// Starting.
/// What follows a start that succeeded.
pub open spec fn after_start(plan: Plan) -> TurnView {
    if plan.starting {
        asks(
            QueryView::OptionalScene(OptionalScene::Starting),
            StateView::OptionalSceneRead { kind: OptionalScene::Starting, record: plan.record },
        )
    } else {
        record_if(plan.record)
    }
}

/// Makes the turn [`after_start`].
pub fn go_on_after_start(plan: Plan) -> (r: Turn)
    ensures
        r@ == after_start(plan),
{
    if plan.starting {
        Turn::asks(
            Query::OptionalScene(OptionalScene::Starting),
            State::OptionalSceneRead { kind: OptionalScene::Starting, record: plan.record },
        )
    } else {
        record_when(plan.record)
    }
}

/// What the options say is to follow a start.
pub open spec fn plan_of(options: StreamOptions) -> Plan {
    Plan {
        starting: options.switch_to_starting_scene_on_stream_start,
        record: options.record_while_streaming,
    }
}

/// How a start goes on once the options are known: with transcoding where the
/// chat is on Twitch and the options ask for it.
pub open spec fn start_options_known(twitch: bool, options: StreamOptions) -> TurnView {
    if twitch && options.twitch_transcoding_check {
        asks(QueryView::StreamOptions, StateView::TranscodingOptions(plan_of(options)))
    } else {
        asks(QueryView::StartStreaming, StateView::Started(plan_of(options)))
    }
}

/// Makes the turn [`start_options_known`].
pub fn on_start_options(twitch: bool, options: StreamOptions) -> (r: Turn)
    ensures
        r@ == start_options_known(twitch, options),
{
    let plan = Plan {
        starting: options.switch_to_starting_scene_on_stream_start,
        record: options.record_while_streaming,
    };
    if twitch && options.twitch_transcoding_check {
        Turn::asks(Query::StreamOptions, State::TranscodingOptions(plan))
    } else {
        Turn::asks(Query::StartStreaming, State::Started(plan))
    }
}

/// The message that a start or a stop failed.
pub open spec fn said_error(key: Seq<char>, lang: Seq<char>, error: ErrorView) -> MessageView {
    said1(key, lang, "error"@, ArgumentView::Error(error))
}

/// How it goes on once the stream started, or did not.
pub open spec fn started(
    lang: Seq<char>,
    plan: Plan,
    outcome: Option<Result<(), Error>>,
) -> TurnView {
    match call_error(outcome, ErrorView::UnableInitialConnection) {
        None => and_then(sends(said("start.success"@, lang)), after_start(plan)),
        Some(e) => sends(said_error("start.error"@, lang, e)),
    }
}

/// Makes the turn [`started`].
pub fn on_started(lang: &str, plan: Plan, outcome: Option<Result<(), Error>>) -> (r: Turn)
    ensures
        r@ == started(lang@, plan, outcome),
{
    match start_bsc(outcome) {
        Ok(_) => Turn::sends(say("start.success", lang)).and_then(go_on_after_start(plan)),
        Err(e) => Turn::sends(say1("start.error", lang, "error", Argument::Error(e))),
    }
}

// Starting with transcoding.
/// The message that the stream started with transcoding, after how many attempts.
pub open spec fn said_transcoding(lang: Seq<char>, attempts: nat) -> MessageView {
    if attempts > 1 {
        MessageView::Nested {
            phrase: phrase("startTwitchTranscoding.success"@, lang, Seq::empty()),
            slot: "attemptsMessage"@,
            inner: phrase(
                "startTwitchTranscoding.attempts"@,
                lang,
                seq![("count"@, ArgumentView::Text(decimal(attempts)))],
            ),
        }
    } else {
        said1(
            "startTwitchTranscoding.success"@,
            lang,
            "attemptsMessage"@,
            ArgumentView::Text(Seq::empty()),
        )
    }
}

/// The stream runs, after `attempts` attempts.
pub open spec fn transcoding_ends(lang: Seq<char>, attempts: nat, plan: Plan) -> TurnView {
    and_then(sends(said_transcoding(lang, attempts)), after_start(plan))
}

/// Makes the turn [`transcoding_ends`].
pub fn end_transcoding(lang: &str, attempts: u64, plan: Plan) -> (r: Turn)
    ensures
        r@ == transcoding_ends(lang@, attempts as nat, plan),
{
    let message = if attempts > 1 {
        let count = decimal_text(attempts);
        let inner = phrase0("startTwitchTranscoding.attempts", lang).with_text(
            "count",
            count.as_str(),
        );
        assert(inner@.args =~= seq![("count"@, ArgumentView::Text(decimal(attempts as nat)))]);
        Message::Nested {
            phrase: phrase0("startTwitchTranscoding.success", lang),
            slot: "attemptsMessage".to_owned(),
            inner,
        }
    } else {
        let nothing = String::new();
        say1_text("startTwitchTranscoding.success", lang, "attemptsMessage", nothing.as_str())
    };
    Turn::sends(message).and_then(go_on_after_start(plan))
}

/// Another attempt after `made` of them, while there may be one.
pub open spec fn attempt_begins(
    lang: Seq<char>,
    made: u64,
    retry: u64,
    delay: u64,
    plan: Plan,
) -> TurnView {
    if made < retry {
        asks(
            QueryView::StartStreaming,
            StateView::TranscodingStarted(
                Attempt { number: (made + 1) as u64, retry, delay, plan },
            ),
        )
    } else {
        transcoding_ends(lang, 0, plan)
    }
}

/// Makes the turn [`attempt_begins`].
pub fn begin_attempt(lang: &str, made: u64, retry: u64, delay: u64, plan: Plan) -> (r: Turn)
    ensures
        r@ == attempt_begins(lang@, made, retry, delay, plan),
{
    if made < retry {
        Turn::asks(
            Query::StartStreaming,
            State::TranscodingStarted(Attempt { number: made + 1, retry, delay, plan }),
        )
    } else {
        end_transcoding(lang, 0, plan)
    }
}

/// How it goes on once the options of transcoding are known.
pub open spec fn transcoding_options_known(
    lang: Seq<char>,
    plan: Plan,
    options: StreamOptions,
) -> TurnView {
    and_then(
        sends(said("startTwitchTranscoding.trying"@, lang)),
        attempt_begins(
            lang,
            0,
            options.twitch_transcoding_retries,
            options.twitch_transcoding_delay_seconds,
            plan,
        ),
    )
}

/// Makes the turn [`transcoding_options_known`].
pub fn start_twitch_transcoding(lang: &str, plan: Plan, options: StreamOptions) -> (r: Turn)
    ensures
        r@ == transcoding_options_known(lang@, plan, options),
{
    Turn::sends(say("startTwitchTranscoding.trying", lang)).and_then(
        begin_attempt(
            lang,
            0,
            options.twitch_transcoding_retries,
            options.twitch_transcoding_delay_seconds,
            plan,
        ),
    )
}

/// How an attempt goes on once the stream started, or did not: some time later it
/// is asked whether there is transcoding.
pub open spec fn transcoding_started(
    lang: Seq<char>,
    channel: Seq<char>,
    attempt: Attempt,
    outcome: Option<Result<(), Error>>,
) -> TurnView {
    match call_error(outcome, ErrorView::UnableInitialConnection) {
        None => and_then(
            does(EffectView::Sleep(attempt.delay)),
            asks(QueryView::CheckTranscoding(channel), StateView::TranscodingChecked(attempt)),
        ),
        Some(e) => sends(said_error("start.error"@, lang, e)),
    }
}

/// Makes the turn [`transcoding_started`].
pub fn on_transcoding_started(
    lang: &str,
    channel: &str,
    attempt: Attempt,
    outcome: Option<Result<(), Error>>,
) -> (r: Turn)
    ensures
        r@ == transcoding_started(lang@, channel@, attempt, outcome),
{
    match start_bsc(outcome) {
        Ok(_) => Turn::does(Effect::Sleep(attempt.delay)).and_then(
            Turn::asks(
                Query::CheckTranscoding(channel.to_owned()),
                State::TranscodingChecked(attempt),
            ),
        ),
        Err(e) => Turn::sends(say1("start.error", lang, "error", Argument::Error(e))),
    }
}

/// How an attempt goes on once it is known whether there is transcoding: the
/// stream keeps running where there is, or where this was the last attempt; else
/// it is stopped.
pub open spec fn transcoding_checked(
    lang: Seq<char>,
    attempt: Attempt,
    found: Result<bool, Error>,
) -> TurnView {
    if found is Ok && found->Ok_0 {
        transcoding_ends(lang, attempt.number as nat, attempt.plan)
    } else if attempt.number >= attempt.retry {
        and_then(
            sends(said("startTwitchTranscoding.successNoTranscoding"@, lang)),
            after_start(attempt.plan),
        )
    } else {
        asks(QueryView::StopStreaming, StateView::TranscodingStopped(attempt))
    }
}

/// Makes the turn [`transcoding_checked`].
pub fn on_transcoding_checked(lang: &str, attempt: Attempt, found: Result<bool, Error>) -> (r: Turn)
    ensures
        r@ == transcoding_checked(lang@, attempt, found),
{
    let transcoding = match found {
        Ok(b) => b,
        Err(_) => false,
    };
    if transcoding {
        end_transcoding(lang, attempt.number, attempt.plan)
    } else if attempt.number >= attempt.retry {
        Turn::sends(say("startTwitchTranscoding.successNoTranscoding", lang)).and_then(
            go_on_after_start(attempt.plan),
        )
    } else {
        Turn::asks(Query::StopStreaming, State::TranscodingStopped(attempt))
    }
}

/// Seconds between stopping the stream and starting it again.
pub const RESTART_SECONDS: u64 = 5;

/// How it goes on once the stream was stopped for another attempt, or was not.
pub open spec fn transcoding_stopped(
    lang: Seq<char>,
    attempt: Attempt,
    outcome: Option<Result<(), Error>>,
) -> TurnView {
    match call_error(outcome, ErrorView::UnableInitialConnection) {
        None => and_then(
            does(EffectView::Sleep(RESTART_SECONDS)),
            attempt_begins(lang, attempt.number, attempt.retry, attempt.delay, attempt.plan),
        ),
        Some(e) => sends(said_error("stop.error"@, lang, e)),
    }
}

/// Makes the turn [`transcoding_stopped`].
pub fn on_transcoding_stopped(
    lang: &str,
    attempt: Attempt,
    outcome: Option<Result<(), Error>>,
) -> (r: Turn)
    ensures
        r@ == transcoding_stopped(lang@, attempt, outcome),
{
    match stop_bsc(outcome) {
        Ok(_) => Turn::does(Effect::Sleep(RESTART_SECONDS)).and_then(
            begin_attempt(lang, attempt.number, attempt.retry, attempt.delay, attempt.plan),
        ),
        Err(e) => Turn::sends(say1("stop.error", lang, "error", Argument::Error(e))),
    }
}

// Stopping.
/// How a stop goes on once the options are known.
pub open spec fn stop_options_known(
    raid: Option<RaidedInfoView>,
    options: StreamOptions,
) -> TurnView {
    asks(
        QueryView::StopStreaming,
        StateView::Stopped { raid, record: options.record_while_streaming },
    )
}

/// Makes the turn [`stop_options_known`].
pub fn on_stop_options(raid: Option<RaidedInfo>, options: StreamOptions) -> (r: Turn)
    ensures
        r@ == stop_options_known(maybe_raid(raid), options),
{
    Turn::asks(Query::StopStreaming, State::Stopped { raid, record: options.record_while_streaming })
}

/// The message that the stream stopped, for a raid or without one.
pub open spec fn said_stopped(lang: Seq<char>, raid: Option<RaidedInfoView>) -> MessageView {
    match raid {
        Some(info) => said2(
            "stop.raid"@,
            lang,
            "channel"@,
            ArgumentView::Text(info.target),
            "display_channel"@,
            ArgumentView::Text(info.display),
        ),
        None => said("stop.success"@, lang),
    }
}

/// How it goes on once the stream stopped, or did not.
pub open spec fn stopped(
    lang: Seq<char>,
    raid: Option<RaidedInfoView>,
    record: bool,
    outcome: Option<Result<(), Error>>,
) -> TurnView {
    match call_error(outcome, ErrorView::UnableInitialConnection) {
        None => and_then(sends(said_stopped(lang, raid)), record_if(record)),
        Some(e) => sends(said_error("stop.error"@, lang, e)),
    }
}

/// Makes the turn [`stopped`].
pub fn on_stopped(
    lang: &str,
    raid: Option<RaidedInfo>,
    record: bool,
    outcome: Option<Result<(), Error>>,
) -> (r: Turn)
    ensures
        r@ == stopped(lang@, maybe_raid(raid), record, outcome),
{
    match stop_bsc(outcome) {
        Ok(_) => {
            let message = match raid {
                Some(info) => say2_text(
                    "stop.raid",
                    lang,
                    "channel",
                    info.target.as_str(),
                    "display_channel",
                    info.display.as_str(),
                ),
                None => say("stop.success", lang),
            };
            Turn::sends(message).and_then(record_when(record))
        },
        Err(e) => Turn::sends(say1("stop.error", lang, "error", Argument::Error(e))),
    }
}

impl DispatchCommand {
    /// Starts the stream.
    pub fn start(&self) -> (r: Turn)
        ensures
            r@ == asks(
                QueryView::StreamOptions,
                StateView::StartOptions {
                    twitch: self.chat_message.platform == ChatPlatform::Twitch,
                },
            ),
    {
        Turn::asks(
            Query::StreamOptions,
            State::StartOptions { twitch: self.chat_message.platform == ChatPlatform::Twitch },
        )
    }

    /// Stops the stream, for a raid or without one.
    pub fn stop(&self, raid: Option<RaidedInfo>) -> (r: Turn)
        ensures
            r@ == asks(QueryView::StreamOptions, StateView::StopOptions(maybe_raid(raid))),
    {
        Turn::asks(Query::StreamOptions, State::StopOptions(raid))
    }

    /// Stops the stream for a raid.
    pub fn stop_on_raid(&self, target_info: RaidedInfo) -> (r: Turn)
        ensures
            r@ == asks(QueryView::StreamOptions, StateView::StopOptions(Some(target_info@))),
    {
        self.stop(Some(target_info))
    }

    /// Toggles the recording.
    pub fn record(&self) -> (r: Turn)
        ensures
            r@ == record_begins(),
    {
        record_when(true)
    }
}

} // verus!

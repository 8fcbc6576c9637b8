//! Carrying out a command: how the conversation begins, and how it goes on.
use vstd::prelude::*;

use crate::alias::{
    addition_known, alias_added, alias_begins, alias_parsed, alias_removed, on_addition,
    on_alias_added, on_alias_parsed, on_alias_removed, on_removal, removal_known,
};
use crate::collection::{
    collection_begins, collection_set, collections_known, maybe_lowercase, on_collection_set,
    on_collections,
};
use crate::command::{maybe_texts, Command, CommandView, OptionalScene};
use crate::message::{ChatPlatform, DispatchCommand};
use crate::phrase::{said, MessageView};
use crate::scene::{
    fix_begins, fix_connection_known, fixed, live_scene_known, mute_target, muted,
    on_fix_connection, on_fixed, on_live_scene, on_muted, on_optional_scene, on_refresh_restored,
    on_refresh_scenes, on_refresh_shown, on_source_toggled, on_switched, optional_scene_known,
    refresh_restored, refresh_scenes_known, refresh_shown, source_toggled, switch_begins, switched,
};
use crate::servers::{
    after_text, bitrate_known, bitrate_msg, bitrate_worded, bitrates_from, labelled,
    listed_source_known, named_source_known, on_bitrate, on_bitrate_worded, on_listed_source,
    on_named_source, on_share, on_source_servers, on_source_worded, on_stats, on_stream_status,
    on_switch_worded, send_after, source_servers_known, stats_from, stats_known,
    stream_status_known, switch_worded,
};
use crate::settings::{
    asked_value, instant_toggled, language_parsed, noalbs_begins, on_instant_toggled,
    on_language_parsed, on_retry, on_toggle, on_trigger, on_trigger_updated, on_words, retry_known,
    said_version, toggle_begins, toggle_known, trigger_begins, trigger_known, trigger_updated,
    words_known,
};
use crate::stream::{
    on_recording, on_recording_toggled, on_start_options, on_started, on_stop_options, on_stopped,
    on_transcoding_checked, on_transcoding_started, on_transcoding_stopped, record_begins,
    recording_known, recording_toggled, start_options_known, start_twitch_transcoding, started,
    stop_options_known, stopped, transcoding_checked, transcoding_options_known,
    transcoding_started, transcoding_stopped,
};
use crate::text::{lowercase, maybe_text, split_words, texts, words};
use crate::turn::{
    asks, done, sends, servers_view, QueryView, Reply, State, StateView, Toggle, TriggerType, Turn,
    TurnView,
};

verus! {

/// The words after the first one of a message.
pub open spec fn params_of(message: Seq<char>) -> Seq<Seq<char>> {
    let all = words(message, false);
    if all.len() == 0 {
        all
    } else {
        all.skip(1)
    }
}

/// The parameter at a place, if there are so many.
pub open spec fn param(params: Seq<Seq<char>>, i: int) -> Option<Seq<char>> {
    if i < params.len() {
        Some(params[i])
    } else {
        None
    }
}

/// How a command begins, given the words after it.
pub open spec fn command_begins(
    command: CommandView,
    params: Seq<Seq<char>>,
    platform: ChatPlatform,
    lang: Seq<char>,
    version: Seq<char>,
) -> TurnView {
    let first = param(params, 0);
    match command {
        CommandView::Alias => alias_begins(lang, params),
        CommandView::Autostop => toggle_begins(Toggle::Autostop, asked_value(first)),
        CommandView::Bitrate => asks(QueryView::Servers, StateView::BitrateServers(None)),
        CommandView::Collection => collection_begins(lang, maybe_lowercase(first)),
        CommandView::EndingScene => scene_begins(OptionalScene::Ending),
        CommandView::Fix => fix_begins(),
        CommandView::LiveScene => asks(QueryView::NormalScene, StateView::LiveSceneRead),
        CommandView::Mod => toggle_begins(Toggle::Mod, asked_value(first)),
        CommandView::Mute => asks(
            QueryView::ToggleMute(mute_target(first)),
            StateView::Muted(mute_target(first)),
        ),
        CommandView::Noalbs => noalbs_begins(lang, version, first, param(params, 1)),
        CommandView::Notify => toggle_begins(Toggle::Notify, asked_value(first)),
        CommandView::Ortrigger => trigger_begins(lang, TriggerType::RttOffline, first),
        CommandView::Otrigger => trigger_begins(lang, TriggerType::Offline, first),
        CommandView::PrivacyScene => scene_begins(OptionalScene::Privacy),
        CommandView::Public => toggle_begins(Toggle::Public, asked_value(first)),
        CommandView::Rec => record_begins(),
        CommandView::Refresh => asks(QueryView::RefreshScenes, StateView::RefreshScenes),
        CommandView::Rtrigger => trigger_begins(lang, TriggerType::Rtt, first),
        CommandView::ServerInfo => asks(QueryView::HasStreamStatus, StateView::StreamStatusRead),
        CommandView::Source => match first {
            Some(name) => asks(QueryView::ToggleSource(name), StateView::SourceToggled(name)),
            None => sends(said("source.noParams"@, lang)),
        },
        CommandView::Sourceinfo => asks(QueryView::Servers, StateView::SourceServers(first)),
        CommandView::Start => asks(
            QueryView::StreamOptions,
            StateView::StartOptions { twitch: platform == ChatPlatform::Twitch },
        ),
        CommandView::StartingScene => scene_begins(OptionalScene::Starting),
        CommandView::Stop => asks(QueryView::StreamOptions, StateView::StopOptions(None)),
        CommandView::StopOnRaid(info) => asks(
            QueryView::StreamOptions,
            StateView::StopOptions(Some(info)),
        ),
        CommandView::Switch => match first {
            Some(scene) => switch_begins(scene, false),
            None => sends(said("switch.noParams"@, lang)),
        },
        CommandView::Trigger => trigger_begins(lang, TriggerType::Low, first),
        CommandView::Unknown(_) => done(),
        CommandView::Version => sends(said_version(version)),
    }
}

/// A switch to the scene for a purpose begins: it is asked which scene that is.
pub open spec fn scene_begins(kind: OptionalScene) -> TurnView {
    asks(QueryView::OptionalScene(kind), StateView::OptionalSceneRead { kind, record: false })
}

/// How a conversation goes on in a state with an answer. An answer that does not
/// fit the state ends it.
pub open spec fn resumed(
    lang: Seq<char>,
    channel: Seq<char>,
    state: StateView,
    reply: Reply,
) -> TurnView {
    match (state, reply) {
        (StateView::AliasRemoval(alias), Reply::Flag(b)) => removal_known(lang, alias, b),
        (StateView::AliasRemoved(alias), Reply::Removed(r)) => alias_removed(lang, alias, r),
        (StateView::AliasAddition { alias, command }, Reply::Flag(b)) => addition_known(
            lang,
            alias,
            command,
            b,
        ),
        (StateView::AliasParsed { alias, command }, Reply::Command(c)) => alias_parsed(
            lang,
            alias,
            command,
            c@,
        ),
        (StateView::AliasAdded { alias, command }, Reply::Done(r)) => alias_added(
            lang,
            alias,
            command,
            r,
        ),
        (StateView::Switched { scene, record }, Reply::Scene(r)) => switched(
            lang,
            scene,
            record,
            r,
        ),
        (StateView::Muted(source), Reply::Toggled(r)) => muted(lang, source, r),
        (StateView::SourceToggled(source), Reply::Toggled(r)) => source_toggled(lang, source, r),
        (StateView::StartOptions { twitch }, Reply::Options(o)) => start_options_known(twitch, o),
        (StateView::Started(plan), Reply::Called(r)) => started(lang, plan, r),
        (StateView::TranscodingOptions(plan), Reply::Options(o)) => transcoding_options_known(
            lang,
            plan,
            o,
        ),
        (StateView::TranscodingStarted(attempt), Reply::Called(r)) => transcoding_started(
            lang,
            channel,
            attempt,
            r,
        ),
        (StateView::TranscodingChecked(attempt), Reply::Transcoding(r)) => transcoding_checked(
            lang,
            attempt,
            r,
        ),
        (StateView::TranscodingStopped(attempt), Reply::Called(r)) => transcoding_stopped(
            lang,
            attempt,
            r,
        ),
        (StateView::StopOptions(raid), Reply::Options(o)) => stop_options_known(raid, o),
        (StateView::Stopped { raid, record }, Reply::Called(r)) => stopped(lang, raid, record, r),
        (StateView::TriggerRead(kind), Reply::MaybeNumber(n)) => trigger_known(lang, kind, n),
        (StateView::TriggerUpdated(kind, asked), Reply::MaybeNumber(n)) => trigger_updated(
            lang,
            kind,
            asked,
            n,
        ),
        (StateView::ToggleRead(toggle), Reply::Flag(b)) => toggle_known(lang, toggle, b),
        (StateView::FixConnection, Reply::Flag(b)) => fix_connection_known(lang, b),
        (StateView::Fixed, Reply::Called(r)) => fixed(lang, r),
        (StateView::RefreshScenes, Reply::Scenes { refresh, current }) => refresh_scenes_known(
            lang,
            maybe_text(refresh),
            current@,
        ),
        (StateView::RefreshShown { previous }, Reply::Scene(r)) => refresh_shown(
            lang,
            previous,
            r,
        ),
        (StateView::RefreshRestored, Reply::Scene(r)) => refresh_restored(lang, r),
        (StateView::Recording, Reply::Recording(r)) => recording_known(lang, r),
        (StateView::RecordingToggled(was), Reply::Called(r)) => recording_toggled(lang, was, r),
        (StateView::InstantToggled, Reply::Flag(b)) => instant_toggled(lang, b),
        (StateView::LanguageParsed(name), Reply::Flag(b)) => language_parsed(
            lang,
            name,
            lowercase(name),
            b,
        ),
        (StateView::RetryRead, Reply::Number(n)) => retry_known(lang, n),
        (StateView::Worded, Reply::Text(t)) => words_known(t@),
        (StateView::OptionalSceneRead { kind, record }, Reply::MaybeText(t)) =>
            optional_scene_known(lang, kind, record, maybe_text(t)),
        (StateView::LiveSceneRead, Reply::Text(t)) => live_scene_known(lang, t@),
        (StateView::SourceServers(name), Reply::Servers(v)) => source_servers_known(
            lang,
            name,
            servers_view(v@),
        ),
        (StateView::SourceNamed(name), Reply::MaybeText(t)) => named_source_known(
            lang,
            name,
            maybe_text(t),
        ),
        (StateView::SourceWorded(name), Reply::Text(t)) => sends(
            MessageView::Plain(labelled(name, t@)),
        ),
        (StateView::SourceListed { names, index, parts }, Reply::MaybeText(t)) =>
            listed_source_known(lang, names, index, parts, maybe_text(t)),
        (StateView::StreamStatusRead, Reply::Flag(b)) => stream_status_known(lang, b),
        (StateView::StatsRead, Reply::Stats(r)) => stats_known(lang, r),
        (StateView::ShareRead { stats, shares }, Reply::Text(t)) => stats_from(
            lang,
            stats,
            shares.push(t@),
        ),
        (StateView::CollectionsRead(name), Reply::Collections(v)) => collections_known(
            lang,
            name,
            maybe_texts(v),
        ),
        (StateView::CollectionSet(name), Reply::CollectionSet(r)) => collection_set(
            lang,
            name,
            r,
        ),
        (StateView::BitrateServers(before), Reply::Servers(v)) => bitrates_from(
            lang,
            servers_view(v@),
            0,
            Seq::empty(),
            before,
        ),
        (StateView::BitrateRead { servers, index, message, before }, Reply::MaybeText(t)) =>
            bitrate_known(lang, servers, index, message, before, maybe_text(t)),
        (StateView::BitrateWorded { servers, index, message, before }, Reply::Text(t)) =>
            bitrate_worded(lang, servers, index, message, before, t@),
        (StateView::BitrateFailed(before), Reply::Text(t)) => sends(
            MessageView::Plain(after_text(before, t@)),
        ),
        (StateView::SwitchWorded(kind), Reply::Text(t)) => switch_worded(kind, t@),
        _ => done(),
    }
}

/// Goes on with a conversation, in the language `lang` and about `channel`.
pub fn resume(lang: &str, channel: &str, state: State, reply: Reply) -> (r: Turn)
    ensures
        r@ == resumed(lang@, channel@, state@, reply),
{
    match (state, reply) {
        (State::AliasRemoval(alias), Reply::Flag(b)) => on_removal(lang, alias, b),
        (State::AliasRemoved(alias), Reply::Removed(r)) => on_alias_removed(lang, alias, r),
        (State::AliasAddition { alias, command }, Reply::Flag(b)) => on_addition(
            lang,
            alias,
            command,
            b,
        ),
        (State::AliasParsed { alias, command }, Reply::Command(c)) => on_alias_parsed(
            lang,
            alias,
            command,
            c,
        ),
        (State::AliasAdded { alias, command }, Reply::Done(r)) => on_alias_added(
            lang,
            alias,
            command,
            r,
        ),
        (State::Switched { scene, record }, Reply::Scene(r)) => on_switched(
            lang,
            scene.as_str(),
            record,
            r,
        ),
        (State::Muted(source), Reply::Toggled(r)) => on_muted(lang, source.as_str(), r),
        (State::SourceToggled(source), Reply::Toggled(r)) => on_source_toggled(
            lang,
            source.as_str(),
            r,
        ),
        (State::StartOptions { twitch }, Reply::Options(o)) => on_start_options(twitch, o),
        (State::Started(plan), Reply::Called(r)) => on_started(lang, plan, r),
        (State::TranscodingOptions(plan), Reply::Options(o)) => start_twitch_transcoding(
            lang,
            plan,
            o,
        ),
        (State::TranscodingStarted(attempt), Reply::Called(r)) => on_transcoding_started(
            lang,
            channel,
            attempt,
            r,
        ),
        (State::TranscodingChecked(attempt), Reply::Transcoding(r)) => on_transcoding_checked(
            lang,
            attempt,
            r,
        ),
        (State::TranscodingStopped(attempt), Reply::Called(r)) => on_transcoding_stopped(
            lang,
            attempt,
            r,
        ),
        (State::StopOptions(raid), Reply::Options(o)) => on_stop_options(raid, o),
        (State::Stopped { raid, record }, Reply::Called(r)) => on_stopped(lang, raid, record, r),
        (State::TriggerRead(kind), Reply::MaybeNumber(n)) => on_trigger(lang, kind, n),
        (State::TriggerUpdated(kind, asked), Reply::MaybeNumber(n)) => on_trigger_updated(
            lang,
            kind,
            asked,
            n,
        ),
        (State::ToggleRead(toggle), Reply::Flag(b)) => on_toggle(lang, toggle, b),
        (State::FixConnection, Reply::Flag(b)) => on_fix_connection(lang, b),
        (State::Fixed, Reply::Called(r)) => on_fixed(lang, r),
        (State::RefreshScenes, Reply::Scenes { refresh, current }) => on_refresh_scenes(
            lang,
            refresh,
            current,
        ),
        (State::RefreshShown { previous }, Reply::Scene(r)) => on_refresh_shown(lang, previous, r),
        (State::RefreshRestored, Reply::Scene(r)) => on_refresh_restored(lang, r),
        (State::Recording, Reply::Recording(r)) => on_recording(lang, r),
        (State::RecordingToggled(was), Reply::Called(r)) => on_recording_toggled(lang, was, r),
        (State::InstantToggled, Reply::Flag(b)) => on_instant_toggled(lang, b),
        (State::LanguageParsed(name), Reply::Flag(b)) => on_language_parsed(lang, name, b),
        (State::RetryRead, Reply::Number(n)) => on_retry(lang, n),
        (State::Worded, Reply::Text(t)) => on_words(t),
        (State::OptionalSceneRead { kind, record }, Reply::MaybeText(t)) => on_optional_scene(
            lang,
            kind,
            record,
            t,
        ),
        (State::LiveSceneRead, Reply::Text(t)) => on_live_scene(lang, t.as_str()),
        (State::SourceServers(name), Reply::Servers(v)) => on_source_servers(lang, name, v),
        (State::SourceNamed(name), Reply::MaybeText(t)) => on_named_source(lang, name, t),
        (State::SourceWorded(name), Reply::Text(t)) => on_source_worded(name, t),
        (State::SourceListed { names, index, parts }, Reply::MaybeText(t)) => on_listed_source(
            lang,
            names,
            index,
            parts,
            t,
        ),
        (State::StreamStatusRead, Reply::Flag(b)) => on_stream_status(lang, b),
        (State::StatsRead, Reply::Stats(r)) => on_stats(lang, r),
        (State::ShareRead { stats, shares }, Reply::Text(t)) => on_share(lang, stats, shares, t),
        (State::CollectionsRead(name), Reply::Collections(v)) => on_collections(lang, name, v),
        (State::CollectionSet(name), Reply::CollectionSet(r)) => on_collection_set(lang, name, r),
        (State::BitrateServers(before), Reply::Servers(v)) => bitrate_msg(
            lang,
            v,
            0,
            String::new(),
            before,
        ),
        (State::BitrateRead { servers, index, message, before }, Reply::MaybeText(t)) => on_bitrate(
            lang,
            servers,
            index,
            message,
            before,
            t,
        ),
        (State::BitrateWorded { servers, index, message, before }, Reply::Text(t)) =>
            on_bitrate_worded(lang, servers, index, message, before, t),
        (State::BitrateFailed(before), Reply::Text(t)) => send_after(before, t),
        (State::SwitchWorded(kind), Reply::Text(t)) => on_switch_worded(kind, t),
        _ => Turn::done(),
    }
}

/// Takes the word at a place out of a message.
fn take_word(all: &Vec<String>, i: usize) -> (r: Option<String>)
    ensures
        maybe_text(r) == param(texts(all@), i as int),
{
    if i < all.len() {
        assert(texts(all@)[i as int] == all@[i as int]@);
        Some(all[i].clone())
    } else {
        None
    }
}

impl DispatchCommand {
    /// Begins to carry out the command.
    pub fn run_command(&self) -> (r: Turn)
        ensures
            r@ == command_begins(
                self.command@,
                params_of(self.chat_message.message@),
                self.chat_message.platform,
                self.lang@,
                self.version@,
            ),
    {
        let mut params = split_words(self.chat_message.message.as_str(), false);
        let ghost all = params@;
        if params.len() > 0 {
            params.remove(0);
            assert(texts(params@) =~= texts(all).skip(1));
        }
        assert(texts(params@) == params_of(self.chat_message.message@));
        let first = take_word(&params, 0);
        match &self.command {
            Command::Alias => self.alias(&params),
            Command::Autostop => self.autostop(first),
            Command::Bitrate => self.bitrate(),
            Command::Collection => self.collection(first),
            Command::EndingScene => self.switch_optional_scene(OptionalScene::Ending),
            Command::Fix => self.fix(),
            Command::LiveScene => self.live_scene(),
            Command::Mod => self.enable_mod(first),
            Command::Mute => self.mute(first),
            Command::Noalbs => self.noalbs(first, take_word(&params, 1)),
            Command::Notify => self.notify(first),
            Command::Ortrigger => self.trigger(TriggerType::RttOffline, first),
            Command::Otrigger => self.trigger(TriggerType::Offline, first),
            Command::PrivacyScene => self.switch_optional_scene(OptionalScene::Privacy),
            Command::Public => self.enable_public(first),
            Command::Rec => self.record(),
            Command::Refresh => self.refresh(),
            Command::Rtrigger => self.trigger(TriggerType::Rtt, first),
            Command::ServerInfo => self.server_info(),
            Command::Source => self.source(first),
            Command::Sourceinfo => self.source_info(first),
            Command::Start => self.start(),
            Command::StartingScene => self.switch_optional_scene(OptionalScene::Starting),
            Command::Stop => self.stop(None),
            Command::StopOnRaid(info) => self.stop_on_raid(info.clone()),
            Command::Switch => self.switch(first),
            Command::Trigger => self.trigger(TriggerType::Low, first),
            Command::Unknown(_) => Turn::done(),
            Command::Version => self.version(),
        }
    }

    /// Goes on with the command once an answer is known.
    pub fn resume(&self, state: State, reply: Reply) -> (r: Turn)
        ensures
            r@ == resumed(self.lang@, self.chat_message.channel@, state@, reply),
    {
        resume(self.lang.as_str(), self.chat_message.channel.as_str(), state, reply)
    }
}

} // verus!

//! A command as a conversation with the application: what to do, what to ask,
//! and how to go on once the answer is known.
use vstd::prelude::*;

use crate::command::{Command, CommandView, OptionalScene, RaidedInfo, RaidedInfoView};
use crate::error::Error;
use crate::phrase::{Message, MessageView};
use crate::text::{maybe_text, texts};

verus! {

/// The thresholds at which the switcher acts.
#[derive(Clone, Copy, Debug, PartialEq, Eq, Structural)]
pub enum TriggerType {
    Low,
    Rtt,
    Offline,
    RttOffline,
}

/// Why the switcher changed the scene.
#[derive(Clone, Copy, Debug, PartialEq, Eq, Structural)]
pub enum SwitchType {
    Normal,
    Low,
    Previous,
    Offline,
}

/// The settings that chat can turn on and off.
#[derive(Clone, Copy, Debug, PartialEq, Eq, Structural)]
pub enum Toggle {
    Notify,
    Autostop,
    Mod,
    Public,
}

/// What follows the start of the stream.
#[derive(Clone, Copy, Debug, PartialEq, Eq, Structural)]
pub struct Plan {
    /// Switch to the starting scene.
    pub starting: bool,
    /// Toggle the recording.
    pub record: bool,
}

/// An attempt to start the stream with transcoding.
#[derive(Clone, Copy, Debug, PartialEq, Eq, Structural)]
pub struct Attempt {
    /// The number of the attempt, counted from one.
    pub number: u64,
    /// How many attempts there may be.
    pub retry: u64,
    /// How many seconds to wait before looking for transcoding.
    pub delay: u64,
    /// What follows the start.
    pub plan: Plan,
}

/// The options that starting and stopping the stream depend on.
#[derive(Clone, Copy, Debug, PartialEq, Eq, Structural)]
pub struct StreamOptions {
    pub twitch_transcoding_check: bool,
    pub twitch_transcoding_retries: u64,
    pub twitch_transcoding_delay_seconds: u64,
    pub record_while_streaming: bool,
    pub switch_to_starting_scene_on_stream_start: bool,
}

/// A server that the stream may arrive at.
#[derive(Debug, PartialEq, Eq)]
pub struct StreamServer {
    pub name: String,
    pub enabled: bool,
}

/// A [`StreamServer`] with its name as characters.
pub struct StreamServerView {
    pub name: Seq<char>,
    pub enabled: bool,
}

impl View for StreamServer {
    type V = StreamServerView;

    open spec fn view(&self) -> StreamServerView {
        StreamServerView { name: self.name@, enabled: self.enabled }
    }
}

/// The servers, with their names as characters.
pub open spec fn servers_view(servers: Seq<StreamServer>) -> Seq<StreamServerView> {
    servers.map_values(|server: StreamServer| server@)
}

/// The raid inside an option, as characters.
pub open spec fn maybe_raid(o: Option<RaidedInfo>) -> Option<RaidedInfoView> {
    match o {
        Some(info) => Some(info@),
        None => None,
    }
}

/// What the broadcasting software tells of itself.
#[derive(Debug, PartialEq, Eq)]
pub struct SoftwareStats {
    /// Frames per second, rounded.
    pub fps: String,
    pub bitrate: String,
    /// Frames that the network dropped, of those in `num_total_frames`.
    pub num_dropped_frames: u64,
    pub num_total_frames: u64,
    /// Frames that rendering missed, of those in `render_total_frames`.
    pub render_missed_frames: u64,
    pub render_total_frames: u64,
    /// Frames that encoding skipped, of those in `output_total_frames`.
    pub output_skipped_frames: u64,
    pub output_total_frames: u64,
    pub scene: String,
}

/// A [`SoftwareStats`] with its texts as characters.
pub struct SoftwareStatsView {
    pub fps: Seq<char>,
    pub bitrate: Seq<char>,
    pub num_dropped_frames: u64,
    pub num_total_frames: u64,
    pub render_missed_frames: u64,
    pub render_total_frames: u64,
    pub output_skipped_frames: u64,
    pub output_total_frames: u64,
    pub scene: Seq<char>,
}

impl View for SoftwareStats {
    type V = SoftwareStatsView;

    open spec fn view(&self) -> SoftwareStatsView {
        SoftwareStatsView {
            fps: self.fps@,
            bitrate: self.bitrate@,
            num_dropped_frames: self.num_dropped_frames,
            num_total_frames: self.num_total_frames,
            render_missed_frames: self.render_missed_frames,
            render_total_frames: self.render_total_frames,
            output_skipped_frames: self.output_skipped_frames,
            output_total_frames: self.output_total_frames,
            scene: self.scene@,
        }
    }
}

/// Something to do that needs no answer.
#[derive(Debug, PartialEq, Eq)]
pub enum Effect {
    /// Say something in the channel.
    Send(Message),
    /// Write the configuration to disk.
    SaveConfig,
    /// Wait for a number of seconds.
    Sleep(u64),
    /// Turn a setting on or off.
    SetToggle(Toggle, bool),
    /// Change what commands start with.
    SetPrefix(String),
    /// Tell the listeners of the new prefix.
    PrefixChanged(String),
    /// Turn the automatic switcher on or off.
    SetSwitcher(bool),
    /// Change the language of the chat.
    SetChatLanguage(String),
    /// Change how often the switcher looks again before it acts.
    SetRetryAttempts(u8),
}

/// An [`Effect`] with its texts as characters.
pub enum EffectView {
    Send(MessageView),
    SaveConfig,
    Sleep(u64),
    SetToggle(Toggle, bool),
    SetPrefix(Seq<char>),
    PrefixChanged(Seq<char>),
    SetSwitcher(bool),
    SetChatLanguage(Seq<char>),
    SetRetryAttempts(u8),
}

impl View for Effect {
    type V = EffectView;

    open spec fn view(&self) -> EffectView {
        match self {
            Effect::Send(a) => EffectView::Send(a@),
            Effect::SaveConfig => EffectView::SaveConfig,
            Effect::Sleep(a) => EffectView::Sleep(*a),
            Effect::SetToggle(a, b) => EffectView::SetToggle(*a, *b),
            Effect::SetPrefix(a) => EffectView::SetPrefix(a@),
            Effect::PrefixChanged(a) => EffectView::PrefixChanged(a@),
            Effect::SetSwitcher(a) => EffectView::SetSwitcher(*a),
            Effect::SetChatLanguage(a) => EffectView::SetChatLanguage(a@),
            Effect::SetRetryAttempts(a) => EffectView::SetRetryAttempts(*a),
        }
    }
}

/// Something to ask for, and to wait for the answer.
#[derive(Debug, PartialEq, Eq)]
pub enum Query {
    /// Is there an alias of this name?
    ContainsAlias(String),
    /// Remove the alias.
    RemoveAlias(String),
    /// Which command does the word name?
    ParseCommand(String),
    /// Add an alias for the command.
    AddAlias(String, Command),
    /// Switch to the scene.
    SwitchScene(String),
    /// Mute the source, or unmute it.
    ToggleMute(String),
    /// Show the source, or hide it.
    ToggleSource(String),
    /// How are the options of the stream set?
    StreamOptions,
    /// Start the stream.
    StartStreaming,
    /// Stop the stream.
    StopStreaming,
    /// Does the channel have transcoding?
    CheckTranscoding(String),
    /// Where is the threshold?
    GetTrigger(TriggerType),
    /// Move the threshold.
    UpdateTrigger(TriggerType, u32),
    /// Is the setting on?
    IsOn(Toggle),
    /// Is there a connection to the broadcasting software?
    HasConnection,
    /// Restart the media sources.
    Fix,
    /// Which scene is for refreshing, and which is shown now?
    RefreshScenes,
    /// Is the software recording?
    IsRecording,
    /// Start the recording, or stop it.
    ToggleRecording,
    /// Turn instant switching on recovery on or off; which is it now?
    ToggleInstantRecover,
    /// Is this a language of the chat?
    ParseLanguage(String),
    /// How often does the switcher look again before it acts?
    GetRetryAttempts,
    /// Which scene is configured for this purpose?
    OptionalScene(OptionalScene),
    /// Which scene does the switcher show when all is well?
    NormalScene,
    /// Which servers may the stream arrive at?
    Servers,
    /// What does the server, by its place in the list, tell of its source?
    SourceInfo(usize),
    /// What does the server, by its place in the list, tell of its bitrate?
    ServerBitrate(usize),
    /// Did the software report the state of the stream yet?
    HasStreamStatus,
    /// What does the software tell of itself?
    SoftwareStats,
    /// Which share of the whole is the part, in percent with one decimal?
    Share { part: u64, whole: u64 },
    /// Which collections are configured?
    Collections,
    /// Change to the collection.
    SetCollection(String),
    /// What is this in words?
    Translate(Message),
}

/// A [`Query`] with its texts as characters.
pub enum QueryView {
    ContainsAlias(Seq<char>),
    RemoveAlias(Seq<char>),
    ParseCommand(Seq<char>),
    AddAlias(Seq<char>, CommandView),
    SwitchScene(Seq<char>),
    ToggleMute(Seq<char>),
    ToggleSource(Seq<char>),
    StreamOptions,
    StartStreaming,
    StopStreaming,
    CheckTranscoding(Seq<char>),
    GetTrigger(TriggerType),
    UpdateTrigger(TriggerType, u32),
    IsOn(Toggle),
    HasConnection,
    Fix,
    RefreshScenes,
    IsRecording,
    ToggleRecording,
    ToggleInstantRecover,
    ParseLanguage(Seq<char>),
    GetRetryAttempts,
    OptionalScene(OptionalScene),
    NormalScene,
    Servers,
    SourceInfo(nat),
    ServerBitrate(nat),
    HasStreamStatus,
    SoftwareStats,
    Share { part: u64, whole: u64 },
    Collections,
    SetCollection(Seq<char>),
    Translate(MessageView),
}

impl View for Query {
    type V = QueryView;

    open spec fn view(&self) -> QueryView {
        match self {
            Query::ContainsAlias(a) => QueryView::ContainsAlias(a@),
            Query::RemoveAlias(a) => QueryView::RemoveAlias(a@),
            Query::ParseCommand(a) => QueryView::ParseCommand(a@),
            Query::AddAlias(a, b) => QueryView::AddAlias(a@, b@),
            Query::SwitchScene(a) => QueryView::SwitchScene(a@),
            Query::ToggleMute(a) => QueryView::ToggleMute(a@),
            Query::ToggleSource(a) => QueryView::ToggleSource(a@),
            Query::StreamOptions => QueryView::StreamOptions,
            Query::StartStreaming => QueryView::StartStreaming,
            Query::StopStreaming => QueryView::StopStreaming,
            Query::CheckTranscoding(a) => QueryView::CheckTranscoding(a@),
            Query::GetTrigger(a) => QueryView::GetTrigger(*a),
            Query::UpdateTrigger(a, b) => QueryView::UpdateTrigger(*a, *b),
            Query::IsOn(a) => QueryView::IsOn(*a),
            Query::HasConnection => QueryView::HasConnection,
            Query::Fix => QueryView::Fix,
            Query::RefreshScenes => QueryView::RefreshScenes,
            Query::IsRecording => QueryView::IsRecording,
            Query::ToggleRecording => QueryView::ToggleRecording,
            Query::ToggleInstantRecover => QueryView::ToggleInstantRecover,
            Query::ParseLanguage(a) => QueryView::ParseLanguage(a@),
            Query::GetRetryAttempts => QueryView::GetRetryAttempts,
            Query::OptionalScene(a) => QueryView::OptionalScene(*a),
            Query::NormalScene => QueryView::NormalScene,
            Query::Servers => QueryView::Servers,
            Query::SourceInfo(a) => QueryView::SourceInfo(*a as nat),
            Query::ServerBitrate(a) => QueryView::ServerBitrate(*a as nat),
            Query::HasStreamStatus => QueryView::HasStreamStatus,
            Query::SoftwareStats => QueryView::SoftwareStats,
            Query::Share { part, whole } => QueryView::Share { part: *part, whole: *whole },
            Query::Collections => QueryView::Collections,
            Query::SetCollection(a) => QueryView::SetCollection(a@),
            Query::Translate(a) => QueryView::Translate(a@),
        }
    }
}

/// An answer of the application. A call of the broadcasting software is answered
/// with none where there is no connection to it.
#[derive(Debug, PartialEq, Eq)]
pub enum Reply {
    Flag(bool),
    Number(u8),
    MaybeNumber(Option<u32>),
    Text(String),
    MaybeText(Option<String>),
    Command(Command),
    Done(Result<(), Error>),
    Removed(Result<bool, Error>),
    Transcoding(Result<bool, Error>),
    Options(StreamOptions),
    Called(Option<Result<(), Error>>),
    Scene(Option<Result<String, Error>>),
    Toggled(Option<Result<(String, bool), Error>>),
    Recording(Option<Result<bool, Error>>),
    Scenes { refresh: Option<String>, current: String },
    Servers(Vec<StreamServer>),
    Collections(Option<Vec<String>>),
    /// The collection was set; the flag tells whether the stream runs.
    CollectionSet(Option<Result<bool, Error>>),
    Stats(Option<Result<SoftwareStats, Error>>),
}

/// What is being waited for, and what is known by then.
#[derive(Debug, PartialEq, Eq)]
pub enum State {
    /// Whether the alias that is to go exists.
    AliasRemoval(String),
    /// Whether the alias was removed.
    AliasRemoved(String),
    /// Whether the alias that is to be added exists.
    AliasAddition { alias: String, command: String },
    /// Which command the alias is to stand for.
    AliasParsed { alias: String, command: String },
    /// Whether the alias was added.
    AliasAdded { alias: String, command: String },
    /// Whether the scene was switched; the recording may follow.
    Switched { scene: String, record: bool },
    /// Whether the source was muted.
    Muted(String),
    /// Whether the source was shown or hidden.
    SourceToggled(String),
    /// The options, before the stream starts from a chat that is or is not on Twitch.
    StartOptions { twitch: bool },
    /// Whether the stream started.
    Started(Plan),
    /// The options, before the stream starts with transcoding.
    TranscodingOptions(Plan),
    /// Whether the stream started.
    TranscodingStarted(Attempt),
    /// Whether there is transcoding.
    TranscodingChecked(Attempt),
    /// Whether the stream stopped before another attempt.
    TranscodingStopped(Attempt),
    /// The options, before the stream stops.
    StopOptions(Option<RaidedInfo>),
    /// Whether the stream stopped; the recording may follow.
    Stopped { raid: Option<RaidedInfo>, record: bool },
    /// Where the threshold is.
    TriggerRead(TriggerType),
    /// Where the threshold is after its change.
    TriggerUpdated(TriggerType, u32),
    /// Whether the setting is on.
    ToggleRead(Toggle),
    /// Whether there is a connection to fix.
    FixConnection,
    /// Whether the media sources were restarted.
    Fixed,
    /// The scenes of a refresh.
    RefreshScenes,
    /// Whether the scene for refreshing is shown.
    RefreshShown { previous: String },
    /// Whether the previous scene is shown again.
    RefreshRestored,
    /// Whether the software is recording.
    Recording,
    /// Whether the recording was toggled, and whether there was one.
    RecordingToggled(bool),
    /// Whether instant switching on recovery is on.
    InstantToggled,
    /// Whether the word names a language.
    LanguageParsed(String),
    /// How often the switcher looks again.
    RetryRead,
    /// A message in words, to be sent unless it is empty.
    Worded,
    /// Which scene is configured for the purpose; the recording may follow.
    OptionalSceneRead { kind: OptionalScene, record: bool },
    /// Which scene is the live one.
    LiveSceneRead,
    /// The servers, one of which may be asked for by name.
    SourceServers(Option<String>),
    /// What the named server tells of its source.
    SourceNamed(String),
    /// The words for a named server that tells nothing.
    SourceWorded(String),
    /// What the server at a place in the list tells of its source, and what those before told.
    SourceListed { names: Vec<String>, index: usize, parts: Vec<String> },
    /// Whether the state of the stream is known.
    StreamStatusRead,
    /// What the software tells of itself.
    StatsRead,
    /// A share of frames, after those before it: first of the dropped ones, then of the
    /// missed ones, then of the skipped ones.
    ShareRead { stats: SoftwareStats, shares: Vec<String> },
    /// The collections, one of which is asked for.
    CollectionsRead(String),
    /// Whether the collection was set.
    CollectionSet(String),
    /// The servers; a text may stand before the bitrates.
    BitrateServers(Option<String>),
    /// What the server at a place in the list tells of its bitrate, and what those before told.
    BitrateRead { servers: Vec<StreamServer>, index: usize, message: String, before: Option<String> },
    /// That in words.
    BitrateWorded { servers: Vec<StreamServer>, index: usize, message: String, before: Option<String> },
    /// The words for no bitrate at all.
    BitrateFailed(Option<String>),
    /// The words for a change of the scene.
    SwitchWorded(SwitchType),
}

/// A [`State`] with its texts as characters.
pub enum StateView {
    AliasRemoval(Seq<char>),
    AliasRemoved(Seq<char>),
    AliasAddition { alias: Seq<char>, command: Seq<char> },
    AliasParsed { alias: Seq<char>, command: Seq<char> },
    AliasAdded { alias: Seq<char>, command: Seq<char> },
    Switched { scene: Seq<char>, record: bool },
    Muted(Seq<char>),
    SourceToggled(Seq<char>),
    StartOptions { twitch: bool },
    Started(Plan),
    TranscodingOptions(Plan),
    TranscodingStarted(Attempt),
    TranscodingChecked(Attempt),
    TranscodingStopped(Attempt),
    StopOptions(Option<RaidedInfoView>),
    Stopped { raid: Option<RaidedInfoView>, record: bool },
    TriggerRead(TriggerType),
    TriggerUpdated(TriggerType, u32),
    ToggleRead(Toggle),
    FixConnection,
    Fixed,
    RefreshScenes,
    RefreshShown { previous: Seq<char> },
    RefreshRestored,
    Recording,
    RecordingToggled(bool),
    InstantToggled,
    LanguageParsed(Seq<char>),
    RetryRead,
    Worded,
    OptionalSceneRead { kind: OptionalScene, record: bool },
    LiveSceneRead,
    SourceServers(Option<Seq<char>>),
    SourceNamed(Seq<char>),
    SourceWorded(Seq<char>),
    SourceListed { names: Seq<Seq<char>>, index: nat, parts: Seq<Seq<char>> },
    StreamStatusRead,
    StatsRead,
    ShareRead { stats: SoftwareStatsView, shares: Seq<Seq<char>> },
    CollectionsRead(Seq<char>),
    CollectionSet(Seq<char>),
    BitrateServers(Option<Seq<char>>),
    BitrateRead { servers: Seq<StreamServerView>, index: nat, message: Seq<char>, before: Option<Seq<char>> },
    BitrateWorded { servers: Seq<StreamServerView>, index: nat, message: Seq<char>, before: Option<Seq<char>> },
    BitrateFailed(Option<Seq<char>>),
    SwitchWorded(SwitchType),
}

impl View for State {
    type V = StateView;

    open spec fn view(&self) -> StateView {
        match self {
            State::AliasRemoval(a) => StateView::AliasRemoval(a@),
            State::AliasRemoved(a) => StateView::AliasRemoved(a@),
            State::AliasAddition { alias, command } => StateView::AliasAddition {
                alias: alias@,
                command: command@,
            },
            State::AliasParsed { alias, command } => StateView::AliasParsed {
                alias: alias@,
                command: command@,
            },
            State::AliasAdded { alias, command } => StateView::AliasAdded {
                alias: alias@,
                command: command@,
            },
            State::Switched { scene, record } => StateView::Switched {
                scene: scene@,
                record: *record,
            },
            State::Muted(a) => StateView::Muted(a@),
            State::SourceToggled(a) => StateView::SourceToggled(a@),
            State::StartOptions { twitch } => StateView::StartOptions {
                twitch: *twitch,
            },
            State::Started(a) => StateView::Started(*a),
            State::TranscodingOptions(a) => StateView::TranscodingOptions(*a),
            State::TranscodingStarted(a) => StateView::TranscodingStarted(*a),
            State::TranscodingChecked(a) => StateView::TranscodingChecked(*a),
            State::TranscodingStopped(a) => StateView::TranscodingStopped(*a),
            State::StopOptions(a) => StateView::StopOptions(maybe_raid(*a)),
            State::Stopped { raid, record } => StateView::Stopped {
                raid: maybe_raid(*raid),
                record: *record,
            },
            State::TriggerRead(a) => StateView::TriggerRead(*a),
            State::TriggerUpdated(a, b) => StateView::TriggerUpdated(*a, *b),
            State::ToggleRead(a) => StateView::ToggleRead(*a),
            State::FixConnection => StateView::FixConnection,
            State::Fixed => StateView::Fixed,
            State::RefreshScenes => StateView::RefreshScenes,
            State::RefreshShown { previous } => StateView::RefreshShown {
                previous: previous@,
            },
            State::RefreshRestored => StateView::RefreshRestored,
            State::Recording => StateView::Recording,
            State::RecordingToggled(a) => StateView::RecordingToggled(*a),
            State::InstantToggled => StateView::InstantToggled,
            State::LanguageParsed(a) => StateView::LanguageParsed(a@),
            State::RetryRead => StateView::RetryRead,
            State::Worded => StateView::Worded,
            State::OptionalSceneRead { kind, record } => StateView::OptionalSceneRead {
                kind: *kind,
                record: *record,
            },
            State::LiveSceneRead => StateView::LiveSceneRead,
            State::SourceServers(a) => StateView::SourceServers(maybe_text(*a)),
            State::SourceNamed(a) => StateView::SourceNamed(a@),
            State::SourceWorded(a) => StateView::SourceWorded(a@),
            State::SourceListed { names, index, parts } => StateView::SourceListed {
                names: texts(names@),
                index: *index as nat,
                parts: texts(parts@),
            },
            State::StreamStatusRead => StateView::StreamStatusRead,
            State::StatsRead => StateView::StatsRead,
            State::ShareRead { stats, shares } => StateView::ShareRead {
                stats: stats@,
                shares: texts(shares@),
            },
            State::CollectionsRead(a) => StateView::CollectionsRead(a@),
            State::CollectionSet(a) => StateView::CollectionSet(a@),
            State::BitrateServers(a) => StateView::BitrateServers(maybe_text(*a)),
            State::BitrateRead { servers, index, message, before } => StateView::BitrateRead {
                servers: servers_view(servers@),
                index: *index as nat,
                message: message@,
                before: maybe_text(*before),
            },
            State::BitrateWorded { servers, index, message, before } => StateView::BitrateWorded {
                servers: servers_view(servers@),
                index: *index as nat,
                message: message@,
                before: maybe_text(*before),
            },
            State::BitrateFailed(a) => StateView::BitrateFailed(maybe_text(*a)),
            State::SwitchWorded(a) => StateView::SwitchWorded(*a),
        }
    }
}

/// How a conversation goes on.
#[derive(Debug, PartialEq, Eq)]
pub enum Next {
    /// It is over.
    Done,
    /// Something is asked; the state tells how to go on with the answer.
    Ask(Query, State),
}

/// A [`Next`] with its texts as characters.
pub enum NextView {
    Done,
    Ask(QueryView, StateView),
}

impl View for Next {
    type V = NextView;

    open spec fn view(&self) -> NextView {
        match self {
            Next::Done => NextView::Done,
            Next::Ask(query, state) => NextView::Ask(query@, state@),
        }
    }
}

/// A turn of a conversation: things to do, in order, and how it goes on.
#[derive(Debug, PartialEq, Eq)]
pub struct Turn {
    pub effects: Vec<Effect>,
    pub next: Next,
}

/// A [`Turn`] with its texts as characters.
pub struct TurnView {
    pub effects: Seq<EffectView>,
    pub next: NextView,
}

/// Things to do, with their texts as characters.
pub open spec fn effects_view(effects: Seq<Effect>) -> Seq<EffectView> {
    effects.map_values(|effect: Effect| effect@)
}

impl View for Turn {
    type V = TurnView;

    open spec fn view(&self) -> TurnView {
        TurnView { effects: effects_view(self.effects@), next: self.next@ }
    }
}

/// Nothing is done, and the conversation is over.
pub open spec fn done() -> TurnView {
    TurnView { effects: Seq::empty(), next: NextView::Done }
}

/// One thing is done, and the conversation is over.
pub open spec fn does(effect: EffectView) -> TurnView {
    TurnView { effects: seq![effect], next: NextView::Done }
}

/// Something is said, and the conversation is over.
pub open spec fn sends(message: MessageView) -> TurnView {
    does(EffectView::Send(message))
}

/// Something is asked, and nothing done.
pub open spec fn asks(query: QueryView, state: StateView) -> TurnView {
    TurnView { effects: Seq::empty(), next: NextView::Ask(query, state) }
}

/// A finished turn and another one after it.
pub open spec fn and_then(first: TurnView, second: TurnView) -> TurnView {
    TurnView { effects: first.effects + second.effects, next: second.next }
}

impl Turn {
    /// Makes the turn [`done`].
    pub fn done() -> (r: Turn)
        ensures
            r@ == done(),
    {
        let r = Turn { effects: Vec::new(), next: Next::Done };
        assert(r@.effects =~= Seq::empty());
        r
    }

    /// Makes the turn [`does`].
    pub fn does(effect: Effect) -> (r: Turn)
        ensures
            r@ == does(effect@),
    {
        let ghost e = effect@;
        let mut effects: Vec<Effect> = Vec::new();
        effects.push(effect);
        let r = Turn { effects, next: Next::Done };
        assert(r@.effects =~= seq![e]);
        r
    }

    /// Makes the turn [`sends`].
    pub fn sends(message: Message) -> (r: Turn)
        ensures
            r@ == sends(message@),
    {
        Turn::does(Effect::Send(message))
    }

    /// Makes the turn [`asks`].
    pub fn asks(query: Query, state: State) -> (r: Turn)
        ensures
            r@ == asks(query@, state@),
    {
        let r = Turn { effects: Vec::new(), next: Next::Ask(query, state) };
        assert(r@.effects =~= Seq::empty());
        r
    }

    /// Puts another turn after this one, as [`and_then`] does.
    pub fn and_then(self, second: Turn) -> (r: Turn)
        ensures
            r@ == and_then(self@, second@),
    {
        let mut first = self;
        let mut rest = second.effects;
        let ghost before = first.effects@;
        let ghost added = rest@;
        first.effects.append(&mut rest);
        let r = Turn { effects: first.effects, next: second.next };
        assert(r@.effects =~= effects_view(before) + effects_view(added));
        r
    }
}

} // verus!

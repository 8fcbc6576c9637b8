//! What holds of every conversation.
use vstd::prelude::*;

use crate::command::CommandView;
use crate::dispatch::{command_begins, resumed};
use crate::error::Error;
use crate::message::ChatPlatform;
use crate::phrase::{MessageView, PhraseView};
use crate::servers::next_enabled;
use crate::turn::{done, Attempt, EffectView, NextView, QueryView, Reply, StateView, TurnView};

verus! {

// Answers fit the questions.
/// The kinds of answers.
pub enum Kind {
    Flag,
    Number,
    MaybeNumber,
    Text,
    MaybeText,
    Command,
    Done,
    Removed,
    Transcoding,
    Options,
    Called,
    Scene,
    Toggled,
    Recording,
    Scenes,
    Servers,
    Collections,
    CollectionSet,
    Stats,
}

/// The kind of an answer.
pub open spec fn kind_of(reply: Reply) -> Kind {
    match reply {
        Reply::Flag(_) => Kind::Flag,
        Reply::Number(_) => Kind::Number,
        Reply::MaybeNumber(_) => Kind::MaybeNumber,
        Reply::Text(_) => Kind::Text,
        Reply::MaybeText(_) => Kind::MaybeText,
        Reply::Command(_) => Kind::Command,
        Reply::Done(_) => Kind::Done,
        Reply::Removed(_) => Kind::Removed,
        Reply::Transcoding(_) => Kind::Transcoding,
        Reply::Options(_) => Kind::Options,
        Reply::Called(_) => Kind::Called,
        Reply::Scene(_) => Kind::Scene,
        Reply::Toggled(_) => Kind::Toggled,
        Reply::Recording(_) => Kind::Recording,
        Reply::Scenes { .. } => Kind::Scenes,
        Reply::Servers(_) => Kind::Servers,
        Reply::Collections(_) => Kind::Collections,
        Reply::CollectionSet(_) => Kind::CollectionSet,
        Reply::Stats(_) => Kind::Stats,
    }
}

/// The kind of answer that is asked for.
pub open spec fn kind_asked(query: QueryView) -> Kind {
    match query {
        QueryView::ContainsAlias(_) | QueryView::IsOn(_) | QueryView::HasConnection
        | QueryView::ToggleInstantRecover | QueryView::ParseLanguage(_)
        | QueryView::HasStreamStatus => Kind::Flag,
        QueryView::RemoveAlias(_) => Kind::Removed,
        QueryView::ParseCommand(_) => Kind::Command,
        QueryView::AddAlias(_, _) => Kind::Done,
        QueryView::SwitchScene(_) => Kind::Scene,
        QueryView::ToggleMute(_) | QueryView::ToggleSource(_) => Kind::Toggled,
        QueryView::StreamOptions => Kind::Options,
        QueryView::StartStreaming | QueryView::StopStreaming | QueryView::Fix
        | QueryView::ToggleRecording => Kind::Called,
        QueryView::CheckTranscoding(_) => Kind::Transcoding,
        QueryView::GetTrigger(_) | QueryView::UpdateTrigger(_, _) => Kind::MaybeNumber,
        QueryView::RefreshScenes => Kind::Scenes,
        QueryView::IsRecording => Kind::Recording,
        QueryView::GetRetryAttempts => Kind::Number,
        QueryView::OptionalScene(_) | QueryView::SourceInfo(_) | QueryView::ServerBitrate(_) =>
            Kind::MaybeText,
        QueryView::NormalScene | QueryView::Translate(_) | QueryView::Share { .. } => Kind::Text,
        QueryView::Servers => Kind::Servers,
        QueryView::SoftwareStats => Kind::Stats,
        QueryView::Collections => Kind::Collections,
        QueryView::SetCollection(_) => Kind::CollectionSet,
    }
}

/// The kind of answer that is waited for.
pub open spec fn kind_awaited(state: StateView) -> Kind {
    match state {
        StateView::AliasRemoval(_) | StateView::AliasAddition { .. } | StateView::ToggleRead(_)
        | StateView::FixConnection | StateView::InstantToggled | StateView::LanguageParsed(_)
        | StateView::StreamStatusRead => Kind::Flag,
        StateView::AliasRemoved(_) => Kind::Removed,
        StateView::AliasParsed { .. } => Kind::Command,
        StateView::AliasAdded { .. } => Kind::Done,
        StateView::Switched { .. } | StateView::RefreshShown { .. } | StateView::RefreshRestored =>
            Kind::Scene,
        StateView::Muted(_) | StateView::SourceToggled(_) => Kind::Toggled,
        StateView::StartOptions { .. } | StateView::TranscodingOptions(_)
        | StateView::StopOptions(_) => Kind::Options,
        StateView::Started(_) | StateView::TranscodingStarted(_)
        | StateView::TranscodingStopped(_) | StateView::Stopped { .. } | StateView::Fixed
        | StateView::RecordingToggled(_) => Kind::Called,
        StateView::TranscodingChecked(_) => Kind::Transcoding,
        StateView::TriggerRead(_) | StateView::TriggerUpdated(_, _) => Kind::MaybeNumber,
        StateView::RefreshScenes => Kind::Scenes,
        StateView::Recording => Kind::Recording,
        StateView::RetryRead => Kind::Number,
        StateView::OptionalSceneRead { .. } | StateView::SourceNamed(_)
        | StateView::SourceListed { .. } | StateView::BitrateRead { .. } => Kind::MaybeText,
        StateView::Worded | StateView::LiveSceneRead | StateView::SourceWorded(_)
        | StateView::BitrateWorded { .. } | StateView::BitrateFailed(_)
        | StateView::SwitchWorded(_) | StateView::ShareRead { .. } => Kind::Text,
        StateView::SourceServers(_) | StateView::BitrateServers(_) => Kind::Servers,
        StateView::StatsRead => Kind::Stats,
        StateView::CollectionsRead(_) => Kind::Collections,
        StateView::CollectionSet(_) => Kind::CollectionSet,
    }
}

/// Whether a turn waits for the kind of answer that it asks for.
pub open spec fn asks_fittingly(turn: TurnView) -> bool {
    match turn.next {
        NextView::Done => true,
        NextView::Ask(query, state) => kind_asked(query) == kind_awaited(state),
    }
}

/// What a command asks first is what it then waits for.
pub proof fn law_first_question_fits(
    command: CommandView,
    params: Seq<Seq<char>>,
    platform: ChatPlatform,
    lang: Seq<char>,
    version: Seq<char>,
)
    ensures
        asks_fittingly(command_begins(command, params, platform, lang, version)),
{
}

/// What is asked later is what is then waited for.
pub proof fn law_later_questions_fit(
    lang: Seq<char>,
    channel: Seq<char>,
    state: StateView,
    reply: Reply,
)
    ensures
        asks_fittingly(resumed(lang, channel, state, reply)),
{
    lemma_resumed(lang, channel, state, reply);
}

/// An answer of another kind than the one that is waited for ends a conversation
/// without a word.
pub proof fn law_unfitting_answer_ends(
    lang: Seq<char>,
    channel: Seq<char>,
    state: StateView,
    reply: Reply,
)
    requires
        kind_of(reply) != kind_awaited(state),
    ensures
        resumed(lang, channel, state, reply) == done(),
{
}

// Conversations end.
/// How many questions of other kinds may still follow the one that `state` waits for.
pub open spec fn phase(state: StateView) -> nat {
    match state {
        StateView::AliasRemoval(_) => 1,
        StateView::AliasAddition { .. } => 2,
        StateView::AliasParsed { .. } => 1,
        StateView::Switched { .. } => 2,
        StateView::StartOptions { .. } => 6,
        StateView::Started(_) => 4,
        StateView::TranscodingOptions(_) => 5,
        StateView::TranscodingStarted(_) => 4,
        StateView::TranscodingChecked(_) => 4,
        StateView::TranscodingStopped(_) => 4,
        StateView::StopOptions(_) => 5,
        StateView::Stopped { .. } => 4,
        StateView::FixConnection => 1,
        StateView::RefreshScenes => 2,
        StateView::RefreshShown { .. } => 1,
        StateView::Recording => 1,
        StateView::InstantToggled => 1,
        StateView::LanguageParsed(_) => 1,
        StateView::RetryRead => 1,
        StateView::OptionalSceneRead { .. } => 3,
        StateView::LiveSceneRead => 3,
        StateView::SourceServers(_) => 2,
        StateView::SourceNamed(_) => 1,
        StateView::SourceListed { .. } => 1,
        StateView::StreamStatusRead => 2,
        StateView::StatsRead => 1,
        StateView::CollectionsRead(_) => 1,
        StateView::BitrateServers(_) => 2,
        StateView::BitrateRead { .. } => 1,
        StateView::BitrateWorded { .. } => 1,
        StateView::SwitchWorded(_) => 3,
        _ => 0,
    }
}

/// `a - b`, or nothing where `b` is greater.
pub open spec fn left(a: nat, b: nat) -> nat {
    if a >= b {
        (a - b) as nat
    } else {
        0
    }
}

/// How many questions of the same kind may still follow the one that `state` waits for.
pub open spec fn repeats(state: StateView) -> nat {
    match state {
        StateView::TranscodingStarted(a) => 3 * left(a.retry as nat, a.number as nat) + 2,
        StateView::TranscodingChecked(a) => 3 * left(a.retry as nat, a.number as nat) + 1,
        StateView::TranscodingStopped(a) => 3 * left(a.retry as nat, a.number as nat),
        StateView::SourceListed { names, index, .. } => left(names.len(), index),
        StateView::ShareRead { shares, .. } => left(3, shares.len()),
        StateView::BitrateRead { servers, index, .. } => 2 * left(servers.len(), index) + 1,
        StateView::BitrateWorded { servers, index, .. } => 2 * left(servers.len(), index),
        _ => 0,
    }
}

proof fn lemma_next_enabled(servers: Seq<crate::turn::StreamServerView>, index: nat)
    ensures
        next_enabled(servers, index) <= servers.len(),
        next_enabled(servers, index) < servers.len() ==> index <= next_enabled(servers, index)
            && servers[next_enabled(servers, index) as int].enabled,
    decreases left(servers.len(), index),
{
    if index < servers.len() && !servers[index as int].enabled {
        lemma_next_enabled(servers, index + 1);
    }
}

/// Whether a turn in `state` leaves less to ask.
pub open spec fn nearer_the_end(state: StateView, turn: TurnView) -> bool {
    match turn.next {
        NextView::Done => true,
        NextView::Ask(_, next) => phase(next) < phase(state) || (phase(next) == phase(state)
            && repeats(next) < repeats(state)),
    }
}

/// Whatever the answers are, every conversation ends: after each of them there is less
/// left to ask.
pub proof fn law_conversations_end(
    lang: Seq<char>,
    channel: Seq<char>,
    state: StateView,
    reply: Reply,
)
    ensures
        nearer_the_end(state, resumed(lang, channel, state, reply)),
{
    lemma_resumed(lang, channel, state, reply);
}

// Changes are saved.
/// Whether something changes the configuration.
pub open spec fn changes(effect: EffectView) -> bool {
    match effect {
        EffectView::SetToggle(_, _) | EffectView::SetPrefix(_) | EffectView::SetSwitcher(_)
        | EffectView::SetChatLanguage(_) | EffectView::SetRetryAttempts(_) => true,
        _ => false,
    }
}

/// Whether every change of the configuration is saved next.
pub open spec fn changes_saved(turn: TurnView) -> bool {
    forall|i: int|
        0 <= i < turn.effects.len() && changes(#[trigger] turn.effects[i]) ==> i + 1
            < turn.effects.len() && turn.effects[i + 1] == EffectView::SaveConfig
}

/// Every change of the configuration with which a command begins is saved next.
pub proof fn law_first_changes_saved(
    command: CommandView,
    params: Seq<Seq<char>>,
    platform: ChatPlatform,
    lang: Seq<char>,
    version: Seq<char>,
)
    ensures
        changes_saved(command_begins(command, params, platform, lang, version)),
{
}

/// Every later change of the configuration is saved next.
pub proof fn law_later_changes_saved(
    lang: Seq<char>,
    channel: Seq<char>,
    state: StateView,
    reply: Reply,
)
    ensures
        changes_saved(resumed(lang, channel, state, reply)),
{
    lemma_resumed(lang, channel, state, reply);
}

/// What changed the configuration as an answer is saved next: an alias that was removed
/// or added, a threshold that was moved, instant switching that was turned on or off.
pub proof fn law_answered_changes_saved(
    lang: Seq<char>,
    channel: Seq<char>,
    state: StateView,
    reply: Reply,
)
    requires
        match (state, reply) {
            (StateView::AliasRemoved(_), Reply::Removed(r)) => r is Ok && r->Ok_0,
            (StateView::AliasAdded { .. }, Reply::Done(r)) => r is Ok,
            (StateView::TriggerUpdated(_, _), Reply::MaybeNumber(_)) => true,
            (StateView::InstantToggled, Reply::Flag(_)) => true,
            _ => false,
        },
    ensures
        resumed(lang, channel, state, reply).effects.len() > 0,
        resumed(lang, channel, state, reply).effects[0] == EffectView::SaveConfig,
{
}

// Answers are in the language of the chat.
/// Whether a phrase is in the language `lang`, or is one of those that are not: the
/// bitrate of a server and the remarks on collections are in the language that is current
/// in the process, and the news of another language is in that one.
pub open spec fn in_language(phrase: PhraseView, lang: Seq<char>) -> bool {
    ||| phrase.locale == Some(lang)
    ||| phrase.locale is None && (phrase.key == "bitrate.success"@ || phrase.key
        == "collection.noParams"@ || phrase.key == "collection.note"@)
    ||| phrase.key == "noalbs.langSuccess"@
}

/// Whether every phrase of a message is in the language `lang`.
pub open spec fn message_in_language(message: MessageView, lang: Seq<char>) -> bool {
    match message {
        MessageView::Plain(_) => true,
        MessageView::Phrase(phrase) => in_language(phrase, lang),
        MessageView::Nested { phrase, inner, .. } => in_language(phrase, lang) && in_language(
            inner,
            lang,
        ),
    }
}

/// Whether everything that a turn says or has put in words is in the language `lang`.
pub open spec fn turn_in_language(turn: TurnView, lang: Seq<char>) -> bool {
    &&& forall|i: int|
        0 <= i < turn.effects.len() ==> match #[trigger] turn.effects[i] {
            EffectView::Send(message) => message_in_language(message, lang),
            _ => true,
        }
    &&& match turn.next {
        NextView::Ask(QueryView::Translate(message), _) => message_in_language(message, lang),
        _ => true,
    }
}

/// What a command says first is in the language of the chat.
pub proof fn law_first_words_in_language(
    command: CommandView,
    params: Seq<Seq<char>>,
    platform: ChatPlatform,
    lang: Seq<char>,
    version: Seq<char>,
)
    ensures
        turn_in_language(command_begins(command, params, platform, lang, version), lang),
{
}

/// What is said later is in the language of the chat.
pub proof fn law_later_words_in_language(
    lang: Seq<char>,
    channel: Seq<char>,
    state: StateView,
    reply: Reply,
)
    ensures
        turn_in_language(resumed(lang, channel, state, reply), lang),
{
    lemma_resumed(lang, channel, state, reply);
}

// The stream.
/// Whether a turn asks for the stream to start.
pub open spec fn starts_stream(turn: TurnView) -> bool {
    turn.next matches NextView::Ask(QueryView::StartStreaming, _)
}

/// Whether the stream may be started at this point: for the command that asks for it,
/// or again after it was stopped.
pub open spec fn may_start(state: StateView, reply: Reply) -> bool {
    match state {
        StateView::StartOptions { .. } => true,
        StateView::TranscodingOptions(_) => true,
        StateView::TranscodingStopped(_) => reply matches Reply::Called(Some(Ok(_))),
        _ => false,
    }
}

/// No command starts the stream before it knows the options.
pub proof fn law_no_command_begins_with_start(
    command: CommandView,
    params: Seq<Seq<char>>,
    platform: ChatPlatform,
    lang: Seq<char>,
    version: Seq<char>,
)
    ensures
        !starts_stream(command_begins(command, params, platform, lang, version)),
{
}

/// The stream is started for the command that asks for it, and again only after it was
/// stopped.
pub proof fn law_stream_stopped_before_restart(
    lang: Seq<char>,
    channel: Seq<char>,
    state: StateView,
    reply: Reply,
)
    ensures
        starts_stream(resumed(lang, channel, state, reply)) ==> may_start(state, reply),
{
    lemma_resumed(lang, channel, state, reply);
}

/// The attempt that a state is about, if it is about one.
pub open spec fn attempt_of(state: StateView) -> Option<Attempt> {
    match state {
        StateView::TranscodingStarted(attempt) | StateView::TranscodingChecked(attempt)
        | StateView::TranscodingStopped(attempt) => Some(attempt),
        _ => None,
    }
}

/// Whether the attempt that a state is about is one of those that there may be.
pub open spec fn attempt_in_range(state: StateView) -> bool {
    match attempt_of(state) {
        Some(a) => 1 <= a.number <= a.retry,
        None => true,
    }
}

/// Whether an attempt that follows a state, if one does, is counted: it is the first
/// one, the same one, or, once the stream was stopped, the next one; and it is one of
/// those that there may be.
pub open spec fn attempts_counted(state: StateView, turn: TurnView) -> bool {
    match turn.next {
        NextView::Ask(_, next) => match attempt_of(next) {
            Some(later) => {
                &&& 1 <= later.number <= later.retry
                &&& match attempt_of(state) {
                    Some(a) => {
                        &&& later.retry == a.retry
                        &&& later.number == if state is TranscodingStopped {
                            a.number + 1
                        } else {
                            a.number as int
                        }
                    },
                    None => later.number == 1,
                }
            },
            None => true,
        },
        NextView::Done => true,
    }
}

/// There are never more attempts than there may be, and each counts once.
pub proof fn law_attempts_are_counted(
    lang: Seq<char>,
    channel: Seq<char>,
    state: StateView,
    reply: Reply,
)
    requires
        attempt_in_range(state),
    ensures
        attempts_counted(state, resumed(lang, channel, state, reply)),
{
    lemma_resumed(lang, channel, state, reply);
}

/// A start or a stop that fails is told, and nothing follows.
pub proof fn law_failed_calls_end(
    lang: Seq<char>,
    channel: Seq<char>,
    state: StateView,
    outcome: Option<Result<(), Error>>,
)
    requires
        state is Started || state is TranscodingStarted || state is TranscodingStopped
            || state is Stopped,
        outcome is None || outcome->0 is Err,
    ensures
        resumed(lang, channel, state, Reply::Called(outcome)).effects.len() == 1,
        resumed(lang, channel, state, Reply::Called(outcome)).effects[0] is Send,
        resumed(lang, channel, state, Reply::Called(outcome)).next is Done,
{
}

// Every resumed turn.
/// What holds of every turn that follows an answer.
spec fn well_resumed(lang: Seq<char>, state: StateView, reply: Reply, turn: TurnView) -> bool {
    &&& asks_fittingly(turn)
    &&& nearer_the_end(state, turn)
    &&& changes_saved(turn)
    &&& turn_in_language(turn, lang)
    &&& starts_stream(turn) ==> may_start(state, reply)
    &&& attempt_in_range(state) ==> attempts_counted(state, turn)
}

/// Every resumed turn is as the laws say: it asks fittingly, leaves less to ask, saves
/// changes, speaks the language of the chat, starts the stream only where it may, and
/// counts attempts.
#[verifier::spinoff_prover]
proof fn lemma_resumed(lang: Seq<char>, channel: Seq<char>, state: StateView, reply: Reply)
    ensures
        well_resumed(lang, state, reply, resumed(lang, channel, state, reply)),
{
    let turn = resumed(lang, channel, state, reply);
    match state {
        StateView::AliasRemoval(_) | StateView::AliasRemoved(_) | StateView::AliasAddition { .. }
        | StateView::AliasParsed { .. } | StateView::AliasAdded { .. } => {
            assert(well_resumed(lang, state, reply, turn));
        },
        StateView::Switched { .. } | StateView::Muted(_) | StateView::SourceToggled(_)
        | StateView::OptionalSceneRead { .. } | StateView::LiveSceneRead => {
            assert(well_resumed(lang, state, reply, turn));
        },
        StateView::StartOptions { .. } | StateView::Started(_) | StateView::TranscodingOptions(_) => {
            assert(well_resumed(lang, state, reply, turn));
        },
        StateView::TranscodingStarted(_) | StateView::TranscodingChecked(_)
        | StateView::TranscodingStopped(_) => {
            assert(well_resumed(lang, state, reply, turn));
        },
        StateView::StopOptions(_) | StateView::Stopped { .. } | StateView::Recording
        | StateView::RecordingToggled(_) => {
            assert(well_resumed(lang, state, reply, turn));
        },
        StateView::TriggerRead(_) | StateView::TriggerUpdated(_, _) | StateView::ToggleRead(_)
        | StateView::InstantToggled | StateView::LanguageParsed(_) | StateView::RetryRead
        | StateView::Worded => {
            assert(well_resumed(lang, state, reply, turn));
        },
        StateView::FixConnection | StateView::Fixed | StateView::RefreshScenes
        | StateView::RefreshShown { .. } | StateView::RefreshRestored => {
            assert(well_resumed(lang, state, reply, turn));
        },
        StateView::SourceServers(_) | StateView::SourceNamed(_) | StateView::SourceWorded(_)
        | StateView::SourceListed { .. } => {
            assert(well_resumed(lang, state, reply, turn));
        },
        StateView::StreamStatusRead | StateView::StatsRead | StateView::ShareRead { .. }
        | StateView::CollectionsRead(_) | StateView::CollectionSet(_) => {
            assert(well_resumed(lang, state, reply, turn));
        },
        StateView::BitrateServers(_) | StateView::BitrateFailed(_) | StateView::SwitchWorded(_) => {
            assert(well_resumed(lang, state, reply, turn));
        },
        StateView::BitrateRead { servers, index, .. } => {
            lemma_next_enabled(servers, index + 1);
            assert(well_resumed(lang, state, reply, turn));
        },
        StateView::BitrateWorded { servers, index, .. } => {
            lemma_next_enabled(servers, index + 1);
            assert(well_resumed(lang, state, reply, turn));
        },
    }
}

} // verus!

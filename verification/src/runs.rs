//! Whole conversations, from the first question to the end.
use vstd::prelude::*;

use crate::collection::{collection_begins, maybe_lowercase};
use crate::command::{OptionalScene, RaidedInfoView};
use crate::dispatch::resumed;
use crate::laws::{
    attempt_in_range, attempt_of, kind_asked, kind_of, law_attempts_are_counted,
    law_conversations_end, phase, repeats,
};
use crate::phrase::{said, said1, ArgumentView, MessageView};
use crate::scene::{switch_begins, REFRESH_SECONDS};
use crate::servers::{
    after_text, bitrate_appended, bitrates_from, labelled, names_of, said_bitrate, said_stats,
    share_asked, sources_from, stats_from, switch_notice_begins,
};
use crate::stream::{
    after_start, attempt_begins, record_if, said_stopped, said_transcoding, started, stopped,
    transcoding_ends, transcoding_options_known, RESTART_SECONDS,
};
use crate::text::{joined, lowercase, no_capitals};
use crate::turn::{
    and_then, asks, does, done, sends, servers_view, Attempt, EffectView, NextView, Plan, QueryView,
    Reply, SoftwareStats, SoftwareStatsView, StateView, StreamOptions, StreamServer,
    StreamServerView, SwitchType, TurnView,
};

verus! {

/// How an application answers each question. It may know the state of the conversation.
pub type Answers = spec_fn(QueryView, StateView) -> Reply;

/// How many questions of other kinds may still follow a turn.
pub open spec fn phases_left(turn: TurnView) -> nat {
    match turn.next {
        NextView::Done => 0,
        NextView::Ask(_, state) => 1 + phase(state),
    }
}

/// How many questions of the same kind may still follow a turn.
pub open spec fn repeats_left(turn: TurnView) -> nat {
    match turn.next {
        NextView::Done => 0,
        NextView::Ask(_, state) => repeats(state),
    }
}

/// A step of a conversation.
pub enum Step {
    Does(EffectView),
    Asks(QueryView),
}

/// The steps that do something.
pub open spec fn doing(effects: Seq<EffectView>) -> Seq<Step> {
    effects.map_values(|effect: EffectView| Step::Does(effect))
}

/// The steps from a turn to the end of the conversation.
pub open spec fn run(
    lang: Seq<char>,
    channel: Seq<char>,
    turn: TurnView,
    answers: Answers,
) -> Seq<Step>
    decreases phases_left(turn), repeats_left(turn),
{
    match turn.next {
        NextView::Done => doing(turn.effects),
        NextView::Ask(query, state) => {
            proof {
                law_conversations_end(lang, channel, state, answers(query, state));
            }
            doing(turn.effects) + seq![Step::Asks(query)] + run(
                lang,
                channel,
                resumed(lang, channel, state, answers(query, state)),
                answers,
            )
        },
    }
}

/// A turn that only asks, and what follows its answer.
pub proof fn lemma_asks(
    lang: Seq<char>,
    channel: Seq<char>,
    query: QueryView,
    state: StateView,
    answers: Answers,
)
    ensures
        run(lang, channel, asks(query, state), answers) == seq![Step::Asks(query)] + run(
            lang,
            channel,
            resumed(lang, channel, state, answers(query, state)),
            answers,
        ),
{
    assert(doing(Seq::empty()) =~= Seq::empty());
    assert(Seq::<Step>::empty() + seq![Step::Asks(query)] =~= seq![Step::Asks(query)]);
}

/// A turn that does one thing, and then goes on as another turn.
pub proof fn lemma_does(
    lang: Seq<char>,
    channel: Seq<char>,
    effect: EffectView,
    turn: TurnView,
    answers: Answers,
)
    ensures
        run(lang, channel, and_then(does(effect), turn), answers) == seq![Step::Does(effect)] + run(
            lang,
            channel,
            turn,
            answers,
        ),
        run(lang, channel, does(effect), answers) == seq![Step::Does(effect)],
{
    let both = and_then(does(effect), turn);
    assert(doing(both.effects) =~= seq![Step::Does(effect)] + doing(turn.effects));
    assert(doing(does(effect).effects) =~= seq![Step::Does(effect)]);
    match turn.next {
        NextView::Done => {},
        NextView::Ask(query, state) => {
            let rest = run(
                lang,
                channel,
                resumed(lang, channel, state, answers(query, state)),
                answers,
            );
            assert(doing(both.effects) + seq![Step::Asks(query)] + rest =~= seq![
                Step::Does(effect),
            ] + (doing(turn.effects) + seq![Step::Asks(query)] + rest));
        },
    }
}

// Sources.
/// What the servers before `count` told of their sources.
pub open spec fn told_sources(
    names: Seq<Seq<char>>,
    told: spec_fn(nat) -> Option<String>,
    count: nat,
) -> Seq<Seq<char>>
    decreases count,
{
    if count == 0 {
        Seq::empty()
    } else {
        let before = told_sources(names, told, (count - 1) as nat);
        match told((count - 1) as nat) {
            Some(info) => before.push(labelled(names[count - 1], info@)),
            None => before,
        }
    }
}

/// The one message of a command that asks for all sources.
pub open spec fn sources_message(lang: Seq<char>, parts: Seq<Seq<char>>) -> MessageView {
    if parts.len() == 0 {
        said("sourceinfo.noInfo"@, lang)
    } else {
        MessageView::Plain(joined(parts, " - "@))
    }
}

/// The servers from `index` on are asked for their sources, one after the other.
pub open spec fn sources_asked(index: nat, count: nat) -> Seq<Step> {
    Seq::new((count - index) as nat, |i: int| Step::Asks(QueryView::SourceInfo((index + i) as nat)))
}

proof fn lemma_sources(
    lang: Seq<char>,
    channel: Seq<char>,
    names: Seq<Seq<char>>,
    index: nat,
    told: spec_fn(nat) -> Option<String>,
    answers: Answers,
)
    requires
        index <= names.len(),
        forall|i: nat, state: StateView| #[trigger]
            answers(QueryView::SourceInfo(i), state) == Reply::MaybeText(told(i)),
    ensures
        run(
            lang,
            channel,
            sources_from(lang, names, index, told_sources(names, told, index)),
            answers,
        ) == sources_asked(index, names.len()) + seq![
            Step::Does(
                EffectView::Send(sources_message(lang, told_sources(names, told, names.len()))),
            ),
        ],
    decreases names.len() - index,
{
    let message = EffectView::Send(sources_message(lang, told_sources(names, told, names.len())));
    let parts = told_sources(names, told, index);
    if index < names.len() {
        let query = QueryView::SourceInfo(index);
        let state = StateView::SourceListed { names, index, parts };
        let reply = answers(query, state);
        lemma_sources(lang, channel, names, index + 1, told, answers);
        assert(resumed(lang, channel, state, reply) == sources_from(
            lang,
            names,
            index + 1,
            told_sources(names, told, index + 1),
        ));
        lemma_asks(lang, channel, query, state, answers);
        assert(sources_asked(index, names.len()) + seq![Step::Does(message)] =~= seq![
            Step::Asks(query),
        ] + (sources_asked(index + 1, names.len()) + seq![Step::Does(message)]));
    } else {
        lemma_does(lang, channel, message, done(), answers);
        assert(sources_asked(index, names.len()) + seq![Step::Does(message)] =~= seq![
            Step::Does(message),
        ]);
    }
}

/// All servers are asked for their sources, each once and in order; one message tells
/// what those that answer told, or that none did.
pub proof fn law_all_sources_told(
    lang: Seq<char>,
    channel: Seq<char>,
    servers: Vec<StreamServer>,
    told: spec_fn(nat) -> Option<String>,
    answers: Answers,
)
    requires
        forall|state: StateView| #[trigger]
            answers(QueryView::Servers, state) == Reply::Servers(servers),
        forall|i: nat, state: StateView| #[trigger]
            answers(QueryView::SourceInfo(i), state) == Reply::MaybeText(told(i)),
    ensures
        run(lang, channel, asks(QueryView::Servers, StateView::SourceServers(None)), answers)
            == seq![Step::Asks(QueryView::Servers)] + (sources_asked(0, servers@.len()) + seq![
            Step::Does(
                EffectView::Send(
                    sources_message(
                        lang,
                        told_sources(names_of(servers_view(servers@)), told, servers@.len()),
                    ),
                ),
            ),
        ]),
{
    let names = names_of(servers_view(servers@));
    lemma_sources(lang, channel, names, 0, told, answers);
    lemma_asks(lang, channel, QueryView::Servers, StateView::SourceServers(None), answers);
}

// Bitrates.
/// What the enabled servers before `count` told of their bitrates, in words.
pub open spec fn told_bitrates(
    servers: Seq<StreamServerView>,
    told: spec_fn(nat) -> Option<String>,
    words: spec_fn(MessageView) -> String,
    count: nat,
) -> Seq<Seq<char>>
    decreases count,
{
    if count == 0 {
        Seq::empty()
    } else {
        let before = told_bitrates(servers, told, words, (count - 1) as nat);
        let server = servers[count - 1];
        match told((count - 1) as nat) {
            Some(info) if server.enabled => before.push(words(said_bitrate(server.name, info@))@),
            _ => before,
        }
    }
}

/// The parts one after the other, each put behind those before it where these are not empty.
pub open spec fn appended(parts: Seq<Seq<char>>) -> Seq<char>
    decreases parts.len(),
{
    if parts.len() == 0 {
        Seq::empty()
    } else {
        bitrate_appended(appended(parts.drop_last()), parts.last())
    }
}

/// Bitrates whose words are not empty are told with a separator between each two.
pub proof fn law_bitrates_are_separated(parts: Seq<Seq<char>>)
    requires
        forall|i: int| 0 <= i < parts.len() ==> (#[trigger] parts[i]).len() > 0,
    ensures
        appended(parts) == joined(parts, " - "@),
        appended(parts).len() == 0 <==> parts.len() == 0,
    decreases parts.len(),
{
    reveal_strlit(" - ");
    if parts.len() > 0 {
        let before = parts.drop_last();
        assert(parts.last() == parts[parts.len() - 1]);
        assert forall|i: int| 0 <= i < before.len() implies (#[trigger] before[i]).len() > 0 by {
            assert(before[i] == parts[i]);
        }
        law_bitrates_are_separated(before);
    }
}

/// The text that tells the bitrates, or that there are none.
pub open spec fn bitrates_text(
    lang: Seq<char>,
    parts: Seq<Seq<char>>,
    words: spec_fn(MessageView) -> String,
) -> Seq<char> {
    if appended(parts).len() == 0 {
        words(said("bitrate.error"@, lang))@
    } else {
        appended(parts)
    }
}

/// Whether the answers are those of servers that tell `told`, and translations are `words`.
pub open spec fn bitrate_answers(
    told: spec_fn(nat) -> Option<String>,
    words: spec_fn(MessageView) -> String,
    answers: Answers,
) -> bool {
    &&& forall|i: nat, state: StateView| #[trigger]
        answers(QueryView::ServerBitrate(i), state) == Reply::MaybeText(told(i))
    &&& forall|message: MessageView, state: StateView| #[trigger]
        answers(QueryView::Translate(message), state) == Reply::Text(words(message))
}

/// The enabled servers from `index` on are asked for their bitrates, one after the other,
/// and what each tells is put in words.
pub open spec fn bitrates_asked(
    servers: Seq<StreamServerView>,
    told: spec_fn(nat) -> Option<String>,
    index: nat,
) -> Seq<Step>
    decreases servers.len() - index,
{
    if index >= servers.len() {
        Seq::empty()
    } else {
        let rest = bitrates_asked(servers, told, index + 1);
        let server = servers[index as int];
        if !server.enabled {
            rest
        } else {
            match told(index) {
                Some(info) => seq![
                    Step::Asks(QueryView::ServerBitrate(index)),
                    Step::Asks(QueryView::Translate(said_bitrate(server.name, info@))),
                ] + rest,
                None => seq![Step::Asks(QueryView::ServerBitrate(index))] + rest,
            }
        }
    }
}

/// The bitrates are told; first that there are none is put in words, where that is so.
pub open spec fn bitrates_sent(
    lang: Seq<char>,
    before: Option<Seq<char>>,
    parts: Seq<Seq<char>>,
    words: spec_fn(MessageView) -> String,
) -> Seq<Step> {
    let text = after_text(before, bitrates_text(lang, parts, words));
    let sent = seq![Step::Does(EffectView::Send(MessageView::Plain(text)))];
    if appended(parts).len() == 0 {
        seq![Step::Asks(QueryView::Translate(said("bitrate.error"@, lang)))] + sent
    } else {
        sent
    }
}

proof fn lemma_bitrates(
    lang: Seq<char>,
    channel: Seq<char>,
    servers: Seq<StreamServerView>,
    index: nat,
    before: Option<Seq<char>>,
    told: spec_fn(nat) -> Option<String>,
    words: spec_fn(MessageView) -> String,
    answers: Answers,
)
    requires
        index <= servers.len(),
        bitrate_answers(told, words, answers),
    ensures
        run(
            lang,
            channel,
            bitrates_from(
                lang,
                servers,
                index,
                appended(told_bitrates(servers, told, words, index)),
                before,
            ),
            answers,
        ) == bitrates_asked(servers, told, index) + bitrates_sent(
            lang,
            before,
            told_bitrates(servers, told, words, servers.len()),
            words,
        ),
    decreases servers.len() - index,
{
    let parts = told_bitrates(servers, told, words, index);
    let message = appended(parts);
    let sent = bitrates_sent(
        lang,
        before,
        told_bitrates(servers, told, words, servers.len()),
        words,
    );
    if index == servers.len() {
        let text = after_text(before, bitrates_text(lang, parts, words));
        lemma_does(lang, channel, EffectView::Send(MessageView::Plain(text)), done(), answers);
        if message.len() == 0 {
            let query = QueryView::Translate(said("bitrate.error"@, lang));
            let state = StateView::BitrateFailed(before);
            assert(answers(query, state) == Reply::Text(words(said("bitrate.error"@, lang))));
            lemma_asks(lang, channel, query, state, answers);
        }
        assert(bitrates_asked(servers, told, index) + sent =~= sent);
    } else {
        lemma_bitrates(lang, channel, servers, index + 1, before, told, words, answers);
        let rest = bitrates_asked(servers, told, index + 1);
        if servers[index as int].enabled {
            let query = QueryView::ServerBitrate(index);
            let state = StateView::BitrateRead { servers, index, message, before };
            assert(answers(query, state) == Reply::MaybeText(told(index)));
            lemma_asks(lang, channel, query, state, answers);
            match told(index) {
                Some(info) => {
                    let news = said_bitrate(servers[index as int].name, info@);
                    let wait = StateView::BitrateWorded { servers, index, message, before };
                    let wording = QueryView::Translate(news);
                    assert(answers(wording, wait) == Reply::Text(words(news)));
                    assert(parts.push(words(news)@).drop_last() =~= parts);
                    lemma_asks(lang, channel, wording, wait, answers);
                    assert(seq![Step::Asks(query)] + (seq![Step::Asks(wording)] + (rest + sent))
                        =~= seq![Step::Asks(query), Step::Asks(wording)] + rest + sent);
                },
                None => {
                    assert(seq![Step::Asks(query)] + (rest + sent) =~= seq![Step::Asks(query)] + rest
                        + sent);
                },
            }
        }
    }
}

/// The enabled servers are asked for their bitrates, each once and in order, and one
/// message tells what those that answer told, behind a text that may stand before it; or
/// that none did.
pub proof fn law_all_bitrates_told(
    lang: Seq<char>,
    channel: Seq<char>,
    servers: Vec<StreamServer>,
    before: Option<Seq<char>>,
    told: spec_fn(nat) -> Option<String>,
    words: spec_fn(MessageView) -> String,
    answers: Answers,
)
    requires
        forall|state: StateView| #[trigger]
            answers(QueryView::Servers, state) == Reply::Servers(servers),
        bitrate_answers(told, words, answers),
    ensures
        run(lang, channel, asks(QueryView::Servers, StateView::BitrateServers(before)), answers)
            == seq![Step::Asks(QueryView::Servers)] + (bitrates_asked(
            servers_view(servers@),
            told,
            0,
        ) + bitrates_sent(
            lang,
            before,
            told_bitrates(servers_view(servers@), told, words, servers@.len()),
            words,
        )),
{
    let view = servers_view(servers@);
    lemma_bitrates(lang, channel, view, 0, before, told, words, answers);
    assert(appended(told_bitrates(view, told, words, 0)) =~= Seq::empty());
    lemma_asks(lang, channel, QueryView::Servers, StateView::BitrateServers(before), answers);
}

/// A change of the scene is told; where the stream is live, the bitrates stand behind it
/// in the same message.
pub proof fn law_switches_told(
    lang: Seq<char>,
    channel: Seq<char>,
    scene: Seq<char>,
    kind: SwitchType,
    servers: Vec<StreamServer>,
    told: spec_fn(nat) -> Option<String>,
    words: spec_fn(MessageView) -> String,
    answers: Answers,
)
    requires
        forall|state: StateView| #[trigger]
            answers(QueryView::Servers, state) == Reply::Servers(servers),
        bitrate_answers(told, words, answers),
    ensures
        ({
            let news = said1("sceneSwitch.switch"@, lang, "scene"@, ArgumentView::Text(scene));
            let text = words(news)@;
            run(lang, channel, switch_notice_begins(lang, scene, kind), answers) == seq![
                Step::Asks(QueryView::Translate(news)),
            ] + match kind {
                SwitchType::Normal | SwitchType::Low => seq![Step::Asks(QueryView::Servers)] + (
                bitrates_asked(servers_view(servers@), told, 0) + bitrates_sent(
                    lang,
                    Some(text),
                    told_bitrates(servers_view(servers@), told, words, servers@.len()),
                    words,
                )),
                SwitchType::Previous | SwitchType::Offline => seq![
                    Step::Does(EffectView::Send(MessageView::Plain(text))),
                ],
            }
        }),
{
    let news = said1("sceneSwitch.switch"@, lang, "scene"@, ArgumentView::Text(scene));
    let text = words(news)@;
    let query = QueryView::Translate(news);
    let state = StateView::SwitchWorded(kind);
    assert(answers(query, state) == Reply::Text(words(news)));
    lemma_asks(lang, channel, query, state, answers);
    law_all_bitrates_told(lang, channel, servers, Some(text), told, words, answers);
    lemma_does(lang, channel, EffectView::Send(MessageView::Plain(text)), done(), answers);
}

// Transcoding.
/// The steps of an attempt: the stream is started, and some time later it is asked
/// whether there is transcoding.
pub open spec fn attempt_steps(channel: Seq<char>, delay: u64) -> Seq<Step> {
    seq![
        Step::Asks(QueryView::StartStreaming),
        Step::Does(EffectView::Sleep(delay)),
        Step::Asks(QueryView::CheckTranscoding(channel)),
    ]
}

/// The steps of attempts with `restarts` restarts among them.
pub open spec fn attempts_steps(channel: Seq<char>, delay: u64, restarts: nat) -> Seq<Step>
    decreases restarts,
{
    if restarts == 0 {
        attempt_steps(channel, delay)
    } else {
        attempt_steps(channel, delay) + seq![
            Step::Asks(QueryView::StopStreaming),
            Step::Does(EffectView::Sleep(5)),
        ] + attempts_steps(channel, delay, (restarts - 1) as nat)
    }
}

/// Whether transcoding is found in the attempt `first` and in none before it, and the
/// stream starts and stops as it is asked to until then.
pub open spec fn transcoding_in(channel: Seq<char>, first: nat, answers: Answers) -> bool {
    &&& forall|a: Attempt|
        a.number <= first ==> (#[trigger] answers(
            QueryView::StartStreaming,
            StateView::TranscodingStarted(a),
        )) == Reply::Called(Some(Ok(())))
    &&& forall|a: Attempt|
        a.number < first ==> (#[trigger] answers(
            QueryView::StopStreaming,
            StateView::TranscodingStopped(a),
        )) == Reply::Called(Some(Ok(())))
    &&& forall|a: Attempt|
        a.number <= first ==> finds(
            #[trigger] answers(
                QueryView::CheckTranscoding(channel),
                StateView::TranscodingChecked(a),
            ),
            a.number == first,
        )
}

/// Whether an answer says that there is transcoding, or does not say so.
pub open spec fn finds(reply: Reply, found: bool) -> bool {
    match reply {
        Reply::Transcoding(r) => found == (r is Ok && r->Ok_0),
        _ => false,
    }
}

/// The turn with which the last of the attempts ends: the stream runs with transcoding
/// after `first` of them, or without it where `first` is none of those that there may be.
pub open spec fn last_attempt(
    lang: Seq<char>,
    retry: u64,
    plan: Plan,
    first: nat,
) -> TurnView {
    if first <= retry {
        transcoding_ends(lang, first, plan)
    } else {
        and_then(
            sends(said("startTwitchTranscoding.successNoTranscoding"@, lang)),
            after_start(plan),
        )
    }
}

/// How many restarts the attempts take.
pub open spec fn restarts(made: u64, retry: u64, first: nat) -> nat {
    (if first <= retry {
        first - made - 1
    } else {
        retry - made - 1
    }) as nat
}

proof fn lemma_attempts(
    lang: Seq<char>,
    channel: Seq<char>,
    made: u64,
    retry: u64,
    delay: u64,
    plan: Plan,
    first: nat,
    answers: Answers,
)
    requires
        made < retry,
        made < first,
        transcoding_in(channel, first, answers),
    ensures
        run(lang, channel, attempt_begins(lang, made, retry, delay, plan), answers)
            == attempts_steps(channel, delay, restarts(made, retry, first)) + run(
            lang,
            channel,
            last_attempt(lang, retry, plan, first),
            answers,
        ),
    decreases retry - made,
{
    let a = Attempt { number: (made + 1) as u64, retry, delay, plan };
    let begun = StateView::TranscodingStarted(a);
    lemma_asks(lang, channel, QueryView::StartStreaming, begun, answers);
    let look = QueryView::CheckTranscoding(channel);
    let looking = StateView::TranscodingChecked(a);
    let started = resumed(lang, channel, begun, answers(QueryView::StartStreaming, begun));
    assert(started == and_then(does(EffectView::Sleep(delay)), asks(look, looking)));
    lemma_does(lang, channel, EffectView::Sleep(delay), asks(look, looking), answers);
    lemma_asks(lang, channel, look, looking, answers);
    let looked = resumed(lang, channel, looking, answers(look, looking));
    let rest = run(lang, channel, looked, answers);
    assert(seq![Step::Asks(QueryView::StartStreaming)] + (seq![
        Step::Does(EffectView::Sleep(delay)),
    ] + (seq![Step::Asks(look)] + rest)) =~= attempt_steps(channel, delay) + rest);
    if made + 1 < first && made + 1 < retry {
        let end = run(lang, channel, last_attempt(lang, retry, plan, first), answers);
        let stopping = StateView::TranscodingStopped(a);
        lemma_asks(lang, channel, QueryView::StopStreaming, stopping, answers);
        let stop = resumed(lang, channel, stopping, answers(QueryView::StopStreaming, stopping));
        let again = attempt_begins(lang, (made + 1) as u64, retry, delay, plan);
        assert(stop == and_then(does(EffectView::Sleep(RESTART_SECONDS)), again));
        lemma_does(lang, channel, EffectView::Sleep(RESTART_SECONDS), again, answers);
        lemma_attempts(lang, channel, (made + 1) as u64, retry, delay, plan, first, answers);
        let n = restarts(made, retry, first);
        assert(restarts((made + 1) as u64, retry, first) == n - 1);
        let later = attempts_steps(channel, delay, (n - 1) as nat);
        assert(attempt_steps(channel, delay) + (seq![Step::Asks(QueryView::StopStreaming)] + (seq![
            Step::Does(EffectView::Sleep(RESTART_SECONDS)),
        ] + (later + end))) =~= attempts_steps(channel, delay, n) + end);
    }
}

/// With transcoding in the attempt `first`, the stream is restarted until then, with
/// the configured delay before each look and a pause before each restart, but never more
/// often than attempts are allowed; then it keeps running.
pub proof fn law_restarts_until_transcoding(
    lang: Seq<char>,
    channel: Seq<char>,
    options: StreamOptions,
    plan: Plan,
    first: nat,
    answers: Answers,
)
    requires
        1 <= first,
        1 <= options.twitch_transcoding_retries,
        transcoding_in(channel, first, answers),
    ensures
        run(lang, channel, transcoding_options_known(lang, plan, options), answers) == seq![
            Step::Does(EffectView::Send(said("startTwitchTranscoding.trying"@, lang))),
        ] + (attempts_steps(
            channel,
            options.twitch_transcoding_delay_seconds,
            restarts(0, options.twitch_transcoding_retries, first),
        ) + run(
            lang,
            channel,
            last_attempt(lang, options.twitch_transcoding_retries, plan, first),
            answers,
        )),
{
    let retry = options.twitch_transcoding_retries;
    let delay = options.twitch_transcoding_delay_seconds;
    lemma_attempts(lang, channel, 0, retry, delay, plan, first, answers);
    lemma_does(
        lang,
        channel,
        EffectView::Send(said("startTwitchTranscoding.trying"@, lang)),
        attempt_begins(lang, 0, retry, delay, plan),
        answers,
    );
}

/// Where no attempt is allowed, the stream is not started, and is told to run.
pub proof fn law_no_attempts(
    lang: Seq<char>,
    channel: Seq<char>,
    options: StreamOptions,
    plan: Plan,
    answers: Answers,
)
    requires
        options.twitch_transcoding_retries == 0,
    ensures
        run(lang, channel, transcoding_options_known(lang, plan, options), answers) == seq![
            Step::Does(EffectView::Send(said("startTwitchTranscoding.trying"@, lang))),
            Step::Does(EffectView::Send(said_transcoding(lang, 0))),
        ] + run(lang, channel, after_start(plan), answers),
{
    let trying = EffectView::Send(said("startTwitchTranscoding.trying"@, lang));
    let told = EffectView::Send(said_transcoding(lang, 0));
    lemma_does(lang, channel, told, after_start(plan), answers);
    lemma_does(lang, channel, trying, transcoding_ends(lang, 0, plan), answers);
    let rest = run(lang, channel, after_start(plan), answers);
    assert(seq![Step::Does(trying)] + (seq![Step::Does(told)] + rest) =~= seq![
        Step::Does(trying),
        Step::Does(told),
    ] + rest);
}

/// The steps from a turn to the end of the attempts: up to the message about them, without
/// what follows a start.
pub open spec fn attempts_run(
    lang: Seq<char>,
    channel: Seq<char>,
    turn: TurnView,
    answers: Answers,
) -> Seq<Step>
    decreases phases_left(turn), repeats_left(turn),
{
    match turn.next {
        NextView::Ask(query, state) if attempt_of(state) is Some => {
            proof {
                law_conversations_end(lang, channel, state, answers(query, state));
            }
            doing(turn.effects) + seq![Step::Asks(query)] + attempts_run(
                lang,
                channel,
                resumed(lang, channel, state, answers(query, state)),
                answers,
            )
        },
        _ => doing(turn.effects),
    }
}

/// How many messages are sent among the steps.
pub open spec fn messages(steps: Seq<Step>) -> nat
    decreases steps.len(),
{
    if steps.len() == 0 {
        0
    } else {
        let rest = messages(steps.drop_first());
        match steps[0] {
            Step::Does(EffectView::Send(_)) => 1 + rest,
            _ => rest,
        }
    }
}

/// The starts and stops of the stream among the steps; a start is `true`.
pub open spec fn starts_and_stops(steps: Seq<Step>) -> Seq<bool>
    decreases steps.len(),
{
    if steps.len() == 0 {
        Seq::empty()
    } else {
        let rest = starts_and_stops(steps.drop_first());
        match steps[0] {
            Step::Asks(QueryView::StartStreaming) => seq![true] + rest,
            Step::Asks(QueryView::StopStreaming) => seq![false] + rest,
            _ => rest,
        }
    }
}

/// Whether starts and stops take turns, beginning with a start or with a stop.
pub open spec fn alternate(calls: Seq<bool>, start: bool) -> bool {
    forall|i: int| 0 <= i < calls.len() ==> #[trigger] calls[i] == ((i % 2 == 0) == start)
}

/// Whether an answer says that a call succeeded.
pub open spec fn succeeded(reply: Reply) -> bool {
    match reply {
        Reply::Called(Some(Ok(_))) => true,
        _ => false,
    }
}

/// Whether no start and no stop fails.
pub open spec fn no_call_fails(answers: Answers) -> bool {
    &&& forall|state: StateView| succeeded(#[trigger] answers(QueryView::StartStreaming, state))
    &&& forall|state: StateView| succeeded(#[trigger] answers(QueryView::StopStreaming, state))
}

proof fn lemma_one_step(step: Step, steps: Seq<Step>)
    ensures
        messages(seq![step] + steps) == messages(steps) + if step is Does && step->Does_0 is Send {
            1nat
        } else {
            0nat
        },
        starts_and_stops(seq![step] + steps) == match step {
            Step::Asks(QueryView::StartStreaming) => seq![true] + starts_and_stops(steps),
            Step::Asks(QueryView::StopStreaming) => seq![false] + starts_and_stops(steps),
            _ => starts_and_stops(steps),
        },
{
    assert((seq![step] + steps).drop_first() =~= steps);
}

proof fn lemma_alternate(start: bool, calls: Seq<bool>)
    requires
        alternate(calls, !start),
    ensures
        alternate(seq![start] + calls, start),
        (seq![start] + calls).len() == 1 + calls.len(),
{
    let all = seq![start] + calls;
    assert forall|i: int| 0 <= i < all.len() implies #[trigger] all[i] == ((i % 2 == 0) == start) by {
        if i > 0 {
            assert(all[i] == calls[i - 1]);
        }
    }
}

/// A turn of the attempts that does one thing, and either goes on as another turn of them
/// or ends them.
proof fn lemma_attempts_does(
    lang: Seq<char>,
    channel: Seq<char>,
    effect: EffectView,
    turn: TurnView,
    answers: Answers,
)
    ensures
        attempts_run(lang, channel, and_then(does(effect), turn), answers) == seq![
            Step::Does(effect),
        ] + attempts_run(lang, channel, turn, answers),
        attempts_run(lang, channel, does(effect), answers) == seq![Step::Does(effect)],
{
    let both = and_then(does(effect), turn);
    assert(doing(both.effects) =~= seq![Step::Does(effect)] + doing(turn.effects));
    assert(doing(does(effect).effects) =~= seq![Step::Does(effect)]);
    match turn.next {
        NextView::Ask(query, state) if attempt_of(state) is Some => {
            let rest = attempts_run(
                lang,
                channel,
                resumed(lang, channel, state, answers(query, state)),
                answers,
            );
            assert(doing(both.effects) + seq![Step::Asks(query)] + rest =~= seq![
                Step::Does(effect),
            ] + (doing(turn.effects) + seq![Step::Asks(query)] + rest));
        },
        _ => {},
    }
}

/// What is asked in a state of the attempts.
pub open spec fn attempt_query(channel: Seq<char>, state: StateView) -> QueryView {
    match state {
        StateView::TranscodingStarted(_) => QueryView::StartStreaming,
        StateView::TranscodingChecked(_) => QueryView::CheckTranscoding(channel),
        _ => QueryView::StopStreaming,
    }
}

/// Whether a state is one of an attempt that there may be, and a stop is followed by
/// another one.
pub open spec fn attempting(state: StateView) -> bool {
    &&& attempt_of(state) is Some
    &&& attempt_in_range(state)
    &&& state is TranscodingStopped ==> attempt_of(state)->0.number < attempt_of(state)->0.retry
}

/// The state of the attempts that follows `state`, where one does.
pub open spec fn attempt_follows(state: StateView, later: StateView) -> bool {
    &&& state is TranscodingStarted ==> later is TranscodingChecked
    &&& state is TranscodingChecked ==> later is TranscodingStopped
    &&& state is TranscodingStopped ==> later is TranscodingStarted
}

/// A turn of the attempts either waits and goes on with them, or sends a message and ends
/// them; the stream runs then, unless a call failed.
pub proof fn lemma_attempt_turn(
    lang: Seq<char>,
    channel: Seq<char>,
    state: StateView,
    reply: Reply,
) -> (later: Option<StateView>)
    requires
        attempting(state),
        kind_of(reply) == kind_asked(attempt_query(channel, state)),
    ensures
        ({
            let next = resumed(lang, channel, state, reply);
            match later {
                Some(later) => {
                    let follow = asks(attempt_query(channel, later), later);
                    &&& attempting(later)
                    &&& attempt_follows(state, later)
                    &&& repeats(later) < repeats(state)
                    &&& next == follow || exists|seconds: u64|
                        next == #[trigger] and_then(does(EffectView::Sleep(seconds)), follow)
                },
                None => {
                    &&& next.effects.len() == 1
                    &&& next.effects[0] is Send
                    &&& next.next is Done || attempt_of(next.next->1) is None
                    &&& succeeded(reply) ==> state is TranscodingChecked
                },
            }
        }),
{
    let next = resumed(lang, channel, state, reply);
    law_conversations_end(lang, channel, state, reply);
    law_attempts_are_counted(lang, channel, state, reply);
    match next.next {
        NextView::Ask(_, later) if attempt_of(later) is Some => {
            let follow = asks(attempt_query(channel, later), later);
            if state is TranscodingStarted {
                let delay = attempt_of(state)->0.delay;
                assert(next == and_then(does(EffectView::Sleep(delay)), follow));
            } else if state is TranscodingStopped {
                assert(next == and_then(does(EffectView::Sleep(RESTART_SECONDS)), follow));
            } else {
                assert(next == follow);
            }
            Some(later)
        },
        _ => None,
    }
}

/// From a state of the attempts on, one message is sent, and starts and stops take turns.
proof fn lemma_attempts_run(
    lang: Seq<char>,
    channel: Seq<char>,
    state: StateView,
    answers: Answers,
)
    requires
        answers_fit(answers),
        attempting(state),
    ensures
        ({
            let turn = asks(attempt_query(channel, state), state);
            let steps = attempts_run(lang, channel, turn, answers);
            &&& messages(steps) == 1
            &&& alternate(starts_and_stops(steps), state is TranscodingStarted)
            &&& no_call_fails(answers) ==> (starts_and_stops(steps).len() % 2 == 1) == (
            state is TranscodingStarted)
        }),
    decreases repeats(state),
{
    let query = attempt_query(channel, state);
    let reply = answers(query, state);
    assert(kind_of(reply) == kind_asked(query));
    let next = resumed(lang, channel, state, reply);
    let rest = attempts_run(lang, channel, next, answers);
    let steps = attempts_run(lang, channel, asks(query, state), answers);
    assert(doing(Seq::empty()) =~= Seq::empty());
    assert(steps =~= seq![Step::Asks(query)] + rest);
    lemma_one_step(Step::Asks(query), rest);
    match lemma_attempt_turn(lang, channel, state, reply) {
        Some(later) => {
            let follow = asks(attempt_query(channel, later), later);
            let after = attempts_run(lang, channel, follow, answers);
            lemma_attempts_run(lang, channel, later, answers);
            if next != follow {
                let seconds = choose|seconds: u64|
                    next == #[trigger] and_then(does(EffectView::Sleep(seconds)), follow);
                lemma_attempts_does(lang, channel, EffectView::Sleep(seconds), follow, answers);
                lemma_one_step(Step::Does(EffectView::Sleep(seconds)), after);
            }
            assert(messages(rest) == 1);
            assert(starts_and_stops(rest) == starts_and_stops(after));
        },
        None => {
            let effect = next.effects[0];
            assert(rest =~= seq![Step::Does(effect)]);
            lemma_one_step(Step::Does(effect), Seq::empty());
            assert(rest + Seq::empty() =~= rest);
            assert(starts_and_stops(rest) =~= Seq::empty());
        },
    }
    if state is TranscodingStarted {
        lemma_alternate(true, starts_and_stops(rest));
    } else if state is TranscodingStopped {
        lemma_alternate(false, starts_and_stops(rest));
    }
}

/// Whatever the answers are, the attempts send two messages; starts and stops of the stream
/// take turns, beginning with a start; and where attempts are allowed and no start or stop
/// fails, there is one start more than stops, so that the stream keeps running.
pub proof fn law_attempts_take_turns(
    lang: Seq<char>,
    channel: Seq<char>,
    options: StreamOptions,
    plan: Plan,
    answers: Answers,
)
    requires
        answers_fit(answers),
    ensures
        ({
            let turn = transcoding_options_known(lang, plan, options);
            let steps = attempts_run(lang, channel, turn, answers);
            let calls = starts_and_stops(steps);
            &&& steps.is_prefix_of(run(lang, channel, turn, answers))
            &&& messages(steps) == 2
            &&& alternate(calls, true)
            &&& options.twitch_transcoding_retries > 0 && no_call_fails(answers) ==> calls.len() % 2
                == 1
            &&& options.twitch_transcoding_retries == 0 ==> calls.len() == 0
        }),
{
    let retry = options.twitch_transcoding_retries;
    let delay = options.twitch_transcoding_delay_seconds;
    let turn = transcoding_options_known(lang, plan, options);
    let begun = attempt_begins(lang, 0, retry, delay, plan);
    let trying = EffectView::Send(said("startTwitchTranscoding.trying"@, lang));
    let rest = attempts_run(lang, channel, begun, answers);
    lemma_attempts_prefix(lang, channel, turn, answers);
    lemma_attempts_does(lang, channel, trying, begun, answers);
    lemma_one_step(Step::Does(trying), rest);
    if retry > 0 {
        let state = StateView::TranscodingStarted(Attempt { number: 1, retry, delay, plan });
        assert(begun == asks(QueryView::StartStreaming, state));
        lemma_attempts_run(lang, channel, state, answers);
    } else {
        let told = EffectView::Send(said_transcoding(lang, 0));
        assert(begun == and_then(does(told), after_start(plan)));
        lemma_attempts_does(lang, channel, told, after_start(plan), answers);
        let nothing = attempts_run(lang, channel, after_start(plan), answers);
        assert(nothing =~= Seq::empty());
        lemma_one_step(Step::Does(told), nothing);
    }
}

/// The attempts come first in a conversation.
proof fn lemma_attempts_prefix(
    lang: Seq<char>,
    channel: Seq<char>,
    turn: TurnView,
    answers: Answers,
)
    ensures
        attempts_run(lang, channel, turn, answers).is_prefix_of(run(lang, channel, turn, answers)),
    decreases phases_left(turn), repeats_left(turn),
{
    match turn.next {
        NextView::Ask(query, state) if attempt_of(state) is Some => {
            let next = resumed(lang, channel, state, answers(query, state));
            law_conversations_end(lang, channel, state, answers(query, state));
            lemma_attempts_prefix(lang, channel, next, answers);
            let head = doing(turn.effects) + seq![Step::Asks(query)];
            let part = attempts_run(lang, channel, next, answers);
            let all = run(lang, channel, next, answers);
            assert(part =~= all.subrange(0, part.len() as int));
            assert(head + part =~= (head + all).subrange(0, (head + part).len() as int));
        },
        _ => {
            let steps = doing(turn.effects);
            let all = run(lang, channel, turn, answers);
            assert(steps =~= all.subrange(0, steps.len() as int));
        },
    }
}

// The software.
/// The message on the software tells each kind of frames with its share of its own total.
pub proof fn law_shares_are_of_their_totals(
    lang: Seq<char>,
    channel: Seq<char>,
    stats: SoftwareStats,
    share: spec_fn(u64, u64) -> String,
    answers: Answers,
)
    requires
        forall|state: StateView| #[trigger]
            answers(QueryView::HasStreamStatus, state) == Reply::Flag(true),
        forall|state: StateView| #[trigger]
            answers(QueryView::SoftwareStats, state) == Reply::Stats(Some(Ok(stats))),
        forall|part: u64, whole: u64, state: StateView| #[trigger]
            answers(QueryView::Share { part, whole }, state) == Reply::Text(share(part, whole)),
    ensures
        run(lang, channel, asks(QueryView::HasStreamStatus, StateView::StreamStatusRead), answers)
            == seq![
            Step::Asks(QueryView::HasStreamStatus),
            Step::Asks(QueryView::SoftwareStats),
            Step::Asks(
                QueryView::Share { part: stats.num_dropped_frames, whole: stats.num_total_frames },
            ),
            Step::Asks(
                QueryView::Share {
                    part: stats.render_missed_frames,
                    whole: stats.render_total_frames,
                },
            ),
            Step::Asks(
                QueryView::Share {
                    part: stats.output_skipped_frames,
                    whole: stats.output_total_frames,
                },
            ),
            Step::Does(
                EffectView::Send(
                    said_stats(
                        lang,
                        stats@,
                        seq![
                            share(stats.num_dropped_frames, stats.num_total_frames)@,
                            share(stats.render_missed_frames, stats.render_total_frames)@,
                            share(stats.output_skipped_frames, stats.output_total_frames)@,
                        ],
                    ),
                ),
            ),
        ],
{
    let view = stats@;
    let network = share(view.num_dropped_frames, view.num_total_frames)@;
    let rendering = share(view.render_missed_frames, view.render_total_frames)@;
    let encoding = share(view.output_skipped_frames, view.output_total_frames)@;
    let none = Seq::<Seq<char>>::empty();
    let one = none.push(network);
    let two = one.push(rendering);
    lemma_asks(lang, channel, QueryView::HasStreamStatus, StateView::StreamStatusRead, answers);
    lemma_asks(lang, channel, QueryView::SoftwareStats, StateView::StatsRead, answers);
    lemma_share(lang, channel, view, none, share, answers);
    lemma_share(lang, channel, view, one, share, answers);
    lemma_share(lang, channel, view, two, share, answers);
    let all = two.push(encoding);
    assert(all =~= seq![network, rendering, encoding]);
    lemma_does(lang, channel, EffectView::Send(said_stats(lang, view, all)), done(), answers);
}

proof fn lemma_share(
    lang: Seq<char>,
    channel: Seq<char>,
    stats: SoftwareStatsView,
    shares: Seq<Seq<char>>,
    share: spec_fn(u64, u64) -> String,
    answers: Answers,
)
    requires
        shares.len() < 3,
        forall|part: u64, whole: u64, state: StateView| #[trigger]
            answers(QueryView::Share { part, whole }, state) == Reply::Text(share(part, whole)),
    ensures
        ({
            let query = share_asked(stats, shares.len());
            run(lang, channel, stats_from(lang, stats, shares), answers) == seq![Step::Asks(query)]
                + run(
                lang,
                channel,
                stats_from(lang, stats, shares.push(share(query->part, query->whole)@)),
                answers,
            )
        }),
{
    let query = share_asked(stats, shares.len());
    let state = StateView::ShareRead { stats, shares };
    assert(answers(query, state) == Reply::Text(share(query->part, query->whole)));
    lemma_asks(lang, channel, query, state, answers);
}

// Refreshing.
/// A refresh shows the scene for refreshing for some seconds, and then the scene that was
/// shown before.
pub proof fn law_refresh_restores(
    lang: Seq<char>,
    channel: Seq<char>,
    refresh: String,
    current: String,
    answers: Answers,
)
    requires
        forall|state: StateView| #[trigger]
            answers(QueryView::RefreshScenes, state) == (Reply::Scenes {
                refresh: Some(refresh),
                current,
            }),
        forall|scene: Seq<char>, state: StateView|
            (#[trigger] answers(QueryView::SwitchScene(scene), state)) matches Reply::Scene(
                Some(Ok(_)),
            ),
    ensures
        run(lang, channel, asks(QueryView::RefreshScenes, StateView::RefreshScenes), answers)
            == seq![
            Step::Asks(QueryView::RefreshScenes),
            Step::Does(EffectView::Send(said("refresh.try"@, lang))),
            Step::Asks(QueryView::SwitchScene(refresh@)),
            Step::Does(EffectView::Sleep(REFRESH_SECONDS)),
            Step::Asks(QueryView::SwitchScene(current@)),
            Step::Does(EffectView::Send(said("refresh.success"@, lang))),
        ],
{
    let show = QueryView::SwitchScene(refresh@);
    let shown = StateView::RefreshShown { previous: current@ };
    let restore = QueryView::SwitchScene(current@);
    let restored = StateView::RefreshRestored;
    lemma_asks(lang, channel, QueryView::RefreshScenes, StateView::RefreshScenes, answers);
    lemma_does(
        lang,
        channel,
        EffectView::Send(said("refresh.try"@, lang)),
        asks(show, shown),
        answers,
    );
    lemma_asks(lang, channel, show, shown, answers);
    assert(answers(show, shown) matches Reply::Scene(Some(Ok(_))));
    lemma_does(
        lang,
        channel,
        EffectView::Sleep(REFRESH_SECONDS),
        asks(restore, restored),
        answers,
    );
    lemma_asks(lang, channel, restore, restored, answers);
    assert(answers(restore, restored) matches Reply::Scene(Some(Ok(_))));
    lemma_does(
        lang,
        channel,
        EffectView::Send(said("refresh.success"@, lang)),
        done(),
        answers,
    );
}

// What is asked.
/// Whether something is asked for among the steps.
pub open spec fn asked_for(steps: Seq<Step>, query: QueryView) -> bool {
    exists|i: int| 0 <= i < steps.len() && #[trigger] steps[i] == Step::Asks(query)
}

pub proof fn lemma_asked_later(step: Step, steps: Seq<Step>, query: QueryView)
    requires
        step != Step::Asks(query),
    ensures
        asked_for(seq![step] + steps, query) == asked_for(steps, query),
{
    let all = seq![step] + steps;
    if asked_for(steps, query) {
        let i = choose|i: int| 0 <= i < steps.len() && #[trigger] steps[i] == Step::Asks(query);
        assert(all[i + 1] == steps[i]);
    }
    if asked_for(all, query) {
        let i = choose|i: int| 0 <= i < all.len() && #[trigger] all[i] == Step::Asks(query);
        assert(steps[i - 1] == all[i]);
    }
}

// Collections.
/// Whether a collection is not changed to from a turn on, whatever the answers are.
pub open spec fn never_selected(
    lang: Seq<char>,
    channel: Seq<char>,
    turn: TurnView,
    key: Seq<char>,
) -> bool {
    forall|answers: Answers|
        !asked_for(#[trigger] run(lang, channel, turn, answers), QueryView::SetCollection(key))
}

/// Where the name that is asked for is in lower case, a collection that is configured under
/// a name with capital letters is never changed to.
pub proof fn law_capitals_never_selected(
    lang: Seq<char>,
    channel: Seq<char>,
    name: Option<Seq<char>>,
    key: Seq<char>,
)
    requires
        name is Some ==> no_capitals(name->0),
        !no_capitals(key),
    ensures
        never_selected(lang, channel, collection_begins(lang, name), key),
{
    let first = collection_begins(lang, name);
    let select = QueryView::SetCollection(key);
    assert forall|answers: Answers| !asked_for(
        #[trigger] run(lang, channel, first, answers),
        select,
    ) by {
        if let Some(name) = name {
            let state = StateView::CollectionsRead(name);
            let second = resumed(lang, channel, state, answers(QueryView::Collections, state));
            if second.next is Ask {
                let set = QueryView::SetCollection(name);
                let last = StateView::CollectionSet(name);
                assert(second == asks(set, last));
                let third = resumed(lang, channel, last, answers(set, last));
                assert(!asked_for(run(lang, channel, third, answers), select));
                lemma_asks(lang, channel, set, last, answers);
                lemma_asked_later(Step::Asks(set), run(lang, channel, third, answers), select);
            }
            lemma_asks(lang, channel, QueryView::Collections, state, answers);
            lemma_asked_later(
                Step::Asks(QueryView::Collections),
                run(lang, channel, second, answers),
                select,
            );
        }
    }
}

/// Names that are the same in lower case lead to the same steps.
pub proof fn law_collections_ignore_case(
    lang: Seq<char>,
    channel: Seq<char>,
    one: Seq<char>,
    other: Seq<char>,
    answers: Answers,
)
    requires
        lowercase(one) == lowercase(other),
    ensures
        run(lang, channel, collection_begins(lang, maybe_lowercase(Some(one))), answers) == run(
            lang,
            channel,
            collection_begins(lang, maybe_lowercase(Some(other))),
            answers,
        ),
{
}

// Recording.
/// Whether the recording is toggled among the steps.
pub open spec fn records(steps: Seq<Step>) -> bool {
    asked_for(steps, QueryView::IsRecording)
}

/// Whether every answer is of the kind that was asked for.
pub open spec fn answers_fit(answers: Answers) -> bool {
    forall|query: QueryView, state: StateView|
        kind_of(#[trigger] answers(query, state)) == kind_asked(query)
}

proof fn lemma_records_later(step: Step, steps: Seq<Step>)
    requires
        step != Step::Asks(QueryView::IsRecording),
    ensures
        records(seq![step] + steps) == records(steps),
{
    lemma_asked_later(step, steps, QueryView::IsRecording);
}

proof fn lemma_record_if(lang: Seq<char>, channel: Seq<char>, record: bool, answers: Answers)
    ensures
        records(run(lang, channel, record_if(record), answers)) == record,
{
    if record {
        lemma_asks(lang, channel, QueryView::IsRecording, StateView::Recording, answers);
        let steps = run(lang, channel, record_if(record), answers);
        assert(steps[0] == Step::Asks(QueryView::IsRecording));
    } else {
        assert(run(lang, channel, done(), answers) =~= Seq::empty());
    }
}

proof fn lemma_says_then_records(
    lang: Seq<char>,
    channel: Seq<char>,
    message: MessageView,
    record: bool,
    answers: Answers,
)
    ensures
        records(run(lang, channel, and_then(sends(message), record_if(record)), answers)) == record,
{
    lemma_does(lang, channel, EffectView::Send(message), record_if(record), answers);
    lemma_record_if(lang, channel, record, answers);
    lemma_records_later(
        Step::Does(EffectView::Send(message)),
        run(lang, channel, record_if(record), answers),
    );
}

proof fn lemma_switch_then_records(
    lang: Seq<char>,
    channel: Seq<char>,
    scene: Seq<char>,
    record: bool,
    answers: Answers,
)
    requires
        answers_fit(answers),
    ensures
        records(run(lang, channel, switch_begins(scene, record), answers)) == record,
{
    let query = QueryView::SwitchScene(scene);
    let state = StateView::Switched { scene, record };
    let reply = answers(query, state);
    assert(kind_of(reply) == kind_asked(query));
    let turn = resumed(lang, channel, state, reply);
    let message = turn.effects[0]->Send_0;
    assert(turn == and_then(sends(message), record_if(record)));
    lemma_says_then_records(lang, channel, message, record, answers);
    lemma_asks(lang, channel, query, state, answers);
    lemma_records_later(Step::Asks(query), run(lang, channel, turn, answers));
}

pub proof fn lemma_after_start_records(
    lang: Seq<char>,
    channel: Seq<char>,
    plan: Plan,
    answers: Answers,
)
    requires
        answers_fit(answers),
    ensures
        records(run(lang, channel, after_start(plan), answers)) == plan.record,
{
    if plan.starting {
        let query = QueryView::OptionalScene(OptionalScene::Starting);
        let state = StateView::OptionalSceneRead {
            kind: OptionalScene::Starting,
            record: plan.record,
        };
        let reply = answers(query, state);
        assert(kind_of(reply) == kind_asked(query));
        let turn = resumed(lang, channel, state, reply);
        let message = turn.effects[0]->Send_0;
        let say = EffectView::Send(message);
        match reply->MaybeText_0 {
            Some(scene) => {
                let switch = switch_begins(scene@, plan.record);
                assert(turn == and_then(sends(message), switch));
                lemma_does(lang, channel, say, switch, answers);
                lemma_switch_then_records(lang, channel, scene@, plan.record, answers);
                lemma_records_later(Step::Does(say), run(lang, channel, switch, answers));
            },
            None => {
                assert(turn == and_then(sends(message), record_if(plan.record)));
                lemma_says_then_records(lang, channel, message, plan.record, answers);
            },
        }
        lemma_asks(lang, channel, query, state, answers);
        lemma_records_later(Step::Asks(query), run(lang, channel, turn, answers));
    } else {
        lemma_record_if(lang, channel, plan.record, answers);
    }
}

/// After a start that succeeds the recording is toggled where that is configured, whatever
/// becomes of the starting scene, and only there.
pub proof fn law_recording_follows_start(
    lang: Seq<char>,
    channel: Seq<char>,
    plan: Plan,
    answers: Answers,
)
    requires
        answers_fit(answers),
    ensures
        records(run(lang, channel, started(lang, plan, Some(Ok(()))), answers)) == plan.record,
{
    let say = EffectView::Send(said("start.success"@, lang));
    lemma_after_start_records(lang, channel, plan, answers);
    lemma_does(lang, channel, say, after_start(plan), answers);
    lemma_records_later(Step::Does(say), run(lang, channel, after_start(plan), answers));
}

/// After a stop that succeeds the recording is toggled where that is configured, and only
/// there.
pub proof fn law_recording_follows_stop(
    lang: Seq<char>,
    channel: Seq<char>,
    raid: Option<RaidedInfoView>,
    record: bool,
    answers: Answers,
)
    ensures
        records(run(lang, channel, stopped(lang, raid, record, Some(Ok(()))), answers)) == record,
{
    lemma_says_then_records(lang, channel, said_stopped(lang, raid), record, answers);
}

} // verus!

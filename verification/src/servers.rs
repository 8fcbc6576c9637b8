//! What the stream servers and the broadcasting software tell of the stream.
use vstd::prelude::*;

use crate::error::Error;
use crate::message::DispatchCommand;
use crate::phrase::{
    phrase, phrase0, said, said1, say, say1_text, ArgumentView, Message, MessageView, Phrase,
    PhraseView,
};
use crate::text::{concat3, decimal, decimal_text, join, joined, maybe_text, same_text, texts};
use crate::turn::{
    asks, done, sends, servers_view, Query, QueryView, SoftwareStats, SoftwareStatsView, State,
    StateView, StreamServer, StreamServerView, SwitchType, Turn, TurnView,
};

verus! {

// Sources.
/// A name and what is told under it.
pub open spec fn labelled(name: Seq<char>, info: Seq<char>) -> Seq<char> {
    name + ": "@ + info
}

/// The names of servers.
pub open spec fn names_of(servers: Seq<StreamServerView>) -> Seq<Seq<char>> {
    servers.map_values(|server: StreamServerView| server.name)
}

/// Whether the first server called `name` is the one at `at`.
pub open spec fn first_named(
    servers: Seq<StreamServerView>,
    name: Seq<char>,
    at: int,
) -> bool {
    &&& 0 <= at < servers.len()
    &&& servers[at].name == name
    &&& forall|i: int| 0 <= i < at ==> (#[trigger] servers[i]).name != name
}

/// The place of the first server called `name`, or the number of servers.
pub open spec fn place_of(servers: Seq<StreamServerView>, name: Seq<char>) -> nat
    decreases servers.len(),
{
    if servers.len() == 0 || servers[0].name == name {
        0
    } else {
        1 + place_of(servers.skip(1), name)
    }
}

/// What all servers told of their sources, after those before `index`.
pub open spec fn sources_from(
    lang: Seq<char>,
    names: Seq<Seq<char>>,
    index: nat,
    parts: Seq<Seq<char>>,
) -> TurnView {
    if index < names.len() {
        asks(
            QueryView::SourceInfo(index),
            StateView::SourceListed { names, index, parts },
        )
    } else if parts.len() == 0 {
        sends(said("sourceinfo.noInfo"@, lang))
    } else {
        sends(MessageView::Plain(joined(parts, " - "@)))
    }
}

/// Makes the turn [`sources_from`].
pub fn list_sources(
    lang: &str,
    names: Vec<String>,
    index: usize,
    parts: Vec<String>,
) -> (r: Turn)
    ensures
        r@ == sources_from(lang@, texts(names@), index as nat, texts(parts@)),
{
    if index < names.len() {
        Turn::asks(Query::SourceInfo(index), State::SourceListed { names, index, parts })
    } else if parts.len() == 0 {
        Turn::sends(say("sourceinfo.noInfo", lang))
    } else {
        Turn::sends(Message::Plain(join(&parts, " - ")))
    }
}

/// How it goes on once the servers are known: the one that was asked for by name
/// is asked, or all of them in order.
pub open spec fn source_servers_known(
    lang: Seq<char>,
    name: Option<Seq<char>>,
    servers: Seq<StreamServerView>,
) -> TurnView {
    match name {
        Some(name) => if names_of(servers).contains(name) {
            asks(
                QueryView::SourceInfo(place_of(servers, name)),
                StateView::SourceNamed(name),
            )
        } else {
            sends(said1("sourceinfo.noInfo"@, lang, "name"@, ArgumentView::Text(name)))
        },
        None => sources_from(lang, names_of(servers), 0, Seq::empty()),
    }
}

/// The first server called `name` stands where [`place_of`] says.
pub proof fn lemma_place_of(servers: Seq<StreamServerView>, name: Seq<char>, at: int)
    requires
        first_named(servers, name, at),
    ensures
        place_of(servers, name) == at,
        names_of(servers).contains(name),
    decreases servers.len(),
{
    assert(names_of(servers)[at] == name);
    if at > 0 {
        assert(servers[0].name != name);
        let rest = servers.skip(1);
        assert forall|i: int| 0 <= i < at - 1 implies (#[trigger] rest[i]).name != name by {
            assert(rest[i] == servers[i + 1]);
        }
        lemma_place_of(rest, name, at - 1);
    }
}

/// Finds the first server of this name.
pub fn find_server(servers: &Vec<StreamServer>, name: &str) -> (r: Option<usize>)
    ensures
        match r {
            Some(i) => names_of(servers_view(servers@)).contains(name@) && i == place_of(
                servers_view(servers@),
                name@,
            ),
            None => !names_of(servers_view(servers@)).contains(name@),
        },
{
    let ghost view = servers_view(servers@);
    let mut i: usize = 0;
    while i < servers.len()
        invariant
            i <= servers.len(),
            view == servers_view(servers@),
            forall|j: int| 0 <= j < i ==> (#[trigger] view[j]).name != name@,
        decreases servers.len() - i,
    {
        assert(view[i as int].name == servers@[i as int].name@);
        if same_text(servers[i].name.as_str(), name) {
            proof {
                lemma_place_of(view, name@, i as int);
            }
            return Some(i);
        }
        i += 1;
    }
    assert(!names_of(view).contains(name@)) by {
        if names_of(view).contains(name@) {
            let k = choose|k: int| 0 <= k < names_of(view).len() && names_of(view)[k] == name@;
            assert(view[k].name == name@);
        }
    }
    None
}

/// Makes the turn [`source_servers_known`].
pub fn on_source_servers(
    lang: &str,
    name: Option<String>,
    servers: Vec<StreamServer>,
) -> (r: Turn)
    ensures
        r@ == source_servers_known(lang@, maybe_text(name), servers_view(servers@)),
{
    let ghost view = servers_view(servers@);
    match name {
        Some(name) => match find_server(&servers, name.as_str()) {
            Some(i) => Turn::asks(Query::SourceInfo(i), State::SourceNamed(name)),
            None => Turn::sends(say1_text("sourceinfo.noInfo", lang, "name", name.as_str())),
        },
        None => {
            let mut names: Vec<String> = Vec::new();
            let mut i: usize = 0;
            while i < servers.len()
                invariant
                    i <= servers.len(),
                    view == servers_view(servers@),
                    texts(names@) == names_of(view).take(i as int),
                decreases servers.len() - i,
            {
                let ghost before = texts(names@);
                names.push(servers[i].name.clone());
                proof {
                    assert(texts(names@) =~= before.push(servers@[i as int].name@));
                    assert(names_of(view).take(i + 1) =~= names_of(view).take(i as int).push(
                        names_of(view)[i as int],
                    ));
                }
                i += 1;
            }
            assert(names_of(view).take(i as int) =~= names_of(view));
            let parts: Vec<String> = Vec::new();
            assert(texts(parts@) =~= Seq::empty());
            list_sources(lang, names, 0, parts)
        },
    }
}

/// How it goes on once the named server told of its source, or told nothing.
pub open spec fn named_source_known(
    lang: Seq<char>,
    name: Seq<char>,
    info: Option<Seq<char>>,
) -> TurnView {
    match info {
        Some(info) => sends(MessageView::Plain(labelled(name, info))),
        None => asks(
            QueryView::Translate(said("sourceinfo.noInfo"@, lang)),
            StateView::SourceWorded(name),
        ),
    }
}

/// Makes the turn [`named_source_known`].
pub fn on_named_source(lang: &str, name: String, info: Option<String>) -> (r: Turn)
    ensures
        r@ == named_source_known(lang@, name@, maybe_text(info)),
{
    match info {
        Some(info) => Turn::sends(Message::Plain(concat3(name.as_str(), ": ", info.as_str()))),
        None => Turn::asks(
            Query::Translate(say("sourceinfo.noInfo", lang)),
            State::SourceWorded(name),
        ),
    }
}

/// How it ends with the words for a server that tells nothing.
pub fn on_source_worded(name: String, text: String) -> (r: Turn)
    ensures
        r@ == sends(MessageView::Plain(labelled(name@, text@))),
{
    Turn::sends(Message::Plain(concat3(name.as_str(), ": ", text.as_str())))
}

/// How it goes on once the server at `index` told of its source, or told nothing.
pub open spec fn listed_source_known(
    lang: Seq<char>,
    names: Seq<Seq<char>>,
    index: nat,
    parts: Seq<Seq<char>>,
    info: Option<Seq<char>>,
) -> TurnView {
    if index < names.len() {
        sources_from(
            lang,
            names,
            index + 1,
            match info {
                Some(info) => parts.push(labelled(names[index as int], info)),
                None => parts,
            },
        )
    } else {
        done()
    }
}

/// Makes the turn [`listed_source_known`].
pub fn on_listed_source(
    lang: &str,
    names: Vec<String>,
    index: usize,
    parts: Vec<String>,
    info: Option<String>,
) -> (r: Turn)
    ensures
        r@ == listed_source_known(
            lang@,
            texts(names@),
            index as nat,
            texts(parts@),
            maybe_text(info),
        ),
{
    if index >= names.len() {
        return Turn::done();
    }
    let mut parts = parts;
    if let Some(info) = info {
        let ghost before = parts@;
        let part = concat3(names[index].as_str(), ": ", info.as_str());
        parts.push(part);
        assert(texts(parts@) =~= texts(before).push(part@));
    }
    list_sources(lang, names, index + 1, parts)
}

// The software.
/// How it goes on once it is known whether the state of the stream is.
pub open spec fn stream_status_known(lang: Seq<char>, known: bool) -> TurnView {
    if known {
        asks(QueryView::SoftwareStats, StateView::StatsRead)
    } else {
        sends(said("serverinfo.noInfo"@, lang))
    }
}

/// Makes the turn [`stream_status_known`].
pub fn on_stream_status(lang: &str, known: bool) -> (r: Turn)
    ensures
        r@ == stream_status_known(lang@, known),
{
    if known {
        Turn::asks(Query::SoftwareStats, State::StatsRead)
    } else {
        Turn::sends(say("serverinfo.noInfo", lang))
    }
}

/// A number of frames and their share in percent.
pub open spec fn frames(count: nat, share: Seq<char>) -> Seq<char> {
    decimal(count) + " ("@ + share + "%)"@
}

/// Writes a number of frames and their share in percent.
pub fn frames_text(count: u64, share: &str) -> (r: String)
    ensures
        r@ == frames(count as nat, share@),
{
    concat3(decimal_text(count).as_str(), " (", share).concat("%)")
}

/// The message that tells what the software told of itself, with the share of each kind of
/// frames.
pub open spec fn said_stats(
    lang: Seq<char>,
    stats: SoftwareStatsView,
    shares: Seq<Seq<char>>,
) -> MessageView {
    MessageView::Phrase(
        phrase(
            "serverinfo.success"@,
            lang,
            seq![
                ("fps"@, ArgumentView::Text(stats.fps)),
                ("bitrate"@, ArgumentView::Text(stats.bitrate)),
                (
                    "network"@,
                    ArgumentView::Text(frames(stats.num_dropped_frames as nat, shares[0])),
                ),
                (
                    "rendering"@,
                    ArgumentView::Text(frames(stats.render_missed_frames as nat, shares[1])),
                ),
                (
                    "encoding"@,
                    ArgumentView::Text(frames(stats.output_skipped_frames as nat, shares[2])),
                ),
                ("scene"@, ArgumentView::Text(stats.scene)),
            ],
        ),
    )
}

/// The share that is asked for after `known` others: each kind of frames is a part of its
/// own total.
pub open spec fn share_asked(stats: SoftwareStatsView, known: nat) -> QueryView {
    if known == 0 {
        QueryView::Share { part: stats.num_dropped_frames, whole: stats.num_total_frames }
    } else if known == 1 {
        QueryView::Share { part: stats.render_missed_frames, whole: stats.render_total_frames }
    } else {
        QueryView::Share { part: stats.output_skipped_frames, whole: stats.output_total_frames }
    }
}

/// How it goes on once some of the three shares are known.
pub open spec fn stats_from(
    lang: Seq<char>,
    stats: SoftwareStatsView,
    shares: Seq<Seq<char>>,
) -> TurnView {
    if shares.len() < 3 {
        asks(share_asked(stats, shares.len()), StateView::ShareRead { stats, shares })
    } else {
        sends(said_stats(lang, stats, shares))
    }
}

/// Makes the turn [`stats_from`].
pub fn tell_stats(lang: &str, stats: SoftwareStats, shares: Vec<String>) -> (r: Turn)
    ensures
        r@ == stats_from(lang@, stats@, texts(shares@)),
{
    if shares.len() < 3 {
        let query = if shares.len() == 0 {
            Query::Share { part: stats.num_dropped_frames, whole: stats.num_total_frames }
        } else if shares.len() == 1 {
            Query::Share { part: stats.render_missed_frames, whole: stats.render_total_frames }
        } else {
            Query::Share { part: stats.output_skipped_frames, whole: stats.output_total_frames }
        };
        return Turn::asks(query, State::ShareRead { stats, shares });
    }
    let network = frames_text(stats.num_dropped_frames, shares[0].as_str());
    let rendering = frames_text(stats.render_missed_frames, shares[1].as_str());
    let encoding = frames_text(stats.output_skipped_frames, shares[2].as_str());
    let p = phrase0("serverinfo.success", lang).with_text("fps", stats.fps.as_str()).with_text(
        "bitrate",
        stats.bitrate.as_str(),
    ).with_text("network", network.as_str()).with_text(
        "rendering",
        rendering.as_str(),
    ).with_text("encoding", encoding.as_str()).with_text("scene", stats.scene.as_str());
    assert(p@.args =~= said_stats(lang@, stats@, texts(shares@))->Phrase_0.args);
    Turn::sends(Message::Phrase(p))
}

/// How it goes on once the software told of itself, or did not.
pub open spec fn stats_known(
    lang: Seq<char>,
    stats: Option<Result<SoftwareStats, Error>>,
) -> TurnView {
    match stats {
        None => done(),
        Some(Err(_)) => sends(said("serverinfo.noInfo"@, lang)),
        Some(Ok(stats)) => stats_from(lang, stats@, Seq::empty()),
    }
}

/// Makes the turn [`stats_known`].
pub fn on_stats(lang: &str, stats: Option<Result<SoftwareStats, Error>>) -> (r: Turn)
    ensures
        r@ == stats_known(lang@, stats),
{
    match stats {
        None => Turn::done(),
        Some(Err(_)) => Turn::sends(say("serverinfo.noInfo", lang)),
        Some(Ok(stats)) => {
            let shares: Vec<String> = Vec::new();
            assert(texts(shares@) =~= Seq::empty());
            tell_stats(lang, stats, shares)
        },
    }
}

/// How it goes on once another share is known.
pub fn on_share(lang: &str, stats: SoftwareStats, shares: Vec<String>, share: String) -> (r: Turn)
    ensures
        r@ == stats_from(lang@, stats@, texts(shares@).push(share@)),
{
    let mut known = shares;
    let ghost before = known@;
    let ghost added = share@;
    known.push(share);
    assert(texts(known@) =~= texts(before).push(added));
    tell_stats(lang, stats, known)
}

// Bitrates.
/// The place of the first enabled server from `index` on, or the number of servers.
pub open spec fn next_enabled(servers: Seq<StreamServerView>, index: nat) -> nat
    decreases servers.len() - index,
{
    if index >= servers.len() {
        servers.len()
    } else if servers[index as int].enabled {
        index
    } else {
        next_enabled(servers, index + 1)
    }
}

/// The text that bitrates make, with what stands before them.
pub open spec fn after_text(before: Option<Seq<char>>, text: Seq<char>) -> Seq<char> {
    match before {
        Some(before) => before + " | "@ + text,
        None => text,
    }
}

/// Sends the text that bitrates make, with what stands before them.
pub fn send_after(before: Option<String>, text: String) -> (r: Turn)
    ensures
        r@ == sends(MessageView::Plain(after_text(maybe_text(before), text@))),
{
    match before {
        Some(before) => Turn::sends(
            Message::Plain(concat3(before.as_str(), " | ", text.as_str())),
        ),
        None => Turn::sends(Message::Plain(text)),
    }
}

/// The bitrates of the enabled servers from `index` on, after `message`.
pub open spec fn bitrates_from(
    lang: Seq<char>,
    servers: Seq<StreamServerView>,
    index: nat,
    message: Seq<char>,
    before: Option<Seq<char>>,
) -> TurnView {
    let at = next_enabled(servers, index);
    if at < servers.len() {
        asks(
            QueryView::ServerBitrate(at),
            StateView::BitrateRead { servers, index: at, message, before },
        )
    } else if message.len() == 0 {
        asks(
            QueryView::Translate(said("bitrate.error"@, lang)),
            StateView::BitrateFailed(before),
        )
    } else {
        sends(MessageView::Plain(after_text(before, message)))
    }
}

/// Makes the turn [`bitrates_from`].
pub fn bitrate_msg(
    lang: &str,
    servers: Vec<StreamServer>,
    index: usize,
    message: String,
    before: Option<String>,
) -> (r: Turn)
    ensures
        r@ == bitrates_from(
            lang@,
            servers_view(servers@),
            index as nat,
            message@,
            maybe_text(before),
        ),
{
    let mut at: usize = index;
    while at < servers.len() && !servers[at].enabled
        invariant
            index <= at,
            index < servers.len() ==> at <= servers.len(),
            next_enabled(servers_view(servers@), index as nat) == next_enabled(
                servers_view(servers@),
                at as nat,
            ),
        decreases servers.len() - at,
    {
        assert(servers_view(servers@)[at as int].enabled == servers@[at as int].enabled);
        at += 1;
    }
    if at < servers.len() {
        assert(servers_view(servers@)[at as int].enabled == servers@[at as int].enabled);
        Turn::asks(
            Query::ServerBitrate(at),
            State::BitrateRead { servers, index: at, message, before },
        )
    } else if message.as_str().is_empty() {
        Turn::asks(Query::Translate(say("bitrate.error", lang)), State::BitrateFailed(before))
    } else {
        send_after(before, message)
    }
}

/// The message that tells the bitrate of a server, in the current language.
pub open spec fn said_bitrate(name: Seq<char>, message: Seq<char>) -> MessageView {
    MessageView::Phrase(
        PhraseView {
            key: "bitrate.success"@,
            locale: None,
            args: seq![
                ("name"@, ArgumentView::Text(name)),
                ("message"@, ArgumentView::Text(message)),
            ],
        },
    )
}

/// How it goes on once the server at `index` told of its bitrate, or told nothing.
pub open spec fn bitrate_known(
    lang: Seq<char>,
    servers: Seq<StreamServerView>,
    index: nat,
    message: Seq<char>,
    before: Option<Seq<char>>,
    info: Option<Seq<char>>,
) -> TurnView {
    if index >= servers.len() {
        done()
    } else {
        match info {
            Some(info) => asks(
                QueryView::Translate(said_bitrate(servers[index as int].name, info)),
                StateView::BitrateWorded { servers, index, message, before },
            ),
            None => bitrates_from(lang, servers, index + 1, message, before),
        }
    }
}

/// Makes the turn [`bitrate_known`].
pub fn on_bitrate(
    lang: &str,
    servers: Vec<StreamServer>,
    index: usize,
    message: String,
    before: Option<String>,
    info: Option<String>,
) -> (r: Turn)
    ensures
        r@ == bitrate_known(
            lang@,
            servers_view(servers@),
            index as nat,
            message@,
            maybe_text(before),
            maybe_text(info),
        ),
{
    if index >= servers.len() {
        return Turn::done();
    }
    match info {
        Some(info) => {
            let p = Phrase {
                key: "bitrate.success".to_owned(),
                locale: None,
                args: Vec::new(),
            }.with_text("name", servers[index].name.as_str()).with_text("message", info.as_str());
            proof {
                let name = servers_view(servers@)[index as int].name;
                assert(p@.args =~= seq![
                    ("name"@, ArgumentView::Text(name)),
                    ("message"@, ArgumentView::Text(info@)),
                ]);
            }
            Turn::asks(
                Query::Translate(Message::Phrase(p)),
                State::BitrateWorded { servers, index, message, before },
            )
        },
        None => bitrate_msg(lang, servers, index + 1, message, before),
    }
}

/// The bitrates told so far with another one after them.
pub open spec fn bitrate_appended(message: Seq<char>, text: Seq<char>) -> Seq<char> {
    if message.len() == 0 {
        text
    } else {
        message + " - "@ + text
    }
}

/// How it goes on once the bitrate of the server at `index` is in words.
pub open spec fn bitrate_worded(
    lang: Seq<char>,
    servers: Seq<StreamServerView>,
    index: nat,
    message: Seq<char>,
    before: Option<Seq<char>>,
    text: Seq<char>,
) -> TurnView {
    if index >= servers.len() {
        done()
    } else {
        bitrates_from(lang, servers, index + 1, bitrate_appended(message, text), before)
    }
}

/// Makes the turn [`bitrate_worded`].
pub fn on_bitrate_worded(
    lang: &str,
    servers: Vec<StreamServer>,
    index: usize,
    message: String,
    before: Option<String>,
    text: String,
) -> (r: Turn)
    ensures
        r@ == bitrate_worded(
            lang@,
            servers_view(servers@),
            index as nat,
            message@,
            maybe_text(before),
            text@,
        ),
{
    if index >= servers.len() {
        return Turn::done();
    }
    let message = if message.as_str().is_empty() {
        text
    } else {
        concat3(message.as_str(), " - ", text.as_str())
    };
    bitrate_msg(lang, servers, index + 1, message, before)
}

// Automatic switching.
/// The switcher changed the scene: first that is put in words.
pub open spec fn switch_notice_begins(
    lang: Seq<char>,
    scene: Seq<char>,
    kind: SwitchType,
) -> TurnView {
    asks(
        QueryView::Translate(said1("sceneSwitch.switch"@, lang, "scene"@, ArgumentView::Text(scene))),
        StateView::SwitchWorded(kind),
    )
}

/// Makes the turn [`switch_notice_begins`].
pub fn begin_switch_notice(lang: &str, scene: &str, kind: SwitchType) -> (r: Turn)
    ensures
        r@ == switch_notice_begins(lang@, scene@, kind),
{
    Turn::asks(
        Query::Translate(say1_text("sceneSwitch.switch", lang, "scene", scene)),
        State::SwitchWorded(kind),
    )
}

/// How it goes on with the words for a change of the scene: the bitrates follow
/// where the stream is live.
pub open spec fn switch_worded(kind: SwitchType, text: Seq<char>) -> TurnView {
    match kind {
        SwitchType::Normal | SwitchType::Low => asks(
            QueryView::Servers,
            StateView::BitrateServers(Some(text)),
        ),
        SwitchType::Previous | SwitchType::Offline => sends(MessageView::Plain(text)),
    }
}

/// Makes the turn [`switch_worded`].
pub fn on_switch_worded(kind: SwitchType, text: String) -> (r: Turn)
    ensures
        r@ == switch_worded(kind, text@),
{
    match kind {
        SwitchType::Normal | SwitchType::Low => Turn::asks(
            Query::Servers,
            State::BitrateServers(Some(text)),
        ),
        SwitchType::Previous | SwitchType::Offline => Turn::sends(Message::Plain(text)),
    }
}

impl DispatchCommand {
    /// Tells what a server tells of its source, or what all of them do.
    pub fn source_info(&self, server_name: Option<String>) -> (r: Turn)
        ensures
            r@ == asks(QueryView::Servers, StateView::SourceServers(maybe_text(server_name))),
    {
        Turn::asks(Query::Servers, State::SourceServers(server_name))
    }

    /// Tells what the software tells of itself.
    pub fn server_info(&self) -> (r: Turn)
        ensures
            r@ == asks(QueryView::HasStreamStatus, StateView::StreamStatusRead),
    {
        Turn::asks(Query::HasStreamStatus, State::StreamStatusRead)
    }

    /// Tells the bitrates.
    pub fn bitrate(&self) -> (r: Turn)
        ensures
            r@ == asks(QueryView::Servers, StateView::BitrateServers(None)),
    {
        Turn::asks(Query::Servers, State::BitrateServers(None))
    }
}

} // verus!

//! Scenes and sources of the broadcasting software.
use vstd::prelude::*;

use crate::command::OptionalScene;
use crate::error::{Error, ErrorView};
use crate::message::DispatchCommand;
use crate::phrase::{
    phrase, phrase0, said, said1, said2, say, say1, say1_text, say2_text, Argument, ArgumentView,
    Message, MessageView,
};
use crate::stream::{record_if, record_when};
use crate::text::maybe_text;
use crate::turn::{
    and_then, asks, does, done, sends, Effect, EffectView, Query, QueryView, State, StateView, Turn,
    TurnView,
};

verus! {

/// A call of the broadcasting software, with its own outcome, or without a
/// connection.
pub fn switch_scene(outcome: Option<Result<String, Error>>) -> (r: Result<String, Error>)
    ensures
        match outcome {
            None => r is Err && r->Err_0@ == ErrorView::NoSoftwareSet,
            Some(result) => r == result,
        },
{
    match outcome {
        Some(result) => result,
        None => Err(Error::NoSoftwareSet),
    }
}

/// The same of the call that mutes a source or unmutes it.
pub fn toggle_mute(outcome: Option<Result<(String, bool), Error>>) -> (r: Result<
    (String, bool),
    Error,
>)
    ensures
        match outcome {
            None => r is Err && r->Err_0@ == ErrorView::NoSoftwareSet,
            Some(result) => r == result,
        },
{
    match outcome {
        Some(result) => result,
        None => Err(Error::NoSoftwareSet),
    }
}

/// The same of the call that shows a source or hides it.
pub fn toggle_source(outcome: Option<Result<(String, bool), Error>>) -> (r: Result<
    (String, bool),
    Error,
>)
    ensures
        match outcome {
            None => r is Err && r->Err_0@ == ErrorView::NoSoftwareSet,
            Some(result) => r == result,
        },
{
    match outcome {
        Some(result) => result,
        None => Err(Error::NoSoftwareSet),
    }
}

// Switching.
/// The scene is switched; the recording may follow.
pub open spec fn switch_begins(scene: Seq<char>, record: bool) -> TurnView {
    asks(QueryView::SwitchScene(scene), StateView::Switched { scene, record })
}

/// Makes the turn [`switch_begins`].
pub fn begin_switch(scene: &str, record: bool) -> (r: Turn)
    ensures
        r@ == switch_begins(scene@, record),
{
    Turn::asks(
        Query::SwitchScene(scene.to_owned()),
        State::Switched { scene: scene.to_owned(), record },
    )
}

/// How it goes on once the scene was switched, or was not.
pub open spec fn switched(
    lang: Seq<char>,
    scene: Seq<char>,
    record: bool,
    outcome: Option<Result<String, Error>>,
) -> TurnView {
    and_then(
        sends(
            match outcome {
                Some(Ok(shown)) => said1("switch.success"@, lang, "scene"@, ArgumentView::Text(shown@)),
                _ => said1("switch.error"@, lang, "scene"@, ArgumentView::Text(scene)),
            },
        ),
        record_if(record),
    )
}

/// Makes the turn [`switched`].
pub fn on_switched(
    lang: &str,
    scene: &str,
    record: bool,
    outcome: Option<Result<String, Error>>,
) -> (r: Turn)
    ensures
        r@ == switched(lang@, scene@, record, outcome),
{
    let message = match switch_scene(outcome) {
        Ok(shown) => say1_text("switch.success", lang, "scene", shown.as_str()),
        Err(_) => say1_text("switch.error", lang, "scene", scene),
    };
    Turn::sends(message).and_then(record_when(record))
}

/// How it goes on once the scene for a purpose is known.
pub open spec fn optional_scene_known(
    lang: Seq<char>,
    kind: OptionalScene,
    record: bool,
    scene: Option<Seq<char>>,
) -> TurnView {
    match scene {
        Some(scene) => and_then(
            sends(said1("scene.success"@, lang, "scene"@, ArgumentView::Scene(kind))),
            switch_begins(scene, record),
        ),
        None => and_then(
            sends(said1("scene.error"@, lang, "scene"@, ArgumentView::Scene(kind))),
            record_if(record),
        ),
    }
}

/// Makes the turn [`optional_scene_known`].
pub fn on_optional_scene(
    lang: &str,
    kind: OptionalScene,
    record: bool,
    scene: Option<String>,
) -> (r: Turn)
    ensures
        r@ == optional_scene_known(lang@, kind, record, maybe_text(scene)),
{
    match scene {
        Some(scene) => Turn::sends(
            say1("scene.success", lang, "scene", Argument::Scene(kind)),
        ).and_then(begin_switch(scene.as_str(), record)),
        None => Turn::sends(say1("scene.error", lang, "scene", Argument::Scene(kind))).and_then(
            record_when(record),
        ),
    }
}

/// How it goes on once the live scene is known.
pub open spec fn live_scene_known(lang: Seq<char>, scene: Seq<char>) -> TurnView {
    and_then(
        sends(said1("scene.success"@, lang, "scene"@, ArgumentView::Text("live"@))),
        switch_begins(scene, false),
    )
}

/// Makes the turn [`live_scene_known`].
pub fn on_live_scene(lang: &str, scene: &str) -> (r: Turn)
    ensures
        r@ == live_scene_known(lang@, scene@),
{
    Turn::sends(say1_text("scene.success", lang, "scene", "live")).and_then(
        begin_switch(scene, false),
    )
}

// Sources.
/// How it goes on once a source was muted or unmuted, or was not.
pub open spec fn muted(
    lang: Seq<char>,
    source: Seq<char>,
    outcome: Option<Result<(String, bool), Error>>,
) -> TurnView {
    sends(
        match outcome {
            Some(Ok((name, muted))) => said2(
                "mute.success"@,
                lang,
                "scene"@,
                ArgumentView::Text(name@),
                "muted"@,
                ArgumentView::Text(
                    if muted {
                        "muted"@
                    } else {
                        "unmuted"@
                    },
                ),
            ),
            _ => said1("mute.error"@, lang, "scene"@, ArgumentView::Text(source)),
        },
    )
}

/// Makes the turn [`muted`].
pub fn on_muted(
    lang: &str,
    source: &str,
    outcome: Option<Result<(String, bool), Error>>,
) -> (r: Turn)
    ensures
        r@ == muted(lang@, source@, outcome),
{
    match toggle_mute(outcome) {
        Ok((name, muted)) => {
            let status = if muted {
                "muted"
            } else {
                "unmuted"
            };
            Turn::sends(say2_text("mute.success", lang, "scene", name.as_str(), "muted", status))
        },
        Err(_) => Turn::sends(say1_text("mute.error", lang, "scene", source)),
    }
}

/// How it goes on once a source was shown or hidden, or was not.
pub open spec fn source_toggled(
    lang: Seq<char>,
    source: Seq<char>,
    outcome: Option<Result<(String, bool), Error>>,
) -> TurnView {
    sends(
        match outcome {
            Some(Ok((name, shown))) => MessageView::Nested {
                phrase: phrase("source.success"@, lang, seq![("name"@, ArgumentView::Text(name@))]),
                slot: "status"@,
                inner: phrase(
                    if shown {
                        "source.enabled"@
                    } else {
                        "source.disabled"@
                    },
                    lang,
                    Seq::empty(),
                ),
            },
            _ => said1("source.error"@, lang, "name"@, ArgumentView::Text(source)),
        },
    )
}

/// Makes the turn [`source_toggled`].
pub fn on_source_toggled(
    lang: &str,
    source: &str,
    outcome: Option<Result<(String, bool), Error>>,
) -> (r: Turn)
    ensures
        r@ == source_toggled(lang@, source@, outcome),
{
    match toggle_source(outcome) {
        Ok((name, shown)) => {
            let inner = if shown {
                phrase0("source.enabled", lang)
            } else {
                phrase0("source.disabled", lang)
            };
            let outer = phrase0("source.success", lang).with_text("name", name.as_str());
            assert(outer@.args =~= seq![("name"@, ArgumentView::Text(name@))]);
            Turn::sends(Message::Nested { phrase: outer, slot: "status".to_owned(), inner })
        },
        Err(_) => Turn::sends(say1_text("source.error", lang, "name", source)),
    }
}

// Fixing.
/// The media sources are restarted: first it is asked whether there is a connection.
pub open spec fn fix_begins() -> TurnView {
    asks(QueryView::HasConnection, StateView::FixConnection)
}

/// Makes the turn [`fix_begins`].
pub fn begin_fix() -> (r: Turn)
    ensures
        r@ == fix_begins(),
{
    Turn::asks(Query::HasConnection, State::FixConnection)
}

/// How it goes on once it is known whether there is a connection.
pub open spec fn fix_connection_known(lang: Seq<char>, connected: bool) -> TurnView {
    if connected {
        and_then(sends(said("fix.try"@, lang)), asks(QueryView::Fix, StateView::Fixed))
    } else {
        done()
    }
}

/// Makes the turn [`fix_connection_known`].
pub fn on_fix_connection(lang: &str, connected: bool) -> (r: Turn)
    ensures
        r@ == fix_connection_known(lang@, connected),
{
    if connected {
        Turn::sends(say("fix.try", lang)).and_then(Turn::asks(Query::Fix, State::Fixed))
    } else {
        Turn::done()
    }
}

/// How it goes on once the media sources were restarted, or were not.
pub open spec fn fixed(lang: Seq<char>, outcome: Option<Result<(), Error>>) -> TurnView {
    if outcome is Some && outcome->0 is Ok {
        done()
    } else {
        sends(said("fix.error"@, lang))
    }
}

/// Makes the turn [`fixed`].
pub fn on_fixed(lang: &str, outcome: Option<Result<(), Error>>) -> (r: Turn)
    ensures
        r@ == fixed(lang@, outcome),
{
    match outcome {
        Some(Ok(_)) => Turn::done(),
        _ => Turn::sends(say("fix.error", lang)),
    }
}

// Refreshing.
/// Seconds for which the scene for refreshing is shown.
pub const REFRESH_SECONDS: u64 = 5;

/// How a refresh goes on once its scenes are known. Without a scene for it the
/// media sources are restarted in its place.
pub open spec fn refresh_scenes_known(
    lang: Seq<char>,
    refresh: Option<Seq<char>>,
    current: Seq<char>,
) -> TurnView {
    match refresh {
        None => and_then(sends(said("refresh.noScene"@, lang)), fix_begins()),
        Some(scene) => and_then(
            sends(said("refresh.try"@, lang)),
            asks(QueryView::SwitchScene(scene), StateView::RefreshShown { previous: current }),
        ),
    }
}

/// Makes the turn [`refresh_scenes_known`].
pub fn on_refresh_scenes(lang: &str, refresh: Option<String>, current: String) -> (r: Turn)
    ensures
        r@ == refresh_scenes_known(lang@, maybe_text(refresh), current@),
{
    match refresh {
        None => Turn::sends(say("refresh.noScene", lang)).and_then(begin_fix()),
        Some(scene) => Turn::sends(say("refresh.try", lang)).and_then(
            Turn::asks(Query::SwitchScene(scene), State::RefreshShown { previous: current }),
        ),
    }
}

/// How a refresh goes on once its scene is shown, or is not: some time later the
/// previous scene is shown again.
pub open spec fn refresh_shown(
    lang: Seq<char>,
    previous: Seq<char>,
    outcome: Option<Result<String, Error>>,
) -> TurnView {
    match outcome {
        Some(Ok(_)) => and_then(
            does(EffectView::Sleep(REFRESH_SECONDS)),
            asks(QueryView::SwitchScene(previous), StateView::RefreshRestored),
        ),
        _ => sends(said("refresh.error"@, lang)),
    }
}

/// Makes the turn [`refresh_shown`].
pub fn on_refresh_shown(
    lang: &str,
    previous: String,
    outcome: Option<Result<String, Error>>,
) -> (r: Turn)
    ensures
        r@ == refresh_shown(lang@, previous@, outcome),
{
    match switch_scene(outcome) {
        Ok(_) => Turn::does(Effect::Sleep(REFRESH_SECONDS)).and_then(
            Turn::asks(Query::SwitchScene(previous), State::RefreshRestored),
        ),
        Err(_) => Turn::sends(say("refresh.error", lang)),
    }
}

/// How a refresh ends.
pub open spec fn refresh_restored(
    lang: Seq<char>,
    outcome: Option<Result<String, Error>>,
) -> TurnView {
    match outcome {
        Some(Ok(_)) => sends(said("refresh.success"@, lang)),
        _ => sends(said("refresh.error"@, lang)),
    }
}

/// Makes the turn [`refresh_restored`].
pub fn on_refresh_restored(lang: &str, outcome: Option<Result<String, Error>>) -> (r: Turn)
    ensures
        r@ == refresh_restored(lang@, outcome),
{
    match switch_scene(outcome) {
        Ok(_) => Turn::sends(say("refresh.success", lang)),
        Err(_) => Turn::sends(say("refresh.error", lang)),
    }
}

/// What is muted where nothing is named.
pub open spec fn mute_target(source: Option<Seq<char>>) -> Seq<char> {
    match source {
        Some(name) => name,
        None => "belabox"@,
    }
}

impl DispatchCommand {
    /// Switches to the scene of this name.
    pub fn switch(&self, name: Option<String>) -> (r: Turn)
        ensures
            r@ == match maybe_text(name) {
                Some(scene) => switch_begins(scene, false),
                None => sends(said("switch.noParams"@, self.lang@)),
            },
    {
        match name {
            Some(name) => begin_switch(name.as_str(), false),
            None => Turn::sends(say("switch.noParams", self.lang.as_str())),
        }
    }

    /// Mutes the source of this name, or unmutes it.
    pub fn mute(&self, scene: Option<String>) -> (r: Turn)
        ensures
            r@ == asks(
                QueryView::ToggleMute(mute_target(maybe_text(scene))),
                StateView::Muted(mute_target(maybe_text(scene))),
            ),
    {
        let name = match scene {
            Some(name) => name,
            None => "belabox".to_owned(),
        };
        Turn::asks(Query::ToggleMute(name.clone()), State::Muted(name))
    }

    /// Shows the source of this name, or hides it.
    pub fn source(&self, name: Option<String>) -> (r: Turn)
        ensures
            r@ == match maybe_text(name) {
                Some(source) => asks(
                    QueryView::ToggleSource(source),
                    StateView::SourceToggled(source),
                ),
                None => sends(said("source.noParams"@, self.lang@)),
            },
    {
        match name {
            Some(name) => Turn::asks(Query::ToggleSource(name.clone()), State::SourceToggled(name)),
            None => Turn::sends(say("source.noParams", self.lang.as_str())),
        }
    }

    /// Switches to the scene that is configured for a purpose.
    pub fn switch_optional_scene(&self, scene_name: OptionalScene) -> (r: Turn)
        ensures
            r@ == asks(
                QueryView::OptionalScene(scene_name),
                StateView::OptionalSceneRead { kind: scene_name, record: false },
            ),
    {
        Turn::asks(
            Query::OptionalScene(scene_name),
            State::OptionalSceneRead { kind: scene_name, record: false },
        )
    }

    /// Switches to the scene that the switcher shows when all is well.
    pub fn live_scene(&self) -> (r: Turn)
        ensures
            r@ == asks(QueryView::NormalScene, StateView::LiveSceneRead),
    {
        Turn::asks(Query::NormalScene, State::LiveSceneRead)
    }

    /// Restarts the media sources.
    pub fn fix(&self) -> (r: Turn)
        ensures
            r@ == fix_begins(),
    {
        begin_fix()
    }

    /// Shows the scene for refreshing for a while.
    pub fn refresh(&self) -> (r: Turn)
        ensures
            r@ == asks(QueryView::RefreshScenes, StateView::RefreshScenes),
    {
        Turn::asks(Query::RefreshScenes, State::RefreshScenes)
    }
}

} // verus!

//! Settings that chat can read and change.
use vstd::prelude::*;
use vstd::utf8::is_ascii_chars;

use crate::error::Error;
use crate::message::DispatchCommand;
use crate::phrase::{
    said, said1, said_condition, say, say1_text, say_condition, ArgumentView, Message, MessageView,
};
use crate::text::{
    ascii_lower, concat2, concat3, decimal, decimal_text, lowercase, maybe_text, number_up_to,
    parse_number, same_text, to_lowercase,
};
use crate::turn::{
    and_then, asks, does, done, sends, Effect, EffectView, Query, QueryView, State, StateView,
    Toggle, TriggerType, Turn, TurnView,
};

verus! {

// On and off.
/// What a word in lower case says: on, off, or neither.
pub open spec fn flag_of(word: Seq<char>) -> Option<bool> {
    if word == "on"@ {
        Some(true)
    } else if word == "off"@ {
        Some(false)
    } else {
        None
    }
}

/// Whether `r` is what [`flag_of`] says of a word.
pub open spec fn is_flag(r: Result<bool, Error>, word: Seq<char>) -> bool {
    match flag_of(word) {
        Some(b) => r == Ok::<bool, Error>(b),
        None => r == Err::<bool, Error>(Error::EnabledToBoolConversionError),
    }
}

/// Reads a word in lower case as on or off.
pub fn flag_word(lower: &str) -> (r: Result<bool, Error>)
    ensures
        is_flag(r, lower@),
{
    proof {
        reveal_strlit("on");
        reveal_strlit("off");
    }
    if same_text(lower, "on") {
        return Ok(true);
    }
    if same_text(lower, "off") {
        return Ok(false);
    }
    Err(Error::EnabledToBoolConversionError)
}

/// Reads a word, in lower or upper case, as on or off.
pub fn enabled_to_bool(enabled: &str) -> (r: Result<bool, Error>)
    ensures
        is_flag(r, lowercase(enabled@)),
        is_ascii_chars(enabled@) ==> is_flag(r, enabled@.map_values(|c: char| ascii_lower(c))),
{
    flag_word(to_lowercase(enabled).as_str())
}

/// The key of the phrase that tells of a setting.
pub open spec fn toggle_key(toggle: Toggle) -> Seq<char> {
    match toggle {
        Toggle::Notify => "handleCommands.notify"@,
        Toggle::Autostop => "handleCommands.autostop"@,
        Toggle::Mod => "handleCommands.mod"@,
        Toggle::Public => "handleCommands.public"@,
    }
}

/// A setting is changed, where the new value is known, and then told.
pub open spec fn toggle_begins(toggle: Toggle, value: Option<bool>) -> TurnView {
    let told = asks(QueryView::IsOn(toggle), StateView::ToggleRead(toggle));
    match value {
        Some(b) => and_then(
            and_then(does(EffectView::SetToggle(toggle, b)), does(EffectView::SaveConfig)),
            told,
        ),
        None => told,
    }
}

/// Makes the turn [`toggle_begins`].
pub fn begin_toggle(toggle: Toggle, value: Option<bool>) -> (r: Turn)
    ensures
        r@ == toggle_begins(toggle, value),
{
    let told = Turn::asks(Query::IsOn(toggle), State::ToggleRead(toggle));
    match value {
        Some(b) => Turn::does(Effect::SetToggle(toggle, b)).and_then(
            Turn::does(Effect::SaveConfig),
        ).and_then(told),
        None => told,
    }
}

/// The value that an optional word, in lower or upper case, asks for.
pub open spec fn asked_value(word: Option<Seq<char>>) -> Option<bool> {
    match word {
        Some(word) => flag_of(lowercase(word)),
        None => None,
    }
}

/// Computes [`asked_value`].
pub fn requested_value(word: Option<String>) -> (r: Option<bool>)
    ensures
        r == asked_value(maybe_text(word)),
{
    match word {
        Some(word) => match enabled_to_bool(word.as_str()) {
            Ok(b) => Some(b),
            Err(_) => None,
        },
        None => None,
    }
}

/// How it goes on once it is known whether the setting is on.
pub open spec fn toggle_known(lang: Seq<char>, toggle: Toggle, on: bool) -> TurnView {
    sends(said_condition(toggle_key(toggle), lang, on))
}

/// Makes the turn [`toggle_known`].
pub fn on_toggle(lang: &str, toggle: Toggle, on: bool) -> (r: Turn)
    ensures
        r@ == toggle_known(lang@, toggle, on),
{
    let key = match toggle {
        Toggle::Notify => "handleCommands.notify",
        Toggle::Autostop => "handleCommands.autostop",
        Toggle::Mod => "handleCommands.mod",
        Toggle::Public => "handleCommands.public",
    };
    Turn::sends(say_condition(key, lang, on))
}

// Thresholds.
/// The unit of a threshold.
pub open spec fn unit_of(kind: TriggerType) -> Seq<char> {
    match kind {
        TriggerType::Low | TriggerType::Offline => "Kbps"@,
        TriggerType::Rtt | TriggerType::RttOffline => "ms"@,
    }
}

/// A threshold with its unit.
pub open spec fn measure(kind: TriggerType, value: nat) -> Seq<char> {
    decimal(value) + " "@ + unit_of(kind)
}

/// Writes a threshold with its unit.
pub fn measure_text(kind: TriggerType, value: u32) -> (r: String)
    ensures
        r@ == measure(kind, value as nat),
{
    let symbol = match kind {
        TriggerType::Low | TriggerType::Offline => "Kbps",
        TriggerType::Rtt | TriggerType::RttOffline => "ms",
    };
    concat3(decimal_text(value as u64).as_str(), " ", symbol)
}

/// A threshold is told, or moved to the number that a word denotes.
pub open spec fn trigger_begins(
    lang: Seq<char>,
    kind: TriggerType,
    word: Option<Seq<char>>,
) -> TurnView {
    match word {
        None => asks(QueryView::GetTrigger(kind), StateView::TriggerRead(kind)),
        Some(word) => match number_up_to(word, u32::MAX as nat) {
            Some(n) => asks(
                QueryView::UpdateTrigger(kind, n as u32),
                StateView::TriggerUpdated(kind, n as u32),
            ),
            None => sends(said1("trigger.error"@, lang, "number"@, ArgumentView::Text(word))),
        },
    }
}

/// How it goes on once the threshold is known.
pub open spec fn trigger_known(
    lang: Seq<char>,
    kind: TriggerType,
    value: Option<u32>,
) -> TurnView {
    sends(
        match value {
            Some(n) => said1(
                "trigger.current"@,
                lang,
                "number"@,
                ArgumentView::Text(measure(kind, n as nat)),
            ),
            None => said("trigger.disabled"@, lang),
        },
    )
}

/// Makes the turn [`trigger_known`].
pub fn on_trigger(lang: &str, kind: TriggerType, value: Option<u32>) -> (r: Turn)
    ensures
        r@ == trigger_known(lang@, kind, value),
{
    match value {
        Some(n) => {
            let number = measure_text(kind, n);
            Turn::sends(say1_text("trigger.current", lang, "number", number.as_str()))
        },
        None => Turn::sends(say("trigger.disabled", lang)),
    }
}

/// How it goes on once the threshold was moved to `asked`.
pub open spec fn trigger_updated(
    lang: Seq<char>,
    kind: TriggerType,
    asked: u32,
    value: Option<u32>,
) -> TurnView {
    and_then(
        does(EffectView::SaveConfig),
        sends(
            match value {
                Some(n) => said1(
                    "trigger.success"@,
                    lang,
                    "number"@,
                    ArgumentView::Text(measure(kind, n as nat)),
                ),
                None => said1(
                    "trigger.successDisabled"@,
                    lang,
                    "number"@,
                    ArgumentView::Text(decimal(asked as nat)),
                ),
            },
        ),
    )
}

/// Makes the turn [`trigger_updated`].
pub fn on_trigger_updated(
    lang: &str,
    kind: TriggerType,
    asked: u32,
    value: Option<u32>,
) -> (r: Turn)
    ensures
        r@ == trigger_updated(lang@, kind, asked, value),
{
    let message = match value {
        Some(n) => {
            let number = measure_text(kind, n);
            say1_text("trigger.success", lang, "number", number.as_str())
        },
        None => {
            let number = decimal_text(asked as u64);
            say1_text("trigger.successDisabled", lang, "number", number.as_str())
        },
    };
    Turn::does(Effect::SaveConfig).and_then(Turn::sends(message))
}

// Messages that are sent unless their words are empty.
/// The message is put in words, to be sent unless they are empty.
pub open spec fn worded(message: MessageView) -> TurnView {
    asks(QueryView::Translate(message), StateView::Worded)
}

/// Makes the turn [`worded`].
pub fn put_in_words(message: Message) -> (r: Turn)
    ensures
        r@ == worded(message@),
{
    Turn::asks(Query::Translate(message), State::Worded)
}

/// How it goes on once the words are known.
pub open spec fn words_known(text: Seq<char>) -> TurnView {
    if text.len() == 0 {
        done()
    } else {
        sends(MessageView::Plain(text))
    }
}

/// Makes the turn [`words_known`].
pub fn on_words(text: String) -> (r: Turn)
    ensures
        r@ == words_known(text@),
{
    if text.as_str().is_empty() {
        Turn::done()
    } else {
        Turn::sends(Message::Plain(text))
    }
}

// How often the switcher looks again.
/// The number of attempts is told, or changed to the number that a word denotes.
pub open spec fn retry_begins(lang: Seq<char>, word: Option<Seq<char>>) -> TurnView {
    match word {
        None => asks(QueryView::GetRetryAttempts, StateView::RetryRead),
        Some(word) => match number_up_to(word, u8::MAX as nat) {
            Some(n) => and_then(
                and_then(
                    does(EffectView::SetRetryAttempts(n as u8)),
                    does(EffectView::SaveConfig),
                ),
                worded(
                    said1("noalbs.retrySuccess"@, lang, "count"@, ArgumentView::Text(decimal(n))),
                ),
            ),
            None => worded(said1("noalbs.retryError"@, lang, "count"@, ArgumentView::Text(word))),
        },
    }
}

/// How it goes on once the number of attempts is known.
pub open spec fn retry_known(lang: Seq<char>, attempts: u8) -> TurnView {
    worded(said1("noalbs.retryCount"@, lang, "count"@, ArgumentView::Text(decimal(attempts as nat))))
}

/// Makes the turn [`retry_known`].
pub fn on_retry(lang: &str, attempts: u8) -> (r: Turn)
    ensures
        r@ == retry_known(lang@, attempts),
{
    let count = decimal_text(attempts as u64);
    put_in_words(say1_text("noalbs.retryCount", lang, "count", count.as_str()))
}

// The helper itself.
/// The message that tells the version.
pub open spec fn said_version(version: Seq<char>) -> MessageView {
    MessageView::Plain("Running NOALBS v"@ + version)
}

/// The message that tells the new prefix.
pub open spec fn said_prefix(prefix: Seq<char>) -> MessageView {
    MessageView::Plain("NOALBS prefix updated to "@ + prefix)
}

/// The command `noalbs`, with the two words after it.
pub open spec fn noalbs_begins(
    lang: Seq<char>,
    version: Seq<char>,
    command: Option<Seq<char>>,
    arg: Option<Seq<char>>,
) -> TurnView {
    match command {
        None => done(),
        Some(command) => if command == "version"@ {
            sends(said_version(version))
        } else if command == "prefix"@ {
            match arg {
                Some(prefix) => and_then(
                    and_then(
                        and_then(
                            does(EffectView::SetPrefix(prefix)),
                            does(EffectView::SaveConfig),
                        ),
                        does(EffectView::PrefixChanged(prefix)),
                    ),
                    sends(said_prefix(prefix)),
                ),
                None => sends(MessageView::Plain("Can't update NOALBS prefix"@)),
            }
        } else if command == "start"@ {
            and_then(
                and_then(does(EffectView::SetSwitcher(true)), does(EffectView::SaveConfig)),
                worded(said("noalbs.switcherEnabled"@, lang)),
            )
        } else if command == "stop"@ {
            and_then(
                and_then(does(EffectView::SetSwitcher(false)), does(EffectView::SaveConfig)),
                worded(said("noalbs.switcherDisabled"@, lang)),
            )
        } else if command == "instant"@ {
            asks(QueryView::ToggleInstantRecover, StateView::InstantToggled)
        } else if command == "lang"@ {
            match arg {
                Some(name) => asks(
                    QueryView::ParseLanguage(name),
                    StateView::LanguageParsed(name),
                ),
                None => worded(said("noalbs.langError"@, lang)),
            }
        } else if command == "retry"@ {
            retry_begins(lang, arg)
        } else {
            done()
        },
    }
}

/// How it goes on once instant switching was turned on or off.
pub open spec fn instant_toggled(lang: Seq<char>, on: bool) -> TurnView {
    and_then(
        does(EffectView::SaveConfig),
        worded(said_condition("noalbs.instantSwitch"@, lang, on)),
    )
}

/// Makes the turn [`instant_toggled`].
pub fn on_instant_toggled(lang: &str, on: bool) -> (r: Turn)
    ensures
        r@ == instant_toggled(lang@, on),
{
    Turn::does(Effect::SaveConfig).and_then(
        put_in_words(say_condition("noalbs.instantSwitch", lang, on)),
    )
}

/// How it goes on once it is known whether `name` names a language. It does so in
/// lower or upper case, and the success is told in the new language, whose own
/// name `locale` is in lower case.
pub open spec fn language_parsed(
    lang: Seq<char>,
    name: Seq<char>,
    locale: Seq<char>,
    valid: bool,
) -> TurnView {
    if valid {
        and_then(
            and_then(does(EffectView::SetChatLanguage(name)), does(EffectView::SaveConfig)),
            worded(said1("noalbs.langSuccess"@, locale, "lang"@, ArgumentView::Text(name))),
        )
    } else {
        worded(said1("noalbs.langErrorInvalid"@, lang, "lang"@, ArgumentView::Text(name)))
    }
}

/// Makes the turn [`language_parsed`] where the name in lower case is known.
pub fn language_named(lang: &str, name: String, locale: &str, valid: bool) -> (r: Turn)
    ensures
        r@ == language_parsed(lang@, name@, locale@, valid),
{
    if valid {
        let message = say1_text("noalbs.langSuccess", locale, "lang", name.as_str());
        Turn::does(Effect::SetChatLanguage(name)).and_then(
            Turn::does(Effect::SaveConfig),
        ).and_then(put_in_words(message))
    } else {
        put_in_words(say1_text("noalbs.langErrorInvalid", lang, "lang", name.as_str()))
    }
}

/// Makes the turn [`language_parsed`].
pub fn on_language_parsed(lang: &str, name: String, valid: bool) -> (r: Turn)
    ensures
        r@ == language_parsed(lang@, name@, lowercase(name@), valid),
{
    let locale = to_lowercase(name.as_str());
    language_named(lang, name, locale.as_str(), valid)
}

impl DispatchCommand {
    /// Tells whether chat is notified of scene switches, after a change.
    pub fn notify(&self, enabled: Option<String>) -> (r: Turn)
        ensures
            r@ == toggle_begins(Toggle::Notify, asked_value(maybe_text(enabled))),
    {
        begin_toggle(Toggle::Notify, requested_value(enabled))
    }

    /// Tells whether the stream stops with a raid, after a change.
    pub fn autostop(&self, enabled: Option<String>) -> (r: Turn)
        ensures
            r@ == toggle_begins(Toggle::Autostop, asked_value(maybe_text(enabled))),
    {
        begin_toggle(Toggle::Autostop, requested_value(enabled))
    }

    /// Tells whether moderators may use commands, after a change.
    pub fn enable_mod(&self, enabled: Option<String>) -> (r: Turn)
        ensures
            r@ == toggle_begins(Toggle::Mod, asked_value(maybe_text(enabled))),
    {
        begin_toggle(Toggle::Mod, requested_value(enabled))
    }

    /// Tells whether everybody may use commands, after a change.
    pub fn enable_public(&self, enabled: Option<String>) -> (r: Turn)
        ensures
            r@ == toggle_begins(Toggle::Public, asked_value(maybe_text(enabled))),
    {
        begin_toggle(Toggle::Public, requested_value(enabled))
    }

    /// Tells a threshold, or moves it.
    pub fn trigger(&self, kind: TriggerType, value_string: Option<String>) -> (r: Turn)
        ensures
            r@ == trigger_begins(self.lang@, kind, maybe_text(value_string)),
    {
        match value_string {
            None => Turn::asks(Query::GetTrigger(kind), State::TriggerRead(kind)),
            Some(word) => match parse_number(word.as_str(), u32::MAX as u64) {
                Some(n) => Turn::asks(
                    Query::UpdateTrigger(kind, n as u32),
                    State::TriggerUpdated(kind, n as u32),
                ),
                None => Turn::sends(
                    say1_text("trigger.error", self.lang.as_str(), "number", word.as_str()),
                ),
            },
        }
    }

    /// Tells how often the switcher looks again before it acts, or changes it.
    pub fn set_retry_attempts(&self, value_string: Option<String>) -> (r: Turn)
        ensures
            r@ == retry_begins(self.lang@, maybe_text(value_string)),
    {
        match value_string {
            None => Turn::asks(Query::GetRetryAttempts, State::RetryRead),
            Some(word) => match parse_number(word.as_str(), u8::MAX as u64) {
                Some(n) => {
                    let count = decimal_text(n);
                    let message = say1_text(
                        "noalbs.retrySuccess",
                        self.lang.as_str(),
                        "count",
                        count.as_str(),
                    );
                    Turn::does(Effect::SetRetryAttempts(n as u8)).and_then(
                        Turn::does(Effect::SaveConfig),
                    ).and_then(put_in_words(message))
                },
                None => put_in_words(
                    say1_text("noalbs.retryError", self.lang.as_str(), "count", word.as_str()),
                ),
            },
        }
    }

    /// Tells the version.
    pub fn version(&self) -> (r: Turn)
        ensures
            r@ == sends(said_version(self.version@)),
    {
        Turn::sends(Message::Plain(concat2("Running NOALBS v", self.version.as_str())))
    }

    /// Reads and changes the helper itself.
    pub fn noalbs(&self, command: Option<String>, arg: Option<String>) -> (r: Turn)
        ensures
            r@ == noalbs_begins(self.lang@, self.version@, maybe_text(command), maybe_text(arg)),
    {
        let command = match command {
            Some(command) => command,
            None => return Turn::done(),
        };
        let word = command.as_str();
        let lang = self.lang.as_str();
        if same_text(word, "version") {
            self.version()
        } else if same_text(word, "prefix") {
            match arg {
                Some(prefix) => {
                    let text = concat2("NOALBS prefix updated to ", prefix.as_str());
                    Turn::does(Effect::SetPrefix(prefix.clone())).and_then(
                        Turn::does(Effect::SaveConfig),
                    ).and_then(Turn::does(Effect::PrefixChanged(prefix))).and_then(
                        Turn::sends(Message::Plain(text)),
                    )
                },
                None => Turn::sends(Message::Plain("Can't update NOALBS prefix".to_owned())),
            }
        } else if same_text(word, "start") {
            Turn::does(Effect::SetSwitcher(true)).and_then(
                Turn::does(Effect::SaveConfig),
            ).and_then(put_in_words(say("noalbs.switcherEnabled", lang)))
        } else if same_text(word, "stop") {
            Turn::does(Effect::SetSwitcher(false)).and_then(
                Turn::does(Effect::SaveConfig),
            ).and_then(put_in_words(say("noalbs.switcherDisabled", lang)))
        } else if same_text(word, "instant") {
            Turn::asks(Query::ToggleInstantRecover, State::InstantToggled)
        } else if same_text(word, "lang") {
            match arg {
                Some(name) => Turn::asks(
                    Query::ParseLanguage(name.clone()),
                    State::LanguageParsed(name),
                ),
                None => put_in_words(say("noalbs.langError", lang)),
            }
        } else if same_text(word, "retry") {
            self.set_retry_attempts(arg)
        } else {
            Turn::done()
        }
    }
}

} // verus!

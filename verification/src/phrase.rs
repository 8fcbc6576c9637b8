//! What is said in chat: ready text, or phrases that are translated when sent.
use vstd::prelude::*;

use crate::command::OptionalScene;
use crate::error::{Error, ErrorView};
use crate::text::{concat3, maybe_text, replace_all, replaced};

verus! {

/// The value of an argument of a phrase.
#[derive(Debug, PartialEq, Eq)]
pub enum Argument {
    Text(String),
    /// The name of an optional scene.
    Scene(OptionalScene),
    /// The description of an error.
    Error(Error),
}

/// An [`Argument`] with its texts as characters.
pub enum ArgumentView {
    Text(Seq<char>),
    Scene(OptionalScene),
    Error(ErrorView),
}

impl View for Argument {
    type V = ArgumentView;

    open spec fn view(&self) -> ArgumentView {
        match self {
            Argument::Text(s) => ArgumentView::Text(s@),
            Argument::Scene(scene) => ArgumentView::Scene(*scene),
            Argument::Error(e) => ArgumentView::Error(e@),
        }
    }
}

/// An entry of the translations, by its key, with the values of its arguments.
#[derive(Debug, PartialEq, Eq)]
pub struct Phrase {
    pub key: String,
    /// The language, or none for the one that is current in the process.
    pub locale: Option<String>,
    pub args: Vec<(String, Argument)>,
}

/// A [`Phrase`] with its texts as characters.
pub struct PhraseView {
    pub key: Seq<char>,
    pub locale: Option<Seq<char>>,
    pub args: Seq<(Seq<char>, ArgumentView)>,
}

impl View for Phrase {
    type V = PhraseView;

    open spec fn view(&self) -> PhraseView {
        PhraseView {
            key: self.key@,
            locale: maybe_text(self.locale),
            args: self.args@.map_values(|arg: (String, Argument)| (arg.0@, arg.1@)),
        }
    }
}

/// What is said in chat.
#[derive(Debug, PartialEq, Eq)]
pub enum Message {
    Plain(String),
    Phrase(Phrase),
    /// A phrase that has the translation of another as its argument `slot`.
    Nested { phrase: Phrase, slot: String, inner: Phrase },
}

/// A [`Message`] with its texts as characters.
pub enum MessageView {
    Plain(Seq<char>),
    Phrase(PhraseView),
    Nested { phrase: PhraseView, slot: Seq<char>, inner: PhraseView },
}

impl View for Message {
    type V = MessageView;

    open spec fn view(&self) -> MessageView {
        match self {
            Message::Plain(s) => MessageView::Plain(s@),
            Message::Phrase(p) => MessageView::Phrase(p@),
            Message::Nested { phrase, slot, inner } => MessageView::Nested {
                phrase: phrase@,
                slot: slot@,
                inner: inner@,
            },
        }
    }
}

/// The phrase `key` in the language `lang`, with the given arguments.
pub open spec fn phrase(
    key: Seq<char>,
    lang: Seq<char>,
    args: Seq<(Seq<char>, ArgumentView)>,
) -> PhraseView {
    PhraseView { key, locale: Some(lang), args }
}

/// The message that is the phrase `key` without arguments.
pub open spec fn said(key: Seq<char>, lang: Seq<char>) -> MessageView {
    MessageView::Phrase(phrase(key, lang, Seq::empty()))
}

/// The message that is the phrase `key` with one argument.
pub open spec fn said1(
    key: Seq<char>,
    lang: Seq<char>,
    name: Seq<char>,
    value: ArgumentView,
) -> MessageView {
    MessageView::Phrase(phrase(key, lang, seq![(name, value)]))
}

/// The message that is the phrase `key` with two arguments.
pub open spec fn said2(
    key: Seq<char>,
    lang: Seq<char>,
    name1: Seq<char>,
    value1: ArgumentView,
    name2: Seq<char>,
    value2: ArgumentView,
) -> MessageView {
    MessageView::Phrase(phrase(key, lang, seq![(name1, value1), (name2, value2)]))
}

/// A phrase without arguments.
pub fn phrase0(key: &str, lang: &str) -> (r: Phrase)
    ensures
        r@ == phrase(key@, lang@, Seq::empty()),
{
    let r = Phrase { key: key.to_owned(), locale: Some(lang.to_owned()), args: Vec::new() };
    assert(r@.args =~= Seq::empty());
    r
}

/// Makes the message [`said`].
pub fn say(key: &str, lang: &str) -> (r: Message)
    ensures
        r@ == said(key@, lang@),
{
    Message::Phrase(phrase0(key, lang))
}

impl Phrase {
    /// The phrase with one more argument.
    pub fn with(self, name: &str, value: Argument) -> (r: Phrase)
        ensures
            r@ == (PhraseView { args: self@.args.push((name@, value@)), ..self@ }),
    {
        let mut p = self;
        let ghost v = value@;
        p.args.push((name.to_owned(), value));
        assert(p@.args =~= self@.args.push((name@, v)));
        p
    }

    /// The phrase with one more argument, a text.
    pub fn with_text(self, name: &str, value: &str) -> (r: Phrase)
        ensures
            r@ == (PhraseView {
                args: self@.args.push((name@, ArgumentView::Text(value@))),
                ..self@
            }),
    {
        self.with(name, Argument::Text(value.to_owned()))
    }
}

/// Makes the message [`said1`].
pub fn say1(key: &str, lang: &str, name: &str, value: Argument) -> (r: Message)
    ensures
        r@ == said1(key@, lang@, name@, value@),
{
    let ghost v = value@;
    let p = phrase0(key, lang).with(name, value);
    assert(p@.args =~= seq![(name@, v)]);
    Message::Phrase(p)
}

/// Makes the message [`said1`] of a text.
pub fn say1_text(key: &str, lang: &str, name: &str, value: &str) -> (r: Message)
    ensures
        r@ == said1(key@, lang@, name@, ArgumentView::Text(value@)),
{
    say1(key, lang, name, Argument::Text(value.to_owned()))
}

/// Makes the message [`said2`] of two texts.
pub fn say2_text(
    key: &str,
    lang: &str,
    name1: &str,
    value1: &str,
    name2: &str,
    value2: &str,
) -> (r: Message)
    ensures
        r@ == said2(
            key@,
            lang@,
            name1@,
            ArgumentView::Text(value1@),
            name2@,
            ArgumentView::Text(value2@),
        ),
{
    let p = phrase0(key, lang).with_text(name1, value1).with_text(name2, value2);
    assert(p@.args =~= seq![
        (name1@, ArgumentView::Text(value1@)),
        (name2@, ArgumentView::Text(value2@)),
    ]);
    Message::Phrase(p)
}

/// The phrase for a setting that is on or off.
pub open spec fn condition_phrase(condition: bool, lang: Seq<char>) -> PhraseView {
    phrase(
        if condition {
            "handleCommands.enabled"@
        } else {
            "handleCommands.disabled"@
        },
        lang,
        Seq::empty(),
    )
}

/// Makes the phrase for a setting that is on or off.
pub fn condition_to_text(condition: bool, lang: &str) -> (r: Phrase)
    ensures
        r@ == condition_phrase(condition, lang@),
{
    if condition {
        phrase0("handleCommands.enabled", lang)
    } else {
        phrase0("handleCommands.disabled", lang)
    }
}

/// The message that the setting which `key` speaks of is on or off.
pub open spec fn said_condition(key: Seq<char>, lang: Seq<char>, condition: bool) -> MessageView {
    MessageView::Nested {
        phrase: phrase(key, lang, Seq::empty()),
        slot: "condition"@,
        inner: condition_phrase(condition, lang),
    }
}

/// Makes the message [`said_condition`].
pub fn say_condition(key: &str, lang: &str, condition: bool) -> (r: Message)
    ensures
        r@ == said_condition(key@, lang@, condition),
{
    Message::Nested {
        phrase: phrase0(key, lang),
        slot: "condition".to_owned(),
        inner: condition_to_text(condition, lang),
    }
}

/// A template with its placeholders `%{name}` replaced by the values of the
/// arguments, one argument after the other.
pub open spec fn filled(template: Seq<char>, args: Seq<(Seq<char>, Seq<char>)>) -> Seq<char>
    decreases args.len(),
{
    if args.len() == 0 {
        template
    } else {
        replaced(
            filled(template, args.drop_last()),
            "%{"@ + args.last().0 + "}"@,
            args.last().1,
        )
    }
}

/// Arguments as characters.
pub open spec fn args_view(args: Seq<(String, String)>) -> Seq<(Seq<char>, Seq<char>)> {
    args.map_values(|arg: (String, String)| (arg.0@, arg.1@))
}

/// Computes [`filled`].
pub fn fill(template: &str, args: &Vec<(String, String)>) -> (r: String)
    ensures
        r@ == filled(template@, args_view(args@)),
{
    let mut out = template.to_owned();
    let mut i: usize = 0;
    let ghost view = args_view(args@);
    assert(view.take(0) =~= Seq::empty());
    while i < args.len()
        invariant
            i <= args.len(),
            view == args_view(args@),
            out@ == filled(template@, view.take(i as int)),
        decreases args.len() - i,
    {
        let holder = concat3("%{", args[i].0.as_str(), "}");
        proof {
            reveal_strlit("}");
            assert(view.take(i + 1).drop_last() =~= view.take(i as int));
            assert(view.take(i + 1).last() == view[i as int]);
        }
        out = replace_all(out.as_str(), holder.as_str(), args[i].1.as_str());
        i += 1;
    }
    assert(view.take(i as int) =~= view);
    out
}

} // verus!

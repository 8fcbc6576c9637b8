//! Changing between scene collections.
use vstd::prelude::*;

use crate::command::maybe_texts;
use crate::error::Error;
use crate::message::DispatchCommand;
use crate::phrase::{said1, say1_text, ArgumentView, Message, MessageView, Phrase, PhraseView};
use crate::runs::{law_capitals_never_selected, never_selected};
use crate::text::{has_text, lowercase, maybe_text, no_capitals, to_lowercase};
use crate::turn::{and_then, asks, done, sends, Query, QueryView, State, StateView, Turn, TurnView};

verus! {

/// The message about a collection that `key` is for.
pub open spec fn said_collection(key: Seq<char>, lang: Seq<char>, name: Seq<char>) -> MessageView {
    said1(key, lang, "collection"@, ArgumentView::Text(name))
}

/// The message that is the phrase `key` in the language that is current in the process,
/// with the language of the chat as its argument `locale`.
pub open spec fn said_current(key: Seq<char>, lang: Seq<char>) -> MessageView {
    MessageView::Phrase(
        PhraseView { key, locale: None, args: seq![("locale"@, ArgumentView::Text(lang))] },
    )
}

/// Makes the message [`said_current`].
pub fn say_current(key: &str, lang: &str) -> (r: Message)
    ensures
        r@ == said_current(key@, lang@),
{
    let p = Phrase { key: key.to_owned(), locale: None, args: Vec::new() }.with_text(
        "locale",
        lang,
    );
    assert(p@.args =~= seq![("locale"@, ArgumentView::Text(lang@))]);
    Message::Phrase(p)
}

/// The command `collection`, with a name in lower case.
pub open spec fn collection_begins(lang: Seq<char>, name: Option<Seq<char>>) -> TurnView {
    match name {
        Some(name) => asks(QueryView::Collections, StateView::CollectionsRead(name)),
        None => sends(said_current("collection.noParams"@, lang)),
    }
}

/// Makes the turn [`collection_begins`].
pub fn begin_collection(lang: &str, name: Option<String>) -> (r: Turn)
    ensures
        r@ == collection_begins(lang@, maybe_text(name)),
{
    match name {
        Some(name) => Turn::asks(Query::Collections, State::CollectionsRead(name)),
        None => Turn::sends(say_current("collection.noParams", lang)),
    }
}

/// How it goes on once the names of the configured collections are known.
pub open spec fn collections_known(
    lang: Seq<char>,
    name: Seq<char>,
    collections: Option<Seq<Seq<char>>>,
) -> TurnView {
    match collections {
        None => sends(said_collection("collection.error"@, lang, name)),
        Some(names) => if names.contains(name) {
            asks(QueryView::SetCollection(name), StateView::CollectionSet(name))
        } else {
            sends(said_collection("collection.notFound"@, lang, name))
        },
    }
}

/// Makes the turn [`collections_known`].
pub fn on_collections(lang: &str, name: String, collections: Option<Vec<String>>) -> (r: Turn)
    ensures
        r@ == collections_known(lang@, name@, maybe_texts(collections)),
{
    match collections {
        None => Turn::sends(say1_text("collection.error", lang, "collection", name.as_str())),
        Some(names) => if has_text(&names, name.as_str()) {
            Turn::asks(Query::SetCollection(name.clone()), State::CollectionSet(name))
        } else {
            Turn::sends(say1_text("collection.notFound", lang, "collection", name.as_str()))
        },
    }
}

/// How it goes on once the collection was set, or was not. A running stream is
/// worth a note.
pub open spec fn collection_set(
    lang: Seq<char>,
    name: Seq<char>,
    outcome: Option<Result<bool, Error>>,
) -> TurnView {
    match outcome {
        None => done(),
        Some(Err(_)) => sends(said_collection("collection.error"@, lang, name)),
        Some(Ok(streaming)) => and_then(
            sends(said_collection("collection.success"@, lang, name)),
            if streaming {
                sends(said_current("collection.note"@, lang))
            } else {
                done()
            },
        ),
    }
}

/// Makes the turn [`collection_set`].
pub fn on_collection_set(
    lang: &str,
    name: String,
    outcome: Option<Result<bool, Error>>,
) -> (r: Turn)
    ensures
        r@ == collection_set(lang@, name@, outcome),
{
    match outcome {
        None => Turn::done(),
        Some(Err(_)) => Turn::sends(
            say1_text("collection.error", lang, "collection", name.as_str()),
        ),
        Some(Ok(streaming)) => {
            let note = if streaming {
                Turn::sends(say_current("collection.note", lang))
            } else {
                Turn::done()
            };
            Turn::sends(
                say1_text("collection.success", lang, "collection", name.as_str()),
            ).and_then(note)
        },
    }
}

/// The name inside an option, in lower case.
pub open spec fn maybe_lowercase(name: Option<Seq<char>>) -> Option<Seq<char>> {
    match name {
        Some(name) => Some(lowercase(name)),
        None => None,
    }
}

impl DispatchCommand {
    /// Changes to the collection of this name, in lower or upper case. One that is
    /// configured under a name with capital letters is never changed to.
    pub fn collection(&self, name: Option<String>) -> (r: Turn)
        ensures
            r@ == collection_begins(self.lang@, maybe_lowercase(maybe_text(name))),
            forall|key: Seq<char>|
                !no_capitals(key) ==> #[trigger] never_selected(
                    self.lang@,
                    self.chat_message.channel@,
                    r@,
                    key,
                ),
    {
        let name = match name {
            Some(name) => Some(to_lowercase(name.as_str())),
            None => None,
        };
        proof {
            let asked = maybe_text(name);
            let channel = self.chat_message.channel@;
            assert forall|key: Seq<char>| !no_capitals(key) implies #[trigger] never_selected(
                self.lang@,
                channel,
                collection_begins(self.lang@, asked),
                key,
            ) by {
                law_capitals_never_selected(self.lang@, channel, asked, key);
            }
        }
        begin_collection(self.lang.as_str(), name)
    }
}

} // verus!

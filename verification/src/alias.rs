//! Adding and removing other names of commands.
use vstd::prelude::*;

use crate::command::{Command, CommandView};
use crate::error::Error;
use crate::message::DispatchCommand;
use crate::phrase::{said, said1, said2, say, say1_text, say2_text, ArgumentView};
use crate::text::{same_text, texts};
use crate::turn::{
    and_then, asks, does, done, sends, Effect, EffectView, Query, QueryView, State, StateView, Turn,
    TurnView,
};

verus! {

/// The command `alias`, with the words after it: `rem` and an alias, or a new
/// alias and what it is to stand for.
pub open spec fn alias_begins(lang: Seq<char>, args: Seq<Seq<char>>) -> TurnView {
    if args.len() < 2 {
        sends(said("alias.errorIncorrectArguments"@, lang))
    } else if args[0] == "rem"@ {
        asks(QueryView::ContainsAlias(args[1]), StateView::AliasRemoval(args[1]))
    } else {
        asks(
            QueryView::ContainsAlias(args[0]),
            StateView::AliasAddition { alias: args[0], command: args[1] },
        )
    }
}

/// How a removal goes on once it is known whether there is such an alias.
pub open spec fn removal_known(lang: Seq<char>, alias: Seq<char>, known: bool) -> TurnView {
    if known {
        asks(QueryView::RemoveAlias(alias), StateView::AliasRemoved(alias))
    } else {
        sends(said1("alias.errorAlias"@, lang, "alias"@, ArgumentView::Text(alias)))
    }
}

/// Makes the turn [`removal_known`].
pub fn on_removal(lang: &str, alias: String, known: bool) -> (r: Turn)
    ensures
        r@ == removal_known(lang@, alias@, known),
{
    if known {
        Turn::asks(Query::RemoveAlias(alias.clone()), State::AliasRemoved(alias))
    } else {
        Turn::sends(say1_text("alias.errorAlias", lang, "alias", alias.as_str()))
    }
}

/// How a removal ends.
pub open spec fn alias_removed(
    lang: Seq<char>,
    alias: Seq<char>,
    outcome: Result<bool, Error>,
) -> TurnView {
    if outcome is Ok && outcome->Ok_0 {
        and_then(
            does(EffectView::SaveConfig),
            sends(said1("alias.removed"@, lang, "alias"@, ArgumentView::Text(alias))),
        )
    } else {
        done()
    }
}

/// Makes the turn [`alias_removed`].
pub fn on_alias_removed(lang: &str, alias: String, outcome: Result<bool, Error>) -> (r: Turn)
    ensures
        r@ == alias_removed(lang@, alias@, outcome),
{
    match outcome {
        Ok(true) => Turn::does(Effect::SaveConfig).and_then(
            Turn::sends(say1_text("alias.removed", lang, "alias", alias.as_str())),
        ),
        _ => Turn::done(),
    }
}

/// How an addition goes on once it is known whether there is such an alias.
pub open spec fn addition_known(
    lang: Seq<char>,
    alias: Seq<char>,
    command: Seq<char>,
    known: bool,
) -> TurnView {
    if known {
        sends(said1("alias.errorAlreadyUsed"@, lang, "alias"@, ArgumentView::Text(alias)))
    } else {
        asks(QueryView::ParseCommand(command), StateView::AliasParsed { alias, command })
    }
}

/// Makes the turn [`addition_known`].
pub fn on_addition(lang: &str, alias: String, command: String, known: bool) -> (r: Turn)
    ensures
        r@ == addition_known(lang@, alias@, command@, known),
{
    if known {
        Turn::sends(say1_text("alias.errorAlreadyUsed", lang, "alias", alias.as_str()))
    } else {
        Turn::asks(Query::ParseCommand(command.clone()), State::AliasParsed { alias, command })
    }
}

/// How an addition goes on once it is known which command the word names.
pub open spec fn alias_parsed(
    lang: Seq<char>,
    alias: Seq<char>,
    command: Seq<char>,
    parsed: CommandView,
) -> TurnView {
    if parsed is Unknown {
        sends(said1("alias.errorCommand"@, lang, "command"@, ArgumentView::Text(command)))
    } else {
        asks(QueryView::AddAlias(alias, parsed), StateView::AliasAdded { alias, command })
    }
}

/// Makes the turn [`alias_parsed`].
pub fn on_alias_parsed(lang: &str, alias: String, command: String, parsed: Command) -> (r: Turn)
    ensures
        r@ == alias_parsed(lang@, alias@, command@, parsed@),
{
    if let Command::Unknown(_) = parsed {
        Turn::sends(say1_text("alias.errorCommand", lang, "command", command.as_str()))
    } else {
        Turn::asks(Query::AddAlias(alias.clone(), parsed), State::AliasAdded { alias, command })
    }
}

/// How an addition ends.
pub open spec fn alias_added(
    lang: Seq<char>,
    alias: Seq<char>,
    command: Seq<char>,
    outcome: Result<(), Error>,
) -> TurnView {
    if outcome is Ok {
        and_then(
            does(EffectView::SaveConfig),
            sends(
                said2(
                    "alias.success"@,
                    lang,
                    "alias"@,
                    ArgumentView::Text(alias),
                    "command"@,
                    ArgumentView::Text(command),
                ),
            ),
        )
    } else {
        done()
    }
}

/// Makes the turn [`alias_added`].
pub fn on_alias_added(
    lang: &str,
    alias: String,
    command: String,
    outcome: Result<(), Error>,
) -> (r: Turn)
    ensures
        r@ == alias_added(lang@, alias@, command@, outcome),
{
    match outcome {
        Ok(_) => Turn::does(Effect::SaveConfig).and_then(
            Turn::sends(
                say2_text(
                    "alias.success",
                    lang,
                    "alias",
                    alias.as_str(),
                    "command",
                    command.as_str(),
                ),
            ),
        ),
        Err(_) => Turn::done(),
    }
}

impl DispatchCommand {
    /// Adds or removes an alias, as the words after the command say.
    pub fn alias(&self, args: &Vec<String>) -> (r: Turn)
        ensures
            r@ == alias_begins(self.lang@, texts(args@)),
    {
        if args.len() < 2 {
            return Turn::sends(say("alias.errorIncorrectArguments", self.lang.as_str()));
        }
        assert(texts(args@)[0] == args@[0]@ && texts(args@)[1] == args@[1]@);
        let a1 = args[0].clone();
        let a2 = args[1].clone();
        if same_text(a1.as_str(), "rem") {
            Turn::asks(Query::ContainsAlias(a2.clone()), State::AliasRemoval(a2))
        } else {
            Turn::asks(
                Query::ContainsAlias(a1.clone()),
                State::AliasAddition { alias: a1, command: a2 },
            )
        }
    }
}

} // verus!

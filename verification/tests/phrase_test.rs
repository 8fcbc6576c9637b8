use chat_handler::command::OptionalScene;
use chat_handler::error::Error;
use chat_handler::phrase::{
    condition_to_text, fill, phrase0, say, say1, say1_text, say2_text, say_condition, Argument,
    Message, Phrase,
};

fn args(list: &[(&str, &str)]) -> Vec<(String, String)> {
    list.iter().map(|(a, b)| (a.to_string(), b.to_string())).collect()
}

#[test]
fn placeholders_are_filled() {
    assert_eq!(
        fill("Trigger: %{number}, %{number}!", &args(&[("number", "500 Kbps")])),
        "Trigger: 500 Kbps, 500 Kbps!"
    );
    assert_eq!(fill("%{a} %{b}", &args(&[("a", "1"), ("b", "2")])), "1 2");
    assert_eq!(fill("nothing here", &args(&[("a", "1")])), "nothing here");
    assert_eq!(fill("%{a}", &args(&[])), "%{a}");
}

#[test]
fn placeholders_are_filled_one_argument_after_the_other() {
    assert_eq!(fill("%{a}", &args(&[("a", "%{b}"), ("b", "x")])), "x");
    assert_eq!(fill("%{b}", &args(&[("a", "x"), ("b", "%{a}")])), "%{a}");
}

#[test]
fn phrases_carry_their_arguments() {
    assert_eq!(
        say("fix.try", "de"),
        Message::Phrase(Phrase {
            key: "fix.try".to_string(),
            locale: Some("de".to_string()),
            args: vec![],
        })
    );
    assert_eq!(
        say1_text("switch.error", "en", "scene", "main"),
        Message::Phrase(Phrase {
            key: "switch.error".to_string(),
            locale: Some("en".to_string()),
            args: vec![("scene".to_string(), Argument::Text("main".to_string()))],
        })
    );
    assert_eq!(
        say2_text("stop.raid", "en", "channel", "a", "display_channel", "A"),
        Message::Phrase(
            phrase0("stop.raid", "en").with_text("channel", "a").with_text("display_channel", "A")
        )
    );
    assert_eq!(
        say1("scene.error", "en", "scene", Argument::Scene(OptionalScene::Ending)),
        Message::Phrase(phrase0("scene.error", "en").with("scene", Argument::Scene(OptionalScene::Ending)))
    );
    assert_eq!(
        say1("start.error", "en", "error", Argument::Error(Error::NoSoftwareSet)),
        Message::Phrase(phrase0("start.error", "en").with("error", Argument::Error(Error::NoSoftwareSet)))
    );
}

#[test]
fn conditions_have_phrases() {
    assert_eq!(condition_to_text(true, "en"), phrase0("handleCommands.enabled", "en"));
    assert_eq!(condition_to_text(false, "en"), phrase0("handleCommands.disabled", "en"));
    assert_eq!(
        say_condition("handleCommands.mod", "en", false),
        Message::Nested {
            phrase: phrase0("handleCommands.mod", "en"),
            slot: "condition".to_string(),
            inner: phrase0("handleCommands.disabled", "en"),
        }
    );
}

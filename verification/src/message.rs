//! What arrives from chat and from the switcher.
use vstd::prelude::*;

use crate::command::{Command, Permission, RaidedInfo};
use crate::turn::SwitchType;

verus! {

/// Where a chat takes place.
#[derive(Clone, Copy, Debug, PartialEq, Eq, Hash, Structural)]
pub enum ChatPlatform {
    Twitch,
    /// Another platform, by a number that the application gives it.
    Other(u32),
}

/// Something that was said in a chat.
#[derive(Debug, PartialEq, Eq)]
pub struct ChatMessage {
    pub platform: ChatPlatform,
    /// The standing of the sender.
    pub permission: Permission,
    pub channel: String,
    pub sender: String,
    pub message: String,
}

/// Something that happened to a channel.
#[derive(Debug, PartialEq, Eq)]
pub enum InternalUpdate {
    /// The channel raided another one.
    Raided(RaidedInfo),
    /// The stream was offline for too long.
    OfflineTimeout,
}

/// Something that happened to a channel, and which one.
#[derive(Debug, PartialEq, Eq)]
pub struct InternalChatUpdate {
    pub platform: ChatPlatform,
    pub channel: String,
    pub kind: InternalUpdate,
}

/// The switcher changed the scene.
#[derive(Debug, PartialEq, Eq)]
pub struct AutomaticSwitchingScene {
    pub platform: ChatPlatform,
    pub channel: String,
    pub scene: String,
    pub switch_type: SwitchType,
}

/// Everything that arrives.
#[derive(Debug, PartialEq, Eq)]
pub enum HandleMessage {
    ChatMessage(ChatMessage),
    InternalChatUpdate(InternalChatUpdate),
    AutomaticSwitchingScene(AutomaticSwitchingScene),
}

/// A command to carry out, the message that asked for it, and the language to
/// answer in.
#[derive(Debug, PartialEq, Eq)]
pub struct DispatchCommand {
    pub lang: String,
    pub command: Command,
    pub chat_message: ChatMessage,
    /// The version of the application.
    pub version: String,
}

} // verus!

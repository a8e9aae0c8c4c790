//! The leave command: decide whether the bot may disconnect from its
//! voice channel, from where the bot and the requesting user sit.
//!
//! The actual disconnect goes through the external voice transport;
//! this module only makes the decision.

use vstd::prelude::*;
use crate::messages::TurtoMessageKind;

verus! {

/// How two parties' voice-channel positions compare; channels are
/// identified by their opaque 64-bit ids.
pub enum VoiceChannelState {
    /// Neither party is in a voice channel.
    Neither,
    /// Only the first party is in a voice channel.
    OnlyFirst(u64),
    /// Only the second party is in a voice channel.
    OnlySecond(u64),
    /// Both are in the same voice channel.
    Same(u64),
    /// Both are in voice channels, but different ones.
    Different(u64, u64),
}

/// Compares the voice channels two parties are in, if any.
pub fn cmp_voice_channel(first: Option<u64>, second: Option<u64>) -> (r: VoiceChannelState)
    ensures
        first is None && second is None ==> r == VoiceChannelState::Neither,
        (first matches Some(f) ==> (second is None ==> r == VoiceChannelState::OnlyFirst(f))),
        (first is None ==> (second matches Some(s) ==> r == VoiceChannelState::OnlySecond(s))),
        (first matches Some(f) ==> (second matches Some(s) ==> (if f == s {
            r == VoiceChannelState::Same(f)
        } else {
            r == VoiceChannelState::Different(f, s)
        }))),
{
    match (first, second) {
        (None, None) => VoiceChannelState::Neither,
        (Some(f), None) => VoiceChannelState::OnlyFirst(f),
        (None, Some(s)) => VoiceChannelState::OnlySecond(s),
        (Some(f), Some(s)) => {
            if f == s {
                VoiceChannelState::Same(f)
            } else {
                VoiceChannelState::Different(f, s)
            }
        }
    }
}

/// What the leave command decided.
pub enum LeaveAction {
    /// Reply with an outcome and do not disconnect.
    Say(TurtoMessageKind),
    /// Disconnect from the bot's current voice channel.
    Disconnect,
}

/// Decides the leave command: the bot disconnects exactly when it is
/// in a voice channel and the requesting user is in the same one.
/// With the bot in no channel the reply says so; with the bot
/// elsewhere the reply names the bot's channel.
pub fn leave(bot_channel: Option<u64>, user_channel: Option<u64>) -> (r: LeaveAction)
    ensures
        bot_channel is None ==> r == LeaveAction::Say(TurtoMessageKind::BotNotInVoiceChannel),
        (bot_channel matches Some(bot) ==> {
            &&& user_channel == Some(bot) ==> r == LeaveAction::Disconnect
            &&& user_channel != Some(bot) ==> r == LeaveAction::Say(
                TurtoMessageKind::DifferentVoiceChannel { bot },
            )
        }),
{
    match cmp_voice_channel(bot_channel, user_channel) {
        VoiceChannelState::Neither | VoiceChannelState::OnlySecond(_) => LeaveAction::Say(
            TurtoMessageKind::BotNotInVoiceChannel,
        ),
        VoiceChannelState::Different(bot, _) | VoiceChannelState::OnlyFirst(bot) => LeaveAction::Say(
            TurtoMessageKind::DifferentVoiceChannel { bot },
        ),
        VoiceChannelState::Same(_) => LeaveAction::Disconnect,
    }
}

} // verus!

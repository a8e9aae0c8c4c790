//! Semantic reply outcomes. Commands never format user-facing text;
//! they select one of these tagged outcomes, each carrying only the
//! data the external locale-templated renderer needs, and the renderer
//! maps the tag to a template key.

use vstd::prelude::*;
use crate::guild::{AutoleaveType, GuildVolume};

verus! {

/// One semantic outcome of a command, ready for rendering. Voice
/// channels and users are identified by their opaque 64-bit ids.
#[allow(inconsistent_fields)]
pub enum TurtoMessageKind {
    NotPlaying,
    UserNotInVoiceChannel,
    BotNotInVoiceChannel,
    DifferentVoiceChannel { bot: u64 },
    Play { title: String },
    Pause { title: String },
    Skip { title: Option<String> },
    Stop { title: String },
    Join(u64),
    Leave(u64),
    Queue { title: String },
    Remove { title: String },
    RemoveAll,
    InvalidRemove { length: usize },
    InvalidRangeRemove { from: usize, to: usize, length: usize },
    InvalidUrl(Option<String>),
    SetVolume(GuildVolume),
    SetAutoleave(AutoleaveType),
    SeekSuccess,
    InvalidSeek { seek_limit: u64 },
    SeekNotAllow { backward: bool },
    SeekNotLongEnough { title: String, length: u64 },
    AdministratorOnly,
    Ban { success: bool, user: u64 },
    Unban { success: bool, user: u64 },
    BannedUserResponse,
    Shuffle,
    SetRepeat(bool),
    EmptyPlaylist,
    InvalidPlaylistPage { total_pages: usize },
    RemoveMany { removed_number: usize },
}

/// An outcome paired with the locale it should be rendered in.
pub struct TurtoMessage {
    pub locale: Option<String>,
    pub kind: TurtoMessageKind,
}

impl TurtoMessage {
    /// The renderer template key for this message; the locale selects
    /// the template's translation, never the key.
    pub fn template_key(&self) -> (r: &'static str)
        ensures
            r@ == spec_template_key(self.kind),
    {
        self.kind.template_key()
    }
}

/// The renderer template key that belongs to each outcome.
pub open spec fn spec_template_key(kind: TurtoMessageKind) -> Seq<char> {
    match kind {
        TurtoMessageKind::NotPlaying => "not_playing"@,
        TurtoMessageKind::UserNotInVoiceChannel => "user_not_in_voice_channel"@,
        TurtoMessageKind::BotNotInVoiceChannel => "bot_not_in_voice_channel"@,
        TurtoMessageKind::DifferentVoiceChannel { .. } => "different_voice_channel"@,
        TurtoMessageKind::Play { .. } => "play"@,
        TurtoMessageKind::Pause { .. } => "pause"@,
        TurtoMessageKind::Skip { title: Some(_) } => "skip"@,
        TurtoMessageKind::Skip { title: None } => "skip_success"@,
        TurtoMessageKind::Stop { .. } => "stop"@,
        TurtoMessageKind::Join(_) => "join"@,
        TurtoMessageKind::Leave(_) => "leave"@,
        TurtoMessageKind::Queue { .. } => "queue"@,
        TurtoMessageKind::Remove { .. } => "remove"@,
        TurtoMessageKind::RemoveAll => "remove_all"@,
        TurtoMessageKind::InvalidRemove { .. } => "invalid_remove_index"@,
        TurtoMessageKind::InvalidRangeRemove { .. } => "invalid_remove_range"@,
        TurtoMessageKind::InvalidUrl(Some(_)) => "url_not_found"@,
        TurtoMessageKind::InvalidUrl(None) => "invalid_url"@,
        TurtoMessageKind::SetVolume(_) => "volume"@,
        TurtoMessageKind::SetAutoleave(_) => "toggle_autoleave"@,
        TurtoMessageKind::SeekSuccess => "seek_success"@,
        TurtoMessageKind::InvalidSeek { .. } => "invalid_seek"@,
        TurtoMessageKind::SeekNotAllow { backward: true } => "backward_seek_not_allow"@,
        TurtoMessageKind::SeekNotAllow { backward: false } => "seek_not_allow"@,
        TurtoMessageKind::SeekNotLongEnough { .. } => "seek_not_long_enough"@,
        TurtoMessageKind::AdministratorOnly => "administrator_only"@,
        TurtoMessageKind::Ban { success: true, .. } => "user_got_banned"@,
        TurtoMessageKind::Ban { success: false, .. } => "user_already_banned"@,
        TurtoMessageKind::Unban { success: true, .. } => "user_got_unbanned"@,
        TurtoMessageKind::Unban { success: false, .. } => "user_not_banned"@,
        TurtoMessageKind::BannedUserResponse => "banned_user_repsonse"@,
        TurtoMessageKind::Shuffle => "shuffle"@,
        TurtoMessageKind::SetRepeat(_) => "toggle_repeat"@,
        TurtoMessageKind::EmptyPlaylist => "empty_playlist"@,
        TurtoMessageKind::InvalidPlaylistPage { .. } => "invalid_playlist_page"@,
        TurtoMessageKind::RemoveMany { .. } => "remove_many"@,
    }
}

impl TurtoMessageKind {
    /// Selects the renderer template key for this outcome. The key is
    /// a lookup tag, not display text: stringifying stays external.
    pub fn template_key(&self) -> (r: &'static str)
        ensures
            r@ == spec_template_key(*self),
    {
        match self {
            TurtoMessageKind::NotPlaying => "not_playing",
            TurtoMessageKind::UserNotInVoiceChannel => "user_not_in_voice_channel",
            TurtoMessageKind::BotNotInVoiceChannel => "bot_not_in_voice_channel",
            TurtoMessageKind::DifferentVoiceChannel { .. } => "different_voice_channel",
            TurtoMessageKind::Play { .. } => "play",
            TurtoMessageKind::Pause { .. } => "pause",
            TurtoMessageKind::Skip { title: Some(_) } => "skip",
            TurtoMessageKind::Skip { title: None } => "skip_success",
            TurtoMessageKind::Stop { .. } => "stop",
            TurtoMessageKind::Join(_) => "join",
            TurtoMessageKind::Leave(_) => "leave",
            TurtoMessageKind::Queue { .. } => "queue",
            TurtoMessageKind::Remove { .. } => "remove",
            TurtoMessageKind::RemoveAll => "remove_all",
            TurtoMessageKind::InvalidRemove { .. } => "invalid_remove_index",
            TurtoMessageKind::InvalidRangeRemove { .. } => "invalid_remove_range",
            TurtoMessageKind::InvalidUrl(Some(_)) => "url_not_found",
            TurtoMessageKind::InvalidUrl(None) => "invalid_url",
            TurtoMessageKind::SetVolume(_) => "volume",
            TurtoMessageKind::SetAutoleave(_) => "toggle_autoleave",
            TurtoMessageKind::SeekSuccess => "seek_success",
            TurtoMessageKind::InvalidSeek { .. } => "invalid_seek",
            TurtoMessageKind::SeekNotAllow { backward: true } => "backward_seek_not_allow",
            TurtoMessageKind::SeekNotAllow { backward: false } => "seek_not_allow",
            TurtoMessageKind::SeekNotLongEnough { .. } => "seek_not_long_enough",
            TurtoMessageKind::AdministratorOnly => "administrator_only",
            TurtoMessageKind::Ban { success: true, .. } => "user_got_banned",
            TurtoMessageKind::Ban { success: false, .. } => "user_already_banned",
            TurtoMessageKind::Unban { success: true, .. } => "user_got_unbanned",
            TurtoMessageKind::Unban { success: false, .. } => "user_not_banned",
            TurtoMessageKind::BannedUserResponse => "banned_user_repsonse",
            TurtoMessageKind::Shuffle => "shuffle",
            TurtoMessageKind::SetRepeat(_) => "toggle_repeat",
            TurtoMessageKind::EmptyPlaylist => "empty_playlist",
            TurtoMessageKind::InvalidPlaylistPage { .. } => "invalid_playlist_page",
            TurtoMessageKind::RemoveMany { .. } => "remove_many",
        }
    }
}

} // verus!

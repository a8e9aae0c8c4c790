//! The now-playing query: a read-only look at what a guild is
//! currently streaming.
//!
//! The live status comes from the external player capability; querying
//! it may suspend, so the caller performs that query outside the
//! registry and hands the report in. A failed status query is treated
//! exactly like nothing playing: this read path never surfaces a hard
//! error.

use vstd::prelude::*;
use crate::guild::PlayingTrack;
use crate::messages::TurtoMessageKind;
use crate::registry::GuildStateRegistry;

verus! {

/// Playback mode as the external player reports it.
#[derive(Clone, Copy, PartialEq, Eq, Structural, Debug)]
pub enum PlayMode {
    Play,
    Pause,
    Other,
}

/// Opaque token for a failed status query against the player.
pub struct PlayerError;

/// Reply to a now-playing query: either a plain outcome to say, or an
/// embed built from the playing track's cached metadata.
pub enum PlaywhatReply {
    Say(TurtoMessageKind),
    Embed {
        kind: TurtoMessageKind,
        source_url: Option<String>,
        description: Option<String>,
        thumbnail: Option<String>,
    },
}

/// The embed a playing (or paused) track yields: its title in the
/// playing or paused outcome, the source URL and thumbnail as cached,
/// and the artist attribution, falling back to the channel.
pub open spec fn status_embed(r: PlaywhatReply, track: PlayingTrack, paused: bool) -> bool {
    &&& r matches PlaywhatReply::Embed { kind, source_url, description, thumbnail }
    &&& source_url == track.metadata.source_url
    &&& thumbnail == track.metadata.thumbnail
    &&& description == (if track.metadata.artist is Some {
        track.metadata.artist
    } else {
        track.metadata.channel
    })
    &&& (track.metadata.title matches Some(t) ==> kind == (if paused {
        TurtoMessageKind::Pause { title: t }
    } else {
        TurtoMessageKind::Play { title: t }
    }))
    &&& (track.metadata.title is None ==> (if paused {
        kind matches TurtoMessageKind::Pause { title } && title@ == Seq::<char>::empty()
    } else {
        kind matches TurtoMessageKind::Play { title } && title@ == Seq::<char>::empty()
    }))
}

/// Answers what the guild is playing, given the external player's
/// status report for its current track.
///
/// A guild never seen, a guild with nothing playing, a track the
/// player reports as neither playing nor paused, and a failed status
/// query all yield the not-playing outcome; the registry is never
/// mutated and no entry is materialized.
pub fn playwhat(
    registry: &GuildStateRegistry,
    guild_id: u64,
    player_report: Result<PlayMode, PlayerError>,
) -> (r: PlaywhatReply)
    ensures
        !registry@.contains_key(guild_id) ==> r == PlaywhatReply::Say(
            TurtoMessageKind::NotPlaying,
        ),
        registry@.contains_key(guild_id) ==> {
            &&& registry@[guild_id].now_playing is None ==> r == PlaywhatReply::Say(
                TurtoMessageKind::NotPlaying,
            )
            &&& (registry@[guild_id].now_playing matches Some(track) ==> {
                &&& (player_report matches Ok(mode) ==> {
                    &&& mode == PlayMode::Play ==> status_embed(r, track, false)
                    &&& mode == PlayMode::Pause ==> status_embed(r, track, true)
                    &&& mode == PlayMode::Other ==> r == PlaywhatReply::Say(
                        TurtoMessageKind::NotPlaying,
                    )
                })
                &&& (player_report is Err ==> r == PlaywhatReply::Say(
                    TurtoMessageKind::NotPlaying,
                ))
            })
        },
{
    let state = match registry.try_get(guild_id) {
        Some(state) => state,
        None => {
            return PlaywhatReply::Say(TurtoMessageKind::NotPlaying);
        }
    };
    let playing = match &state.now_playing {
        Some(playing) => playing,
        None => {
            return PlaywhatReply::Say(TurtoMessageKind::NotPlaying);
        }
    };
    let title = match &playing.metadata.title {
        Some(t) => t.clone(),
        None => String::new(),
    };
    let kind = match player_report {
        Ok(PlayMode::Play) => TurtoMessageKind::Play { title },
        Ok(PlayMode::Pause) => TurtoMessageKind::Pause { title },
        _ => {
            return PlaywhatReply::Say(TurtoMessageKind::NotPlaying);
        }
    };
    let description = if playing.metadata.artist.is_some() {
        clone_opt_text(&playing.metadata.artist)
    } else {
        clone_opt_text(&playing.metadata.channel)
    };
    PlaywhatReply::Embed {
        kind,
        source_url: clone_opt_text(&playing.metadata.source_url),
        description,
        thumbnail: clone_opt_text(&playing.metadata.thumbnail),
    }
}

/// An owned copy of an optional text field, equal to the original.
fn clone_opt_text(text: &Option<String>) -> (r: Option<String>)
    ensures
        r == *text,
{
    match text {
        Some(t) => Some(t.clone()),
        None => None,
    }
}

} // verus!

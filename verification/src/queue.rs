//! The queue engine: insert what a user's query resolved to into a
//! guild's playlist, at the front or at the back.
//!
//! Parsing and resolution of the raw query happen at the external
//! resolver edge, before the guild's entry is acquired, so no guild is
//! blocked while a query is being resolved; this module consumes the
//! resolver's outcome and performs the insertion.

use vstd::prelude::*;
use crate::messages::TurtoMessageKind;
use crate::playlist::PlaylistItem;
use crate::registry::{base_playlist, lemma_cycle_is_insert, settings_preserved, GuildStateRegistry};

verus! {

/// Which end of the playlist an enqueue inserts at.
pub enum QueueType {
    Front,
    Back,
}

/// A multi-item result of resolving one query: an overall label used
/// for the reply, and the items in order.
pub struct ResolvedPlaylist {
    pub title: Option<String>,
    pub items: Vec<PlaylistItem>,
}

/// Classification of a successfully resolved query.
pub enum QueueItemKind {
    Single(PlaylistItem),
    Playlist(ResolvedPlaylist),
}

/// What became of parsing and resolving a query, handed in by the
/// resolver edge.
pub enum QueryResolution {
    /// The query did not parse as a recognized URL or query form.
    Invalid,
    /// The query parsed, but the resolver found nothing playable for
    /// it; carries the original query for the reply.
    NotFound { query: String },
    /// The query resolved into one or many playable items.
    Found(QueueItemKind),
}

/// Inserts a resolved query into the guild's playlist and reports the
/// outcome to render.
///
/// A query that failed to parse or to resolve mutates nothing and is
/// reported as invalid. A single item is pushed at the requested end.
/// A collection queued to the back extends the playlist in order; one
/// queued to the front becomes the new head, previous contents
/// following it — both orders preserved, never interleaved. The reply
/// carries the single item's title, or the collection's label (empty
/// when the collection has none).
pub fn enqueue(
    registry: &mut GuildStateRegistry,
    guild_id: u64,
    resolution: QueryResolution,
    queue_type: QueueType,
) -> (r: TurtoMessageKind)
    ensures
        resolution is Invalid ==> {
            &&& final(registry)@ == old(registry)@
            &&& r == TurtoMessageKind::InvalidUrl(None)
        },
        resolution matches QueryResolution::NotFound { query } ==> {
            &&& final(registry)@ == old(registry)@
            &&& r == TurtoMessageKind::InvalidUrl(Some(query))
        },
        resolution matches QueryResolution::Found(kind) ==> {
            let base = base_playlist(old(registry)@, guild_id);
            let new_pl = final(registry)@[guild_id].playlist@;
            &&& final(registry)@.contains_key(guild_id)
            &&& final(registry)@ == old(registry)@.insert(guild_id, final(registry)@[guild_id])
            &&& settings_preserved(old(registry)@, guild_id, final(registry)@[guild_id])
            &&& match kind {
                QueueItemKind::Single(item) => {
                    &&& new_pl == match queue_type {
                        QueueType::Front => seq![item] + base,
                        QueueType::Back => base.push(item),
                    }
                    &&& r == (TurtoMessageKind::Queue { title: item.title })
                },
                QueueItemKind::Playlist(pl) => {
                    &&& new_pl == match queue_type {
                        QueueType::Front => pl.items@ + base,
                        QueueType::Back => base + pl.items@,
                    }
                    &&& (pl.title matches Some(label) ==> r == (TurtoMessageKind::Queue {
                        title: label,
                    }))
                    &&& (pl.title is None ==> (r matches TurtoMessageKind::Queue { title }
                        && title@ == Seq::<char>::empty()))
                },
            }
        },
{
    match resolution {
        QueryResolution::Invalid => TurtoMessageKind::InvalidUrl(None),
        QueryResolution::NotFound { query } => TurtoMessageKind::InvalidUrl(Some(query)),
        QueryResolution::Found(kind) => {
            let mut guild_data = registry.entry_or_default(guild_id);
            let title = match kind {
                QueueItemKind::Single(item) => {
                    let title = item.title.clone();
                    match queue_type {
                        QueueType::Front => guild_data.playlist.push_front(item),
                        QueueType::Back => guild_data.playlist.push_back(item),
                    }
                    title
                }
                QueueItemKind::Playlist(pl) => {
                    let ResolvedPlaylist { title, items } = pl;
                    let label = match title {
                        Some(label) => label,
                        None => String::new(),
                    };
                    match queue_type {
                        QueueType::Front => guild_data.playlist.splice_front(items),
                        QueueType::Back => guild_data.playlist.extend(items),
                    }
                    label
                }
            };
            registry.release(guild_id, guild_data);
            proof {
                lemma_cycle_is_insert(old(registry)@, guild_id, registry@[guild_id]);
            }
            TurtoMessageKind::Queue { title }
        }
    }
}

} // verus!

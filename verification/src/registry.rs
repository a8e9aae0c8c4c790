//! The concurrent-access model of the per-guild state store: a map
//! from guild id to [`GuildState`] in which a command acquires one
//! guild's entry exclusively, mutates it, and releases it.
//!
//! Exclusivity is by ownership: [`GuildStateRegistry::entry_or_default`]
//! moves the entry out of the registry, so while one command holds it
//! no other reader or writer can observe an intermediate state, and
//! entries of other guilds stay untouched throughout.

use vstd::prelude::*;
use std::collections::HashMap;
use crate::guild::{fresh_settings, is_default_state, same_settings, GuildState};
use crate::playlist::PlaylistItem;

verus! {

broadcast use vstd::std_specs::hash::group_hash_axioms;

/// The playlist a command starts from: the guild's current one, or the
/// empty playlist of the default entry a first access creates.
pub open spec fn base_playlist(m: Map<u64, GuildState>, guild_id: u64) -> Seq<PlaylistItem> {
    if m.contains_key(guild_id) {
        m[guild_id].playlist@
    } else {
        Seq::<PlaylistItem>::empty()
    }
}

/// A playlist operation on one guild leaves that guild's settings as
/// they were — or, on first access, as a fresh default entry has them.
pub open spec fn settings_preserved(m: Map<u64, GuildState>, guild_id: u64, s: GuildState) -> bool {
    if m.contains_key(guild_id) {
        same_settings(m[guild_id], s)
    } else {
        fresh_settings(s)
    }
}

/// Mapping from guild identifier (an opaque 64-bit id) to that guild's
/// state, shared by all command handlers.
pub struct GuildStateRegistry {
    map: HashMap<u64, GuildState>,
}

impl View for GuildStateRegistry {
    type V = Map<u64, GuildState>;

    closed spec fn view(&self) -> Map<u64, GuildState> {
        self.map@
    }
}

impl GuildStateRegistry {
    /// A registry serving no guild yet.
    pub fn new() -> (r: GuildStateRegistry)
        ensures
            r@ == Map::<u64, GuildState>::empty(),
    {
        GuildStateRegistry { map: HashMap::new() }
    }

    /// Non-creating read access: the guild's state if any command has
    /// touched that guild before, without materializing state for an
    /// unknown guild.
    pub fn try_get(&self, guild_id: u64) -> (r: Option<&GuildState>)
        ensures
            r matches Some(s) ==> self@.contains_key(guild_id) && *s == self@[guild_id],
            r is None ==> !self@.contains_key(guild_id),
    {
        self.map.get(&guild_id)
    }

    /// Acquires the guild's entry exclusively, creating a
    /// default-initialized one on first access. The entry leaves the
    /// registry while the caller holds it, so at most one writer can
    /// see it at a time; the caller hands it back with
    /// [`GuildStateRegistry::release`] on every exit path, before any
    /// operation that may suspend.
    pub fn entry_or_default(&mut self, guild_id: u64) -> (s: GuildState)
        ensures
            final(self)@ == old(self)@.remove(guild_id),
            old(self)@.contains_key(guild_id) ==> s == old(self)@[guild_id],
            !old(self)@.contains_key(guild_id) ==> is_default_state(s),
    {
        match self.map.remove(&guild_id) {
            Some(s) => s,
            None => GuildState::default(),
        }
    }

    /// Releases a guild's entry back into the registry.
    pub fn release(&mut self, guild_id: u64, state: GuildState)
        ensures
            final(self)@ == old(self)@.insert(guild_id, state),
    {
        self.map.insert(guild_id, state);
    }
}

/// Releasing an entry acquired from `m` restores exactly `m` with that
/// guild's entry replaced: a full acquire→mutate→release cycle is one
/// map update.
pub proof fn lemma_cycle_is_insert(m: Map<u64, GuildState>, guild_id: u64, s: GuildState)
    ensures
        m.remove(guild_id).insert(guild_id, s) == m.insert(guild_id, s),
{
    assert(m.remove(guild_id).insert(guild_id, s) =~= m.insert(guild_id, s));
}

/// Guild isolation, part one: a mutation cycle on one guild neither
/// adds, removes, nor changes any other guild's entry.
pub proof fn lemma_cycle_preserves_others(
    m: Map<u64, GuildState>,
    guild_id: u64,
    s: GuildState,
    other: u64,
)
    requires
        other != guild_id,
    ensures
        m.insert(guild_id, s).contains_key(other) == m.contains_key(other),
        m.contains_key(other) ==> m.insert(guild_id, s)[other] == m[other],
{
}

/// Guild isolation, part two: mutation cycles on two distinct guilds
/// commute, and each guild ends with exactly the state its own cycle
/// wrote — the outcome is as if each guild's operations had run alone,
/// in submission order, never observing the other's intermediate
/// states.
pub proof fn lemma_guild_isolation(
    m: Map<u64, GuildState>,
    guild_a: u64,
    state_a: GuildState,
    guild_b: u64,
    state_b: GuildState,
)
    requires
        guild_a != guild_b,
    ensures
        m.insert(guild_a, state_a).insert(guild_b, state_b) == m.insert(guild_b, state_b).insert(
            guild_a,
            state_a,
        ),
        m.insert(guild_a, state_a).insert(guild_b, state_b)[guild_a] == state_a,
        m.insert(guild_a, state_a).insert(guild_b, state_b)[guild_b] == state_b,
{
    assert(m.insert(guild_a, state_a).insert(guild_b, state_b) =~= m.insert(
        guild_b,
        state_b,
    ).insert(guild_a, state_a));
}

} // verus!

//! The remove command: take one track, or a contiguous range of
//! tracks, out of a guild's playlist.

use vstd::prelude::*;
use crate::messages::TurtoMessageKind;
use crate::registry::{base_playlist, lemma_cycle_is_insert, settings_preserved, GuildStateRegistry};

verus! {

/// How many removed tracks a range removal may report one by one
/// before the reply collapses into a single summarized count. The
/// bound exists to keep replies short; behavior at the boundary is
/// exact: a count of the threshold still lists each track, one more
/// summarizes.
pub const REMOVE_SUMMARY_THRESHOLD: usize = 10;

/// Normalized form of a removal request.
enum RemoveType {
    Index(usize),
    Range { from: usize, to: usize },
}

/// Removes from the guild's playlist and reports what happened, as the
/// sequence of outcomes to render.
///
/// `which` is the 1-based position of the first track to remove;
/// `to_which`, when present, is its 1-based inclusive end, which
/// equals the 0-based exclusive end of the half-open range
/// `[which - 1, to_which)`.
///
/// - Single form (`to_which` absent): succeeds exactly when the
///   0-based index is within the playlist; reports the removed title,
///   or the playlist length when the index is out of range.
/// - Range form: succeeds exactly when `from <= to`, `from < len` and
///   `to <= len`; reports each removed title in order, or one
///   summarized count past [`REMOVE_SUMMARY_THRESHOLD`], or the
///   rejected bounds. Validation happens before any mutation: an
///   invalid range never drains partially.
pub fn remove(
    registry: &mut GuildStateRegistry,
    guild_id: u64,
    which: usize,
    to_which: Option<usize>,
) -> (r: Vec<TurtoMessageKind>)
    requires
        which >= 1,
    ensures
        final(registry)@.contains_key(guild_id),
        final(registry)@ == old(registry)@.insert(guild_id, final(registry)@[guild_id]),
        settings_preserved(old(registry)@, guild_id, final(registry)@[guild_id]),
        ({
            let base = base_playlist(old(registry)@, guild_id);
            let new_pl = final(registry)@[guild_id].playlist@;
            let index = which - 1;
            to_which is None ==> {
                &&& index < base.len() ==> {
                    &&& new_pl == base.remove(index)
                    &&& r@.len() == 1
                    &&& r@[0] == (TurtoMessageKind::Remove { title: base[index].title })
                }
                &&& index >= base.len() ==> {
                    &&& new_pl == base
                    &&& r@.len() == 1
                    &&& (r@[0] matches TurtoMessageKind::InvalidRemove { length } && length
                        == base.len())
                }
            }
        }),
        ({
            let base = base_playlist(old(registry)@, guild_id);
            let new_pl = final(registry)@[guild_id].playlist@;
            let start = which - 1;
            to_which matches Some(until) ==> {
                let valid = start <= until && start < base.len() && until <= base.len();
                &&& !valid ==> {
                    &&& new_pl == base
                    &&& r@.len() == 1
                    &&& (r@[0] matches TurtoMessageKind::InvalidRangeRemove { from, to, length }
                        && from == start && to == until && length == base.len())
                }
                &&& valid ==> {
                    let taken = base.subrange(start, until as int);
                    let n = until - start;
                    &&& new_pl == base.subrange(0, start) + base.subrange(
                        until as int,
                        base.len() as int,
                    )
                    &&& n > REMOVE_SUMMARY_THRESHOLD ==> {
                        &&& r@.len() == 1
                        &&& (r@[0] matches TurtoMessageKind::RemoveMany { removed_number }
                            && removed_number == n)
                    }
                    &&& n <= REMOVE_SUMMARY_THRESHOLD ==> {
                        &&& r@.len() == n
                        &&& forall|k: int|
                            0 <= k < n ==> r@[k] == (TurtoMessageKind::Remove {
                                title: taken[k].title,
                            })
                    }
                }
            }
        }),
{
    let remove_item = match to_which {
        // 1-based start becomes 0-based; the inclusive 1-based end is
        // already the exclusive 0-based end.
        Some(until) => RemoveType::Range { from: which - 1, to: until },
        None => RemoveType::Index(which - 1),
    };

    let mut guild_data = registry.entry_or_default(guild_id);
    let length = guild_data.playlist.len();
    let mut out: Vec<TurtoMessageKind> = Vec::new();

    match remove_item {
        RemoveType::Index(index) => {
            if index >= length {
                out.push(TurtoMessageKind::InvalidRemove { length });
            } else {
                let removed = guild_data.playlist.remove(index);
                if let Some(item) = removed {
                    out.push(TurtoMessageKind::Remove { title: item.title });
                }
            }
        }
        RemoveType::Range { from, to } => {
            if from > to || from >= length || to > length {
                out.push(TurtoMessageKind::InvalidRangeRemove { from, to, length });
            } else {
                let drained = guild_data.playlist.drain_range(from, to);
                if drained.len() > REMOVE_SUMMARY_THRESHOLD {
                    out.push(TurtoMessageKind::RemoveMany { removed_number: drained.len() });
                } else {
                    let ghost drained_seq = drained@;
                    let mut rest = drained;
                    while rest.len() > 0
                        invariant
                            out@.len() + rest@.len() == drained_seq.len(),
                            rest@ == drained_seq.subrange(
                                out@.len() as int,
                                drained_seq.len() as int,
                            ),
                            forall|k: int|
                                0 <= k < out@.len() ==> out@[k] == (TurtoMessageKind::Remove {
                                    title: drained_seq[k].title,
                                }),
                        decreases rest@.len(),
                    {
                        let item = rest.remove(0);
                        proof {
                            assert(item == drained_seq[out@.len() as int]);
                            assert(rest@ =~= drained_seq.subrange(
                                out@.len() as int + 1,
                                drained_seq.len() as int,
                            ));
                        }
                        out.push(TurtoMessageKind::Remove { title: item.title });
                    }
                }
            }
        }
    }

    registry.release(guild_id, guild_data);
    proof {
        lemma_cycle_is_insert(old(registry)@, guild_id, registry@[guild_id]);
    }
    out
}

} // verus!

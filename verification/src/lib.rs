//! Guild-scoped playback queue and state manager for a multi-server
//! voice bot: per-guild ordered playlists, playback settings, and a
//! registry that mediates exclusive access to each guild's state.

pub mod guild;
pub mod leave;
pub mod messages;
pub mod playwhat;
pub mod playlist;
pub mod queue;
pub mod registry;
pub mod remove;

//! Per-guild state: the playlist plus playback settings and the
//! record of the currently-streaming track.

use vstd::prelude::*;
use crate::playlist::{Playlist, PlaylistItem};

verus! {

/// Volume a guild starts with before anyone changes it.
pub const DEFAULT_VOLUME: u8 = 100;

/// Volume setting: an integer percentage, always in `0..=100`.
pub struct GuildVolume {
    value: u8,
}

impl View for GuildVolume {
    type V = int;

    closed spec fn view(&self) -> int {
        self.value as int
    }
}

impl GuildVolume {
    /// Well-formedness: the percentage is within bounds. Constructors
    /// establish it and nothing mutates a `GuildVolume` in place.
    pub closed spec fn wf(&self) -> bool {
        self.value <= 100
    }

    /// Accepts a percentage up to 100, rejecting anything larger.
    pub fn new(value: u8) -> (r: Option<GuildVolume>)
        ensures
            r is Some <==> value <= 100,
            value <= 100 ==> {
                &&& r matches Some(v)
                &&& v@ == value
                &&& v.wf()
            },
    {
        if value <= 100 {
            Some(GuildVolume { value })
        } else {
            None
        }
    }

    /// The percentage as a plain integer.
    pub fn get(&self) -> (r: u8)
        requires
            self.wf(),
        ensures
            r == self@,
            r <= 100,
    {
        self.value
    }
}

impl Default for GuildVolume {
    /// The configured default volume.
    fn default() -> (r: GuildVolume)
        ensures
            r@ == DEFAULT_VOLUME,
            r.wf(),
    {
        GuildVolume { value: DEFAULT_VOLUME }
    }
}

/// Policy for automatically leaving a voice channel.
#[derive(Clone, Copy, PartialEq, Eq, Structural, Debug)]
pub enum AutoleaveType {
    Off,
    On,
    Empty,
    Silent,
}

/// Metadata cached for the currently-streaming track; every field is
/// optional because resolution may leave any of them unknown.
pub struct TrackMetadata {
    pub title: Option<String>,
    pub source_url: Option<String>,
    pub artist: Option<String>,
    pub channel: Option<String>,
    pub thumbnail: Option<String>,
}

/// Weak record of the track now streaming: a key identifying the
/// externally-owned player handle, plus cached metadata. This record
/// never owns the playback lifecycle; staleness or absence means
/// "nothing playing", never a crash.
pub struct PlayingTrack {
    pub handle: u64,
    pub metadata: TrackMetadata,
}

/// Everything one guild's commands read and write: its playlist,
/// playback settings, and what is currently playing.
pub struct GuildState {
    pub playlist: Playlist,
    pub volume: GuildVolume,
    pub autoleave: AutoleaveType,
    pub repeat: bool,
    pub now_playing: Option<PlayingTrack>,
}

/// What a guild's state looks like before any command has touched it:
/// empty playlist, default volume, autoleave off, repeat off, nothing
/// playing.
pub open spec fn is_default_state(s: GuildState) -> bool {
    &&& s.playlist@ == Seq::<PlaylistItem>::empty()
    &&& s.volume@ == DEFAULT_VOLUME
    &&& s.volume.wf()
    &&& s.autoleave == AutoleaveType::Off
    &&& s.repeat == false
    &&& s.now_playing is None
}

/// The non-playlist parts of two states agree; used to say that a
/// playlist operation touches nothing else.
pub open spec fn same_settings(a: GuildState, b: GuildState) -> bool {
    &&& a.volume == b.volume
    &&& a.autoleave == b.autoleave
    &&& a.repeat == b.repeat
    &&& a.now_playing == b.now_playing
}

/// The non-playlist parts of a state are those of a fresh default.
pub open spec fn fresh_settings(s: GuildState) -> bool {
    &&& s.volume@ == DEFAULT_VOLUME
    &&& s.volume.wf()
    &&& s.autoleave == AutoleaveType::Off
    &&& s.repeat == false
    &&& s.now_playing is None
}

impl Default for GuildState {
    /// The state a never-before-seen guild gets on first access.
    fn default() -> (r: GuildState)
        ensures
            is_default_state(r),
    {
        GuildState {
            playlist: Playlist::new(),
            volume: GuildVolume::default(),
            autoleave: AutoleaveType::Off,
            repeat: false,
            now_playing: None,
        }
    }
}

} // verus!

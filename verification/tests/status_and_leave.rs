use turto::guild::{GuildVolume, PlayingTrack, TrackMetadata, DEFAULT_VOLUME};
use turto::leave::{cmp_voice_channel, leave, LeaveAction, VoiceChannelState};
use turto::messages::{TurtoMessage, TurtoMessageKind};
use turto::playwhat::{playwhat, PlayMode, PlayerError, PlaywhatReply};
use turto::registry::GuildStateRegistry;

fn registry_playing(guild_id: u64, metadata: TrackMetadata) -> GuildStateRegistry {
    let mut registry = GuildStateRegistry::new();
    let mut state = registry.entry_or_default(guild_id);
    state.now_playing = Some(PlayingTrack { handle: 1, metadata });
    registry.release(guild_id, state);
    registry
}

fn metadata(title: &str) -> TrackMetadata {
    TrackMetadata {
        title: Some(title.to_string()),
        source_url: Some(format!("https://example.invalid/{title}")),
        artist: None,
        channel: None,
        thumbnail: None,
    }
}

#[test]
fn playwhat_unknown_guild_is_not_playing() {
    let registry = GuildStateRegistry::new();
    let reply = playwhat(&registry, 9, Ok(PlayMode::Play));
    assert!(matches!(reply, PlaywhatReply::Say(TurtoMessageKind::NotPlaying)));
}

#[test]
fn playwhat_without_track_is_not_playing() {
    let mut registry = GuildStateRegistry::new();
    let state = registry.entry_or_default(9);
    registry.release(9, state);
    let reply = playwhat(&registry, 9, Ok(PlayMode::Play));
    assert!(matches!(reply, PlaywhatReply::Say(TurtoMessageKind::NotPlaying)));
}

#[test]
fn playwhat_playing_reports_title_and_url() {
    let registry = registry_playing(9, metadata("song"));
    let reply = playwhat(&registry, 9, Ok(PlayMode::Play));
    match reply {
        PlaywhatReply::Embed { kind, source_url, description, thumbnail } => {
            assert!(matches!(kind, TurtoMessageKind::Play { ref title } if title == "song"));
            assert_eq!(source_url.as_deref(), Some("https://example.invalid/song"));
            assert!(description.is_none());
            assert!(thumbnail.is_none());
        }
        PlaywhatReply::Say(_) => panic!("expected an embed"),
    }
}

#[test]
fn playwhat_paused_reports_paused_title() {
    let registry = registry_playing(9, metadata("song"));
    let reply = playwhat(&registry, 9, Ok(PlayMode::Pause));
    match reply {
        PlaywhatReply::Embed { kind, .. } => {
            assert!(matches!(kind, TurtoMessageKind::Pause { ref title } if title == "song"));
        }
        PlaywhatReply::Say(_) => panic!("expected an embed"),
    }
}

#[test]
fn playwhat_description_prefers_artist_over_channel() {
    let mut md = metadata("song");
    md.artist = Some("artist".to_string());
    md.channel = Some("channel".to_string());
    let registry = registry_playing(9, md);
    match playwhat(&registry, 9, Ok(PlayMode::Play)) {
        PlaywhatReply::Embed { description, .. } => {
            assert_eq!(description.as_deref(), Some("artist"));
        }
        PlaywhatReply::Say(_) => panic!("expected an embed"),
    }
}

#[test]
fn playwhat_description_falls_back_to_channel() {
    let mut md = metadata("song");
    md.channel = Some("channel".to_string());
    let registry = registry_playing(9, md);
    match playwhat(&registry, 9, Ok(PlayMode::Play)) {
        PlaywhatReply::Embed { description, .. } => {
            assert_eq!(description.as_deref(), Some("channel"));
        }
        PlaywhatReply::Say(_) => panic!("expected an embed"),
    }
}

#[test]
fn playwhat_missing_title_is_empty() {
    let mut md = metadata("song");
    md.title = None;
    let registry = registry_playing(9, md);
    match playwhat(&registry, 9, Ok(PlayMode::Play)) {
        PlaywhatReply::Embed { kind, .. } => {
            assert!(matches!(kind, TurtoMessageKind::Play { ref title } if title.is_empty()));
        }
        PlaywhatReply::Say(_) => panic!("expected an embed"),
    }
}

#[test]
fn playwhat_stopped_track_is_not_playing() {
    let registry = registry_playing(9, metadata("song"));
    let reply = playwhat(&registry, 9, Ok(PlayMode::Other));
    assert!(matches!(reply, PlaywhatReply::Say(TurtoMessageKind::NotPlaying)));
}

#[test]
fn playwhat_player_failure_is_not_playing() {
    let registry = registry_playing(9, metadata("song"));
    let reply = playwhat(&registry, 9, Err(PlayerError));
    assert!(matches!(reply, PlaywhatReply::Say(TurtoMessageKind::NotPlaying)));
}

#[test]
fn leave_disconnects_from_shared_channel() {
    assert!(matches!(leave(Some(5), Some(5)), LeaveAction::Disconnect));
}

#[test]
fn leave_without_bot_channel_says_so() {
    assert!(matches!(
        leave(None, Some(5)),
        LeaveAction::Say(TurtoMessageKind::BotNotInVoiceChannel)
    ));
    assert!(matches!(
        leave(None, None),
        LeaveAction::Say(TurtoMessageKind::BotNotInVoiceChannel)
    ));
}

#[test]
fn leave_from_different_channel_names_bots_channel() {
    assert!(matches!(
        leave(Some(5), Some(6)),
        LeaveAction::Say(TurtoMessageKind::DifferentVoiceChannel { bot: 5 })
    ));
    assert!(matches!(
        leave(Some(5), None),
        LeaveAction::Say(TurtoMessageKind::DifferentVoiceChannel { bot: 5 })
    ));
}

#[test]
fn cmp_voice_channel_distinguishes_all_cases() {
    assert!(matches!(cmp_voice_channel(None, None), VoiceChannelState::Neither));
    assert!(matches!(cmp_voice_channel(Some(1), None), VoiceChannelState::OnlyFirst(1)));
    assert!(matches!(cmp_voice_channel(None, Some(2)), VoiceChannelState::OnlySecond(2)));
    assert!(matches!(cmp_voice_channel(Some(3), Some(3)), VoiceChannelState::Same(3)));
    assert!(matches!(cmp_voice_channel(Some(3), Some(4)), VoiceChannelState::Different(3, 4)));
}

#[test]
fn volume_accepts_percentages_up_to_one_hundred() {
    assert_eq!(GuildVolume::new(0).expect("zero is valid").get(), 0);
    assert_eq!(GuildVolume::new(100).expect("hundred is valid").get(), 100);
    assert!(GuildVolume::new(101).is_none());
    assert_eq!(GuildVolume::default().get(), DEFAULT_VOLUME);
}

#[test]
fn template_keys_follow_the_outcome() {
    assert_eq!(TurtoMessageKind::NotPlaying.template_key(), "not_playing");
    assert_eq!(
        TurtoMessageKind::Skip { title: Some("s".to_string()) }.template_key(),
        "skip"
    );
    assert_eq!(TurtoMessageKind::Skip { title: None }.template_key(), "skip_success");
    assert_eq!(TurtoMessageKind::InvalidUrl(None).template_key(), "invalid_url");
    assert_eq!(
        TurtoMessageKind::InvalidUrl(Some("u".to_string())).template_key(),
        "url_not_found"
    );
    assert_eq!(
        TurtoMessageKind::Remove { title: "t".to_string() }.template_key(),
        "remove"
    );
    assert_eq!(
        TurtoMessageKind::RemoveMany { removed_number: 11 }.template_key(),
        "remove_many"
    );
    assert_eq!(
        TurtoMessageKind::InvalidRemove { length: 0 }.template_key(),
        "invalid_remove_index"
    );
    assert_eq!(
        TurtoMessageKind::Ban { success: true, user: 1 }.template_key(),
        "user_got_banned"
    );
    assert_eq!(
        TurtoMessageKind::Ban { success: false, user: 1 }.template_key(),
        "user_already_banned"
    );
    assert_eq!(TurtoMessageKind::SetRepeat(true).template_key(), "toggle_repeat");
}

#[test]
fn message_key_ignores_locale() {
    let message = TurtoMessage {
        locale: Some("zh-TW".to_string()),
        kind: TurtoMessageKind::Shuffle,
    };
    assert_eq!(message.template_key(), "shuffle");
    let message = TurtoMessage { locale: None, kind: TurtoMessageKind::Shuffle };
    assert_eq!(message.template_key(), "shuffle");
}

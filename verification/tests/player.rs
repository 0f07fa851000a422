use waybar_mpris::player::{
    art_size, compose_subtitle, Control, InitialProps, MetadataUpdate, PlayerState, PropKind,
    PropUpdate, Sensitivity, TickPlan, UiAction,
};
use waybar_mpris::player_model::{LoopState, PlayState};

fn props() -> InitialProps {
    InitialProps {
        playback_status: Some("Playing".to_string()),
        loop_status: Some("Playlist".to_string()),
        shuffle: Some(true),
        has_loop_status: true,
        has_shuffle: true,
        can_control: Some(true),
        can_seek: Some(true),
        can_play: Some(true),
        can_pause: Some(false),
        can_go_next: Some(true),
        can_go_previous: None,
        track_id: Some("/org/mpris/track/1".to_string()),
    }
}

fn bare_props() -> InitialProps {
    InitialProps {
        playback_status: None,
        loop_status: None,
        shuffle: None,
        has_loop_status: false,
        has_shuffle: false,
        can_control: None,
        can_seek: None,
        can_play: None,
        can_pause: None,
        can_go_next: None,
        can_go_previous: None,
        track_id: None,
    }
}

fn metadata() -> MetadataUpdate {
    MetadataUpdate {
        track_id: None,
        title: None,
        album: None,
        artists: None,
        length: None,
        art_url: None,
    }
}

#[test]
fn property_names() {
    assert_eq!(PropKind::of("Metadata"), PropKind::Metadata);
    assert_eq!(PropKind::of("CanGoPrevious"), PropKind::CanGoPrevious);
    assert_eq!(PropKind::of("PlaybackStatus"), PropKind::PlaybackStatus);
    assert_eq!(PropKind::of("Volume"), PropKind::Volume);
    assert_eq!(PropKind::of("volume"), PropKind::Unhandled);
    assert_eq!(PropKind::of("Fullscreen"), PropKind::Unhandled);
}

#[test]
fn initial_state_from_properties() {
    let s = PlayerState::new(props());
    assert_eq!(s.play_state, PlayState::Playing);
    assert_eq!(s.loop_state, LoopState::LoopPlaylist);
    assert!(s.shuffle_state && s.has_shuf && s.has_loop);
    assert!(s.can_control && s.can_seek && s.can_play && !s.can_pause);
    assert!(!s.can_go_prev && s.can_go_next);
    assert_eq!(s.current_track.as_deref(), Some("/org/mpris/track/1"));
    assert_eq!(s.art_url, None);
    assert!(s.clock_needs_aligned);
    assert!(!s.is_dragging_playback && !s.is_dragging_volume && !s.is_dragging_rate);
}

#[test]
fn missing_properties_fall_back() {
    let mut p = bare_props();
    p.playback_status = Some("Buffering".to_string());
    p.loop_status = Some("Forever".to_string());
    let s = PlayerState::new(p);
    assert_eq!(s.play_state, PlayState::Stopped);
    assert_eq!(s.loop_state, LoopState::LoopNone);
    assert!(!s.shuffle_state && !s.can_control && !s.has_loop);
}

#[test]
fn sensitivity_follows_capabilities() {
    let s = PlayerState::new(props());
    assert_eq!(
        s.sensitivity(),
        Sensitivity {
            play_pause: false,
            previous: false,
            next: true,
            loop_: true,
            shuffle: true,
            playback: true,
        }
    );
    let none = PlayerState::new(bare_props());
    let n = none.sensitivity();
    assert!(!n.play_pause && !n.previous && !n.next && !n.loop_ && !n.shuffle && !n.playback);
}

#[test]
fn can_control_reapplies_everything() {
    let mut s = PlayerState::new(props());
    let acts = s.update_prop(PropUpdate::CanControl(Some(false)));
    assert!(!s.can_control);
    assert_eq!(
        acts,
        vec![
            UiAction::SetSensitive(Control::PlayPause, false),
            UiAction::SetSensitive(Control::Previous, false),
            UiAction::SetSensitive(Control::Next, false),
            UiAction::SetSensitive(Control::Loop, false),
            UiAction::SetSensitive(Control::Shuffle, false),
            UiAction::SetSensitive(Control::Playback, false),
        ]
    );
    let acts = s.update_prop(PropUpdate::CanControl(Some(true)));
    assert_eq!(acts[0], UiAction::SetSensitive(Control::PlayPause, false));
    assert_eq!(acts[2], UiAction::SetSensitive(Control::Next, true));
}

#[test]
fn capabilities_apply_only_under_control() {
    let mut s = PlayerState::new(bare_props());
    assert!(s.update_prop(PropUpdate::CanSeek(Some(true))).is_empty());
    assert!(s.can_seek);
    assert!(s.update_prop(PropUpdate::CanGoNext(Some(true))).is_empty());
    s.update_prop(PropUpdate::CanControl(Some(true)));
    assert_eq!(
        s.update_prop(PropUpdate::CanGoPrevious(Some(true))),
        vec![UiAction::SetSensitive(Control::Previous, true)]
    );
    assert_eq!(
        s.update_prop(PropUpdate::CanSeek(None)),
        vec![UiAction::SetSensitive(Control::Playback, false)]
    );
}

#[test]
fn play_and_pause_capabilities_follow_status() {
    let mut s = PlayerState::new(props());
    // Playing: CanPause is what matters, CanPlay is not shown.
    assert_eq!(
        s.update_prop(PropUpdate::CanPause(Some(true))),
        vec![UiAction::SetSensitive(Control::PlayPause, true)]
    );
    assert!(s.update_prop(PropUpdate::CanPlay(Some(false))).is_empty());
    assert!(!s.can_play);
    let acts = s.update_prop(PropUpdate::PlaybackStatus(Some("Paused".to_string())));
    assert_eq!(s.play_state, PlayState::Paused);
    assert!(s.clock_needs_aligned);
    assert_eq!(
        acts,
        vec![
            UiAction::SetPlayPauseIcon("media-playback-start"),
            UiAction::SetSensitive(Control::PlayPause, false),
        ]
    );
    assert_eq!(
        s.update_prop(PropUpdate::CanPlay(Some(true))),
        vec![UiAction::SetSensitive(Control::PlayPause, true)]
    );
}

#[test]
fn unknown_status_counts_as_stopped() {
    let mut s = PlayerState::new(props());
    let acts = s.update_prop(PropUpdate::PlaybackStatus(Some("Rewinding".to_string())));
    assert_eq!(s.play_state, PlayState::Stopped);
    assert_eq!(acts[0], UiAction::SetPlayPauseIcon("media-playback-start"));
    let mut bare = PlayerState::new(bare_props());
    let acts = bare.update_prop(PropUpdate::PlaybackStatus(None));
    assert_eq!(acts, vec![UiAction::SetPlayPauseIcon("media-playback-start")]);
}

#[test]
fn shuffle_first_report_enables_button() {
    let mut p = bare_props();
    p.can_control = Some(true);
    let mut s = PlayerState::new(p);
    let acts = s.update_prop(PropUpdate::Shuffle(Some(true)));
    assert_eq!(
        acts,
        vec![UiAction::SetSensitive(Control::Shuffle, true), UiAction::SetShuffleActive(true)]
    );
    assert!(s.has_shuf && s.shuffle_state);
    let acts = s.update_prop(PropUpdate::Shuffle(None));
    assert_eq!(acts, vec![UiAction::SetShuffleActive(false)]);
}

#[test]
fn loop_status_updates_button() {
    let mut p = bare_props();
    p.can_control = Some(true);
    let mut s = PlayerState::new(p);
    let acts = s.update_prop(PropUpdate::LoopStatus(Some("Track".to_string())));
    assert_eq!(
        acts,
        vec![
            UiAction::SetSensitive(Control::Loop, true),
            UiAction::SetLoopIcon("media-playlist-repeat-song"),
            UiAction::SetLoopActive(true),
        ]
    );
    assert_eq!(s.loop_state, LoopState::LoopSingle);
    let acts = s.update_prop(PropUpdate::LoopStatus(Some("Bogus".to_string())));
    assert_eq!(
        acts,
        vec![UiAction::SetLoopIcon("media-playlist-repeat"), UiAction::SetLoopActive(false)]
    );
    assert_eq!(s.loop_state, LoopState::LoopNone);
}

#[test]
fn rate_and_volume_respect_dragging() {
    let mut s = PlayerState::new(props());
    s.clock_needs_aligned = false;
    assert_eq!(s.update_prop(PropUpdate::Rate), vec![UiAction::ShowRate]);
    assert!(s.clock_needs_aligned);
    s.is_dragging_rate = true;
    assert!(s.update_prop(PropUpdate::Rate).is_empty());
    assert_eq!(s.update_prop(PropUpdate::Volume), vec![UiAction::ShowVolume]);
    s.is_dragging_volume = true;
    assert!(s.update_prop(PropUpdate::Volume).is_empty());
    assert!(s.is_dragging_rate && s.is_dragging_volume);
    assert_eq!(s.update_prop(PropUpdate::MinimumRate), vec![UiAction::ApplyMinimumRate]);
    assert_eq!(s.update_prop(PropUpdate::MaximumRate), vec![UiAction::ApplyMaximumRate]);
}

#[test]
fn unhandled_property_is_reported() {
    let mut s = PlayerState::new(props());
    let acts = s.update_prop(PropUpdate::Unhandled("Fullscreen".to_string()));
    assert_eq!(acts, vec![UiAction::ReportUnhandled("Fullscreen".to_string())]);
}

#[test]
fn metadata_is_shown() {
    let mut s = PlayerState::new(props());
    s.clock_needs_aligned = false;
    let mut m = metadata();
    m.track_id = Some("/org/mpris/track/2".to_string());
    m.title = Some("Song".to_string());
    m.album = Some("Album".to_string());
    m.artists = Some(vec!["A".to_string(), "B".to_string()]);
    m.length = Some(180_000_000);
    m.art_url = Some("file:///cover.png".to_string());
    let acts = s.update_prop(PropUpdate::Metadata(m));
    assert_eq!(
        acts,
        vec![
            UiAction::SetTitle("Song".to_string()),
            UiAction::SetSubtitle("Album - A, B".to_string()),
            UiAction::SetDuration(180_000_000),
            UiAction::LoadArt("file:///cover.png".to_string()),
        ]
    );
    assert!(s.clock_needs_aligned);
    assert_eq!(s.current_track.as_deref(), Some("/org/mpris/track/2"));
    assert_eq!(s.art_url.as_deref(), Some("file:///cover.png"));
}

#[test]
fn same_art_is_not_reloaded() {
    let mut s = PlayerState::new(props());
    let mut m = metadata();
    m.art_url = Some("file:///cover.png".to_string());
    s.update_metadata(m);
    let mut again = metadata();
    again.art_url = Some("file:///cover.png".to_string());
    let acts = s.update_metadata(again);
    assert_eq!(acts, vec![UiAction::SetSubtitle(String::new())]);
    assert_eq!(s.current_track.as_deref(), Some("/org/mpris/track/1"));
}

#[test]
fn subtitle_forms() {
    assert_eq!(compose_subtitle(None, None), "");
    assert_eq!(compose_subtitle(Some("Album".to_string()), None), "Album");
    assert_eq!(compose_subtitle(None, Some(vec!["A".to_string(), "B".to_string()])), "A, B");
    assert_eq!(compose_subtitle(Some(String::new()), Some(vec!["A".to_string()])), "A");
    assert_eq!(compose_subtitle(Some("X".to_string()), Some(vec![])), "X - ");
}

#[test]
fn tick_plans() {
    let mut s = PlayerState::new(props());
    assert_eq!(s.tick(), TickPlan::Align);
    assert!(!s.clock_needs_aligned);
    assert_eq!(s.tick(), TickPlan::Advance);
    s.is_dragging_playback = true;
    assert_eq!(s.tick(), TickPlan::Hold);
    s.is_dragging_playback = false;
    s.update_prop(PropUpdate::PlaybackStatus(Some("Paused".to_string())));
    assert_eq!(s.tick(), TickPlan::Hold);
    assert!(s.clock_needs_aligned);
}

#[test]
fn button_requests() {
    let s = PlayerState::new(props());
    assert!(!s.shuffle_request());
    assert_eq!(s.loop_request(), "Track");
    let bare = PlayerState::new(bare_props());
    assert!(bare.shuffle_request());
    assert_eq!(bare.loop_request(), "Playlist");
}

#[test]
fn update_sensitivity_lists_all_controls() {
    let s = PlayerState::new(props());
    let acts = s.update_sensitivity();
    assert_eq!(acts.len(), 6);
    assert_eq!(acts[5], UiAction::SetSensitive(Control::Playback, true));
}

#[test]
fn art_is_scaled_to_64_pixels_high() {
    assert_eq!(art_size(128, 128), (64, 64));
    assert_eq!(art_size(300, 200), (96, 64));
    assert_eq!(art_size(100, 300), (21, 64));
}

fn apply(mut sens: Sensitivity, actions: &[UiAction]) -> Sensitivity {
    for a in actions {
        if let UiAction::SetSensitive(c, b) = a {
            match c {
                Control::PlayPause => sens.play_pause = *b,
                Control::Previous => sens.previous = *b,
                Control::Next => sens.next = *b,
                Control::Loop => sens.loop_ = *b,
                Control::Shuffle => sens.shuffle = *b,
                Control::Playback => sens.playback = *b,
            }
        }
    }
    sens
}

#[test]
fn applied_actions_give_new_sensitivity() {
    let mut s = PlayerState::new(props());
    let updates = vec![
        PropUpdate::CanPause(Some(true)),
        PropUpdate::PlaybackStatus(Some("Paused".to_string())),
        PropUpdate::CanSeek(Some(false)),
        PropUpdate::Shuffle(Some(false)),
        PropUpdate::CanControl(Some(false)),
        PropUpdate::CanGoNext(Some(false)),
        PropUpdate::CanControl(Some(true)),
        PropUpdate::LoopStatus(Some("None".to_string())),
        PropUpdate::Volume,
    ];
    for u in updates {
        let before = s.sensitivity();
        let acts = s.update_prop(u);
        assert_eq!(apply(before, &acts), s.sensitivity());
    }
}

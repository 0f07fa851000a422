use waybar_mpris::player_model::{LoopState, PlayState};

#[test]
fn play_state_inverse() {
    assert_eq!(PlayState::Stopped.inverse(), PlayState::Playing);
    assert_eq!(PlayState::Playing.inverse(), PlayState::Paused);
    assert_eq!(PlayState::Paused.inverse(), PlayState::Playing);
}

#[test]
fn play_state_inverse_toggles() {
    for s in [PlayState::Stopped, PlayState::Playing, PlayState::Paused] {
        assert_ne!(s.inverse(), PlayState::Stopped);
        assert_ne!(s.inverse(), s);
    }
    assert_eq!(PlayState::Playing.inverse().inverse(), PlayState::Playing);
    assert_eq!(PlayState::Paused.inverse().inverse(), PlayState::Paused);
}

#[test]
fn play_state_icon_names() {
    assert_eq!(PlayState::Stopped.icon_name(), "media-playback-stop");
    assert_eq!(PlayState::Playing.icon_name(), "media-playback-start");
    assert_eq!(PlayState::Paused.icon_name(), "media-playback-pause");
}

#[test]
fn play_state_names_round_trip() {
    for s in [PlayState::Stopped, PlayState::Playing, PlayState::Paused] {
        let name: &str = s.into();
        assert_eq!(name, s.as_str());
        assert_eq!(PlayState::try_from(name), Ok(s));
        assert_eq!(PlayState::try_from_str(name), Ok(s));
    }
    assert_eq!(PlayState::Playing.as_str(), "Playing");
}

#[test]
fn play_state_unknown_name_refused() {
    assert_eq!(PlayState::try_from("playing"), Err(()));
    assert_eq!(PlayState::try_from(""), Err(()));
    assert_eq!(PlayState::try_from_str("Stopped "), Err(()));
}

#[test]
fn loop_state_next_cycles() {
    assert_eq!(LoopState::LoopNone.next(), LoopState::LoopPlaylist);
    assert_eq!(LoopState::LoopPlaylist.next(), LoopState::LoopSingle);
    assert_eq!(LoopState::LoopSingle.next(), LoopState::LoopNone);
    for s in [LoopState::LoopNone, LoopState::LoopPlaylist, LoopState::LoopSingle] {
        assert_eq!(s.next().next().next(), s);
        assert_ne!(s.next(), s);
    }
}

#[test]
fn loop_state_icons_and_activity() {
    assert_eq!(LoopState::LoopNone.icon_name(), "media-playlist-repeat");
    assert_eq!(LoopState::LoopPlaylist.icon_name(), "media-playlist-repeat");
    assert_eq!(LoopState::LoopSingle.icon_name(), "media-playlist-repeat-song");
    assert!(!LoopState::LoopNone.is_active());
    assert!(LoopState::LoopPlaylist.is_active());
    assert!(LoopState::LoopSingle.is_active());
}

#[test]
fn loop_state_names_round_trip() {
    assert_eq!(LoopState::LoopNone.as_str(), "None");
    assert_eq!(LoopState::LoopSingle.as_str(), "Track");
    assert_eq!(LoopState::LoopPlaylist.as_str(), "Playlist");
    for s in [LoopState::LoopNone, LoopState::LoopPlaylist, LoopState::LoopSingle] {
        let name: &str = s.into();
        assert_eq!(LoopState::try_from(name), Ok(s));
    }
}

#[test]
fn loop_state_unknown_name_refused() {
    assert_eq!(LoopState::try_from("Single"), Err(()));
    assert_eq!(LoopState::try_from_str("none"), Err(()));
}

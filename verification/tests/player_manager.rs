use waybar_mpris::player_manager::{is_player_bus_name, OwnerChange, PlayerManager, SenderStatus};

#[test]
fn players_are_added_found_and_removed() {
    let mut m: PlayerManager<u32> = PlayerManager::new(None);
    assert!(!m.have_player_by_name(":1.5"));
    m.add_player(":1.5".to_string(), 7);
    assert!(m.have_player_by_name(":1.5"));
    assert_eq!(m.get_player(":1.5"), Some(&7));
    m.add_player(":1.5".to_string(), 8);
    assert_eq!(m.get_player(":1.5"), Some(&8));
    assert!(m.remove_player(":1.5"));
    assert!(!m.have_player_by_name(":1.5"));
    assert_eq!(m.get_player(":1.5"), None);
    assert!(!m.remove_player(":1.5"));
}

#[test]
fn other_names_are_ignored() {
    let mut m: PlayerManager<u32> = PlayerManager::new(None);
    let c = m.name_owner_changed("org.freedesktop.Notifications", String::new(), ":1.9".to_string());
    assert_eq!(c, OwnerChange::Ignore);
}

#[test]
fn new_player_appears_once() {
    let mut m: PlayerManager<u32> = PlayerManager::new(None);
    let c = m.name_owner_changed("org.mpris.MediaPlayer2.vlc", String::new(), ":1.9".to_string());
    assert_eq!(c, OwnerChange::PlayerAppeared(":1.9".to_string()));
    m.add_player(":1.9".to_string(), 1);
    let c = m.name_owner_changed("org.mpris.MediaPlayer2.vlc", String::new(), ":1.9".to_string());
    assert_eq!(c, OwnerChange::Ignore);
}

#[test]
fn player_leaving_is_gone() {
    let mut m: PlayerManager<u32> = PlayerManager::new(None);
    let c = m.name_owner_changed("org.mpris.MediaPlayer2.vlc", ":1.9".to_string(), String::new());
    assert_eq!(c, OwnerChange::PlayerGone(":1.9".to_string()));
}

#[test]
fn owner_handover_is_ignored() {
    let mut m: PlayerManager<u32> = PlayerManager::new(None);
    let c = m.name_owner_changed("org.mpris.MediaPlayer2.vlc", ":1.9".to_string(), ":1.10".to_string());
    assert_eq!(c, OwnerChange::Ignore);
}

#[test]
fn playerctld_is_remembered_and_not_revived() {
    let mut m: PlayerManager<u32> = PlayerManager::new(Some(":1.2".to_string()));
    assert_eq!(m.sender_status(":1.2"), SenderStatus::Playerctld);
    let c = m.name_owner_changed(
        "org.mpris.MediaPlayer2.playerctld",
        ":1.2".to_string(),
        ":1.3".to_string(),
    );
    assert_eq!(c, OwnerChange::PlayerctldMoved(":1.3".to_string()));
    assert_eq!(m.playerctld_owner().map(|s| s.as_str()), Some(":1.3"));
    assert_eq!(m.sender_status(":1.3"), SenderStatus::Playerctld);
    assert_eq!(m.sender_status(":1.2"), SenderStatus::Unknown);
    m.add_player(":1.4".to_string(), 4);
    assert_eq!(m.sender_status(":1.4"), SenderStatus::Known);
}

#[test]
fn playerctld_leaving_is_a_player_gone() {
    let mut m: PlayerManager<u32> = PlayerManager::new(Some(":1.2".to_string()));
    let c = m.name_owner_changed("org.mpris.MediaPlayer2.playerctld", ":1.2".to_string(), String::new());
    assert_eq!(c, OwnerChange::PlayerGone(":1.2".to_string()));
    assert_eq!(m.playerctld_owner().map(|s| s.as_str()), Some(":1.2"));
}

#[test]
fn bus_names_of_players() {
    assert!(is_player_bus_name("org.mpris.MediaPlayer2.spotify"));
    assert!(!is_player_bus_name("org.mpris.MediaPlayer2.playerctld"));
    assert!(!is_player_bus_name("org.freedesktop.DBus"));
}

use waybar_mpris::config::{Config, ConfigError, DeserialRegex};

#[test]
fn valid_pattern_compiles() {
    let r = DeserialRegex::new("^firefox").unwrap();
    assert_eq!(r.as_str(), "^firefox");
    assert!(r.regex().is_match("firefox.instance_1"));
    assert!(!r.regex().is_match("org.firefox"));
}

#[test]
fn invalid_pattern_is_refused() {
    let r = DeserialRegex::new("(unclosed");
    assert!(matches!(r, Err(ConfigError::InvalidPattern(_))));
}

#[test]
fn defaults() {
    let c = Config::new(None, None, None).unwrap();
    assert_eq!(c.max_title_length(), 50);
    assert_eq!(c.max_subtitle_length(), 50);
    assert_eq!(c.ignored_players().as_str(), "\\bplayerctld$");
    assert!(c.ignored_players().is_match("org.mpris.MediaPlayer2.playerctld"));
    assert!(!c.ignored_players().is_match("org.mpris.MediaPlayer2.vlc"));
}

#[test]
fn configured_values() {
    let r = DeserialRegex::new("vlc").unwrap();
    let c = Config::new(Some(r), Some(20), Some(0)).unwrap();
    assert_eq!(c.max_title_length(), 20);
    assert_eq!(c.max_subtitle_length(), 0);
    assert_eq!(c.ignored_players().as_str(), "vlc");
}

#[test]
fn stored_regex_keeps_its_pattern() {
    let r = DeserialRegex::new("a+b").unwrap();
    assert_eq!(r.regex().as_str(), "a+b");
    let c = Config::new(Some(r), None, None).unwrap();
    assert_eq!(c.ignored_players().as_str(), "a+b");
}

//! Playback and loop states of an MPRIS player, and the names under which
//! the MPRIS interface reports them.
use vstd::prelude::*;
use crate::str_utils::str_eq;

verus! {

/// The `PlaybackStatus` of an MPRIS player.
#[derive(PartialEq, Eq, Structural, Clone, Copy, Debug)]
pub enum PlayState {
    Stopped,
    Playing,
    Paused,
}

impl PlayState {
    /// The state that pressing the play/pause button leads to.
    pub open spec fn spec_inverse(self) -> PlayState {
        match self {
            PlayState::Stopped => PlayState::Playing,
            PlayState::Playing => PlayState::Paused,
            PlayState::Paused => PlayState::Playing,
        }
    }

    /// The icon shown for this state.
    pub open spec fn spec_icon_name(self) -> Seq<char> {
        match self {
            PlayState::Stopped => "media-playback-stop"@,
            PlayState::Playing => "media-playback-start"@,
            PlayState::Paused => "media-playback-pause"@,
        }
    }

    /// The name of this state in the MPRIS `PlaybackStatus` property.
    pub open spec fn spec_status_name(self) -> Seq<char> {
        match self {
            PlayState::Stopped => "Stopped"@,
            PlayState::Playing => "Playing"@,
            PlayState::Paused => "Paused"@,
        }
    }

    /// The state that a `PlaybackStatus` name stands for, if any.
    pub open spec fn spec_parse(name: Seq<char>) -> Result<PlayState, ()> {
        if name == "Stopped"@ {
            Ok(PlayState::Stopped)
        } else if name == "Playing"@ {
            Ok(PlayState::Playing)
        } else if name == "Paused"@ {
            Ok(PlayState::Paused)
        } else {
            Err(())
        }
    }

    /// The state that pressing the play/pause button leads to: a playing
    /// player pauses, a paused or stopped one plays.
    pub fn inverse(&self) -> (res: PlayState)
        ensures
            res == self.spec_inverse(),
    {
        match self {
            PlayState::Stopped => PlayState::Playing,
            PlayState::Playing => PlayState::Paused,
            PlayState::Paused => PlayState::Playing,
        }
    }

    /// The icon shown for this state.
    pub fn icon_name(&self) -> (res: &'static str)
        ensures
            res@ == self.spec_icon_name(),
    {
        match self {
            PlayState::Stopped => "media-playback-stop",
            PlayState::Playing => "media-playback-start",
            PlayState::Paused => "media-playback-pause",
        }
    }

    /// The name of this state in the MPRIS `PlaybackStatus` property.
    pub fn as_str(self) -> (res: &'static str)
        ensures
            res@ == self.spec_status_name(),
    {
        match self {
            PlayState::Stopped => "Stopped",
            PlayState::Playing => "Playing",
            PlayState::Paused => "Paused",
        }
    }

    /// Reads a `PlaybackStatus` name; any other text is refused.
    pub fn try_from_str(value: &str) -> (res: Result<PlayState, ()>)
        ensures
            res == PlayState::spec_parse(value@),
    {
        if str_eq(value, "Stopped") {
            Ok(PlayState::Stopped)
        } else if str_eq(value, "Playing") {
            Ok(PlayState::Playing)
        } else if str_eq(value, "Paused") {
            Ok(PlayState::Paused)
        } else {
            Err(())
        }
    }
}

impl<'a> TryFrom<&'a str> for PlayState {
    type Error = ();

    /// Reads a `PlaybackStatus` name; any other text is refused.
    fn try_from(value: &'a str) -> (res: Result<PlayState, ()>) {
        PlayState::try_from_str(value)
    }
}

impl<'a> vstd::std_specs::convert::TryFromSpecImpl<&'a str> for PlayState {
    open spec fn obeys_try_from_spec() -> bool {
        true
    }

    open spec fn try_from_spec(v: &'a str) -> Result<PlayState, ()> {
        PlayState::spec_parse(v@)
    }
}

impl From<PlayState> for &'static str {
    /// The name of a state in the MPRIS `PlaybackStatus` property.
    fn from(s: PlayState) -> (res: &'static str) {
        match s {
            PlayState::Stopped => "Stopped",
            PlayState::Playing => "Playing",
            PlayState::Paused => "Paused",
        }
    }
}

impl vstd::std_specs::convert::FromSpecImpl<PlayState> for &'static str {
    open spec fn obeys_from_spec() -> bool {
        true
    }

    open spec fn from_spec(s: PlayState) -> &'static str {
        match s {
            PlayState::Stopped => "Stopped",
            PlayState::Playing => "Playing",
            PlayState::Paused => "Paused",
        }
    }
}

/// The `LoopStatus` of an MPRIS player.
#[derive(PartialEq, Eq, Structural, Clone, Copy, Debug)]
pub enum LoopState {
    LoopNone,
    LoopPlaylist,
    LoopSingle,
}

impl LoopState {
    /// The state that pressing the loop button asks for.
    pub open spec fn spec_next(self) -> LoopState {
        match self {
            LoopState::LoopNone => LoopState::LoopPlaylist,
            LoopState::LoopPlaylist => LoopState::LoopSingle,
            LoopState::LoopSingle => LoopState::LoopNone,
        }
    }

    /// The icon shown for this state.
    pub open spec fn spec_icon_name(self) -> Seq<char> {
        match self {
            LoopState::LoopNone => "media-playlist-repeat"@,
            LoopState::LoopPlaylist => "media-playlist-repeat"@,
            LoopState::LoopSingle => "media-playlist-repeat-song"@,
        }
    }

    /// Whether the loop button shows as pressed in this state.
    pub open spec fn spec_is_active(self) -> bool {
        self != LoopState::LoopNone
    }

    /// The name of this state in the MPRIS `LoopStatus` property.
    pub open spec fn spec_status_name(self) -> Seq<char> {
        match self {
            LoopState::LoopNone => "None"@,
            LoopState::LoopSingle => "Track"@,
            LoopState::LoopPlaylist => "Playlist"@,
        }
    }

    /// The state that a `LoopStatus` name stands for, if any.
    pub open spec fn spec_parse(name: Seq<char>) -> Result<LoopState, ()> {
        if name == "None"@ {
            Ok(LoopState::LoopNone)
        } else if name == "Track"@ {
            Ok(LoopState::LoopSingle)
        } else if name == "Playlist"@ {
            Ok(LoopState::LoopPlaylist)
        } else {
            Err(())
        }
    }

    /// The state that pressing the loop button asks for: no loop, then the
    /// whole playlist, then the single track, then no loop again.
    pub fn next(&self) -> (res: LoopState)
        ensures
            res == self.spec_next(),
    {
        match self {
            LoopState::LoopNone => LoopState::LoopPlaylist,
            LoopState::LoopPlaylist => LoopState::LoopSingle,
            LoopState::LoopSingle => LoopState::LoopNone,
        }
    }

    /// The icon shown for this state.
    pub fn icon_name(&self) -> (res: &'static str)
        ensures
            res@ == self.spec_icon_name(),
    {
        match self {
            LoopState::LoopNone => "media-playlist-repeat",
            LoopState::LoopPlaylist => "media-playlist-repeat",
            LoopState::LoopSingle => "media-playlist-repeat-song",
        }
    }

    /// Whether the loop button shows as pressed: in every state but `None`.
    pub fn is_active(&self) -> (res: bool)
        ensures
            res == self.spec_is_active(),
    {
        *self != LoopState::LoopNone
    }

    /// The name of this state in the MPRIS `LoopStatus` property.
    pub fn as_str(self) -> (res: &'static str)
        ensures
            res@ == self.spec_status_name(),
    {
        match self {
            LoopState::LoopNone => "None",
            LoopState::LoopSingle => "Track",
            LoopState::LoopPlaylist => "Playlist",
        }
    }

    /// Reads a `LoopStatus` name; any other text is refused.
    pub fn try_from_str(value: &str) -> (res: Result<LoopState, ()>)
        ensures
            res == LoopState::spec_parse(value@),
    {
        if str_eq(value, "None") {
            Ok(LoopState::LoopNone)
        } else if str_eq(value, "Track") {
            Ok(LoopState::LoopSingle)
        } else if str_eq(value, "Playlist") {
            Ok(LoopState::LoopPlaylist)
        } else {
            Err(())
        }
    }
}

impl<'a> TryFrom<&'a str> for LoopState {
    type Error = ();

    /// Reads a `LoopStatus` name; any other text is refused.
    fn try_from(value: &'a str) -> (res: Result<LoopState, ()>) {
        LoopState::try_from_str(value)
    }
}

impl<'a> vstd::std_specs::convert::TryFromSpecImpl<&'a str> for LoopState {
    open spec fn obeys_try_from_spec() -> bool {
        true
    }

    open spec fn try_from_spec(v: &'a str) -> Result<LoopState, ()> {
        LoopState::spec_parse(v@)
    }
}

impl From<LoopState> for &'static str {
    /// The name of a state in the MPRIS `LoopStatus` property.
    fn from(s: LoopState) -> (res: &'static str) {
        match s {
            LoopState::LoopNone => "None",
            LoopState::LoopSingle => "Track",
            LoopState::LoopPlaylist => "Playlist",
        }
    }
}

impl vstd::std_specs::convert::FromSpecImpl<LoopState> for &'static str {
    open spec fn obeys_from_spec() -> bool {
        true
    }

    open spec fn from_spec(s: LoopState) -> &'static str {
        match s {
            LoopState::LoopNone => "None",
            LoopState::LoopSingle => "Track",
            LoopState::LoopPlaylist => "Playlist",
        }
    }
}

/// Reading back the name of a playback state gives that state.
pub proof fn lemma_play_state_name_round_trip(s: PlayState)
    ensures
        PlayState::spec_parse(s.spec_status_name()) == Ok::<PlayState, ()>(s),
{
    reveal_strlit("Stopped");
    reveal_strlit("Playing");
    reveal_strlit("Paused");
    assert("Playing"@[1] != "Stopped"@[1]);
    assert("Paused"@.len() != "Stopped"@.len());
    assert("Paused"@.len() != "Playing"@.len());
}

/// A `PlaybackStatus` name that is read as a state is that state's name.
pub proof fn lemma_play_state_parse_exact(name: Seq<char>)
    ensures
        PlayState::spec_parse(name) matches Ok(s) ==> s.spec_status_name() == name,
{
}

/// Reading back the name of a loop state gives that state.
pub proof fn lemma_loop_state_name_round_trip(s: LoopState)
    ensures
        LoopState::spec_parse(s.spec_status_name()) == Ok::<LoopState, ()>(s),
{
    reveal_strlit("None");
    reveal_strlit("Track");
    reveal_strlit("Playlist");
    assert("Track"@.len() != "None"@.len());
    assert("Playlist"@.len() != "None"@.len());
    assert("Playlist"@.len() != "Track"@.len());
}

/// A `LoopStatus` name that is read as a state is that state's name.
pub proof fn lemma_loop_state_parse_exact(name: Seq<char>)
    ensures
        LoopState::spec_parse(name) matches Ok(s) ==> s.spec_status_name() == name,
{
}

/// Pressing the loop button three times comes back to the starting state,
/// passing through the two other states on the way.
pub proof fn lemma_loop_cycle(s: LoopState)
    ensures
        s.spec_next().spec_next().spec_next() == s,
        s.spec_next() != s,
        s.spec_next().spec_next() != s,
{
}

/// The play/pause button never asks for `Stopped`, and it swaps `Playing`
/// and `Paused`.
pub proof fn lemma_inverse_toggles(s: PlayState)
    ensures
        s.spec_inverse() != PlayState::Stopped,
        s != PlayState::Stopped ==> s.spec_inverse().spec_inverse() == s,
        s.spec_inverse() != s,
{
}

} // verus!

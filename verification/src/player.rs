//! The state that the widget keeps for one MPRIS player, and how it follows
//! the property updates that the player announces.
//!
//! Every update changes the state and yields the list of changes that the
//! widget applies to its controls, in order.
use vstd::prelude::*;
use crate::player_model::{LoopState, PlayState};
use crate::str_utils::{join, join_strings, str_eq, string_views};

verus! {

/// The text held by an optional string.
pub open spec fn opt_view(o: Option<String>) -> Option<Seq<char>> {
    match o {
        Some(s) => Some(s@),
        None => None,
    }
}

/// The controls of a player widget whose sensitivity the state decides.
#[derive(PartialEq, Eq, Structural, Clone, Copy, Debug)]
pub enum Control {
    PlayPause,
    Previous,
    Next,
    Loop,
    Shuffle,
    Playback,
}

/// A change that the widget applies to its controls.
#[derive(PartialEq, Eq, Debug)]
pub enum UiAction {
    /// Make a control sensitive or not.
    SetSensitive(Control, bool),
    /// Show the shuffle button pressed or not, without reporting a click.
    SetShuffleActive(bool),
    /// Show this icon on the loop button.
    SetLoopIcon(&'static str),
    /// Show the loop button pressed or not, without reporting a click.
    SetLoopActive(bool),
    /// Show this icon on the play/pause button.
    SetPlayPauseIcon(&'static str),
    /// Show this track title.
    SetTitle(String),
    /// Show this album and artist line.
    SetSubtitle(String),
    /// The track lasts this many microseconds.
    SetDuration(i64),
    /// Fetch and show the album art at this address.
    LoadArt(String),
    /// Apply the player's new minimum rate to the rate control.
    ApplyMinimumRate,
    /// Apply the player's new maximum rate to the rate control.
    ApplyMaximumRate,
    /// Move the rate control to the player's new rate.
    ShowRate,
    /// Move the volume control to the player's new volume.
    ShowVolume,
    /// Report a property that the widget does not follow.
    ReportUnhandled(String),
}

/// What a [`UiAction`] does, with texts as character sequences.
pub enum UiActionView {
    SetSensitive(Control, bool),
    SetShuffleActive(bool),
    SetLoopIcon(Seq<char>),
    SetLoopActive(bool),
    SetPlayPauseIcon(Seq<char>),
    SetTitle(Seq<char>),
    SetSubtitle(Seq<char>),
    SetDuration(i64),
    LoadArt(Seq<char>),
    ApplyMinimumRate,
    ApplyMaximumRate,
    ShowRate,
    ShowVolume,
    ReportUnhandled(Seq<char>),
}

impl View for UiAction {
    type V = UiActionView;

    open spec fn view(&self) -> UiActionView {
        match self {
            UiAction::SetSensitive(c, b) => UiActionView::SetSensitive(*c, *b),
            UiAction::SetShuffleActive(b) => UiActionView::SetShuffleActive(*b),
            UiAction::SetLoopIcon(s) => UiActionView::SetLoopIcon(s@),
            UiAction::SetLoopActive(b) => UiActionView::SetLoopActive(*b),
            UiAction::SetPlayPauseIcon(s) => UiActionView::SetPlayPauseIcon(s@),
            UiAction::SetTitle(s) => UiActionView::SetTitle(s@),
            UiAction::SetSubtitle(s) => UiActionView::SetSubtitle(s@),
            UiAction::SetDuration(d) => UiActionView::SetDuration(*d),
            UiAction::LoadArt(s) => UiActionView::LoadArt(s@),
            UiAction::ApplyMinimumRate => UiActionView::ApplyMinimumRate,
            UiAction::ApplyMaximumRate => UiActionView::ApplyMaximumRate,
            UiAction::ShowRate => UiActionView::ShowRate,
            UiAction::ShowVolume => UiActionView::ShowVolume,
            UiAction::ReportUnhandled(s) => UiActionView::ReportUnhandled(s@),
        }
    }
}

/// What a list of actions does.
pub open spec fn action_views(v: Seq<UiAction>) -> Seq<UiActionView> {
    v.map_values(|a: UiAction| a@)
}

/// Appends an action to a list.
fn push_action(v: &mut Vec<UiAction>, a: UiAction)
    ensures
        action_views(final(v)@) == action_views(old(v)@).push(a@),
{
    let ghost before = v@;
    v.push(a);
    assert(action_views(v@) =~= action_views(before).push(a@));
}

/// No action.
fn no_actions() -> (res: Vec<UiAction>)
    ensures
        action_views(res@) == Seq::<UiActionView>::empty(),
{
    let v: Vec<UiAction> = Vec::new();
    assert(action_views(v@) =~= Seq::<UiActionView>::empty());
    v
}

/// A single action.
fn single_action(a: UiAction) -> (res: Vec<UiAction>)
    ensures
        action_views(res@) == seq![a@],
{
    let mut v: Vec<UiAction> = Vec::new();
    v.push(a);
    assert(action_views(v@) =~= seq![a@]);
    v
}

/// What showing the texts of a track's metadata does: the title where there
/// is one, the album and artist line, and the duration where there is one.
pub open spec fn metadata_text_views(
    title: Option<String>,
    album: Option<String>,
    artists: Option<Vec<String>>,
    length: Option<i64>,
) -> Seq<UiActionView> {
    opt_action(
        match title {
            Some(t) => Some(UiActionView::SetTitle(t@)),
            None => None,
        },
    ) + seq![UiActionView::SetSubtitle(subtitle_of(album, artists))] + opt_action(
        match length {
            Some(d) => Some(UiActionView::SetDuration(d)),
            None => None,
        },
    )
}

/// What showing new album art does: load it where its address differs from
/// the one on show.
pub open spec fn art_views(shown: Option<String>, new: Option<String>) -> Seq<UiActionView> {
    opt_action(
        if art_changes(shown, new) {
            Some(UiActionView::LoadArt(new.unwrap()@))
        } else {
            None
        },
    )
}

/// The actions that show the texts of a track's metadata.
fn metadata_text_actions(
    title: Option<String>,
    album: Option<String>,
    artists: Option<Vec<String>>,
    length: Option<i64>,
) -> (res: Vec<UiAction>)
    ensures
        action_views(res@) == metadata_text_views(title, album, artists, length),
{
    let mut v = match title {
        Some(t) => single_action(UiAction::SetTitle(t)),
        None => no_actions(),
    };
    let subtitle = compose_subtitle(album, artists);
    push_action(&mut v, UiAction::SetSubtitle(subtitle));
    let ghost before = action_views(v@);
    match length {
        Some(d) => push_action(&mut v, UiAction::SetDuration(d)),
        None => {},
    }
    proof {
        let dur = opt_action(
            match length {
                Some(d) => Some(UiActionView::SetDuration(d)),
                None => None,
            },
        );
        assert(action_views(v@) =~= before + dur);
    }
    v
}

/// Integer division rounding toward zero, as Rust divides.
pub open spec fn trunc_div(a: int, b: int) -> int {
    let q = (if a >= 0 { a } else { -a }) / (if b >= 0 { b } else { -b });
    if (a >= 0) == (b > 0) {
        q
    } else {
        -q
    }
}

/// The height, in pixels, at which album art is shown.
pub open spec fn art_height() -> int {
    64
}

/// The size at which album art of `width` by `height` pixels is shown: 64
/// pixels high, and as wide as keeps its proportions (rounded toward zero).
pub fn art_size(width: i32, height: i32) -> (res: (i32, i32))
    requires
        height != 0,
        i32::MIN <= width * art_height() <= i32::MAX,
        !(width * art_height() == i32::MIN && height == -1),
    ensures
        res.0 == trunc_div(width * art_height(), height as int),
        res.1 == art_height(),
{
    let dest_height: i32 = 64;
    let scaled = width * dest_height;
    let magnitude = if scaled >= 0 { scaled as i64 } else { -(scaled as i64) };
    let divisor = if height >= 0 { height as i64 } else { -(height as i64) };
    let quotient = magnitude / divisor;
    assert(0 <= quotient <= magnitude) by (nonlinear_arith)
        requires
            magnitude >= 0,
            divisor >= 1,
            quotient == magnitude / divisor,
    ;
    assert(divisor >= 2 ==> 2 * quotient <= magnitude) by (nonlinear_arith)
        requires
            magnitude >= 0,
            divisor >= 1,
            quotient == magnitude / divisor,
    ;
    let dest_width = if (scaled >= 0) == (height > 0) { quotient } else { -quotient };
    (dest_width as i32, dest_height)
}

/// The player properties that the widget follows, by their MPRIS names.
#[derive(PartialEq, Eq, Structural, Clone, Copy, Debug)]
pub enum PropKind {
    Metadata,
    CanControl,
    CanSeek,
    CanPause,
    CanPlay,
    CanGoNext,
    CanGoPrevious,
    Shuffle,
    LoopStatus,
    PlaybackStatus,
    MinimumRate,
    MaximumRate,
    Rate,
    Volume,
    Unhandled,
}

impl PropKind {
    /// The property that an MPRIS property name stands for.
    pub open spec fn spec_of(name: Seq<char>) -> PropKind {
        if name == "Metadata"@ {
            PropKind::Metadata
        } else if name == "CanControl"@ {
            PropKind::CanControl
        } else if name == "CanSeek"@ {
            PropKind::CanSeek
        } else if name == "CanPause"@ {
            PropKind::CanPause
        } else if name == "CanPlay"@ {
            PropKind::CanPlay
        } else if name == "CanGoNext"@ {
            PropKind::CanGoNext
        } else if name == "CanGoPrevious"@ {
            PropKind::CanGoPrevious
        } else if name == "Shuffle"@ {
            PropKind::Shuffle
        } else if name == "LoopStatus"@ {
            PropKind::LoopStatus
        } else if name == "PlaybackStatus"@ {
            PropKind::PlaybackStatus
        } else if name == "MinimumRate"@ {
            PropKind::MinimumRate
        } else if name == "MaximumRate"@ {
            PropKind::MaximumRate
        } else if name == "Rate"@ {
            PropKind::Rate
        } else if name == "Volume"@ {
            PropKind::Volume
        } else {
            PropKind::Unhandled
        }
    }

    /// The property that an MPRIS property name stands for; names that the
    /// widget does not follow give `Unhandled`.
    pub fn of(name: &str) -> (res: PropKind)
        ensures
            res == PropKind::spec_of(name@),
    {
        if str_eq(name, "Metadata") {
            PropKind::Metadata
        } else if str_eq(name, "CanControl") {
            PropKind::CanControl
        } else if str_eq(name, "CanSeek") {
            PropKind::CanSeek
        } else if str_eq(name, "CanPause") {
            PropKind::CanPause
        } else if str_eq(name, "CanPlay") {
            PropKind::CanPlay
        } else if str_eq(name, "CanGoNext") {
            PropKind::CanGoNext
        } else if str_eq(name, "CanGoPrevious") {
            PropKind::CanGoPrevious
        } else if str_eq(name, "Shuffle") {
            PropKind::Shuffle
        } else if str_eq(name, "LoopStatus") {
            PropKind::LoopStatus
        } else if str_eq(name, "PlaybackStatus") {
            PropKind::PlaybackStatus
        } else if str_eq(name, "MinimumRate") {
            PropKind::MinimumRate
        } else if str_eq(name, "MaximumRate") {
            PropKind::MaximumRate
        } else if str_eq(name, "Rate") {
            PropKind::Rate
        } else if str_eq(name, "Volume") {
            PropKind::Volume
        } else {
            PropKind::Unhandled
        }
    }
}

/// The entries of a track's `Metadata` that the widget reads, each present
/// only where the player sent it with the expected type.
pub struct MetadataUpdate {
    /// `mpris:trackid`
    pub track_id: Option<String>,
    /// `xesam:title`
    pub title: Option<String>,
    /// `xesam:album`
    pub album: Option<String>,
    /// `xesam:artist`
    pub artists: Option<Vec<String>>,
    /// `mpris:length`, in microseconds
    pub length: Option<i64>,
    /// `mpris:artUrl`
    pub art_url: Option<String>,
}

/// A property update as the player sent it: the property, with its value
/// where it was of the type that the property has.  Rates and the volume
/// are numbers that the widget applies to its controls itself.
pub enum PropUpdate {
    Metadata(MetadataUpdate),
    CanControl(Option<bool>),
    CanSeek(Option<bool>),
    CanPause(Option<bool>),
    CanPlay(Option<bool>),
    CanGoNext(Option<bool>),
    CanGoPrevious(Option<bool>),
    Shuffle(Option<bool>),
    LoopStatus(Option<String>),
    PlaybackStatus(Option<String>),
    MinimumRate,
    MaximumRate,
    Rate,
    Volume,
    /// A property that the widget does not follow, by its name.
    Unhandled(String),
}

/// The properties that a player reports when the widget first asks for all
/// of them.
pub struct InitialProps {
    /// `PlaybackStatus`, where it is a string
    pub playback_status: Option<String>,
    /// `LoopStatus`, where it is a string
    pub loop_status: Option<String>,
    /// `Shuffle`, where it is a boolean
    pub shuffle: Option<bool>,
    /// Whether the player reports `LoopStatus` at all
    pub has_loop_status: bool,
    /// Whether the player reports `Shuffle` at all
    pub has_shuffle: bool,
    pub can_control: Option<bool>,
    pub can_seek: Option<bool>,
    pub can_play: Option<bool>,
    pub can_pause: Option<bool>,
    pub can_go_next: Option<bool>,
    pub can_go_previous: Option<bool>,
    /// `mpris:trackid` of the current track's metadata
    pub track_id: Option<String>,
}

/// The sensitivity of each control, as the state decides it.
#[derive(PartialEq, Eq, Structural, Clone, Copy, Debug)]
pub struct Sensitivity {
    pub play_pause: bool,
    pub previous: bool,
    pub next: bool,
    pub loop_: bool,
    pub shuffle: bool,
    pub playback: bool,
}

/// What to do with the playback position at a frame of the widget.
#[derive(PartialEq, Eq, Structural, Clone, Copy, Debug)]
pub enum TickPlan {
    /// Leave the position where it is: the user drags it, or nothing plays.
    Hold,
    /// Ask the player for its position and align the clock to it.
    Align,
    /// Move the position on from the aligned clock.
    Advance,
}

/// What the widget knows of one player.
pub struct PlayerState {
    /// The track that the player plays, by its MPRIS object path.
    pub current_track: Option<String>,
    /// The address of the album art on show.
    pub art_url: Option<String>,
    pub play_state: PlayState,
    pub shuffle_state: bool,
    pub loop_state: LoopState,
    pub can_control: bool,
    pub can_seek: bool,
    pub can_play: bool,
    pub can_pause: bool,
    pub can_go_prev: bool,
    pub can_go_next: bool,
    /// Whether the player has reported `Shuffle`.
    pub has_shuf: bool,
    /// Whether the player has reported `LoopStatus`.
    pub has_loop: bool,
    /// Whether the playback position must be asked of the player again.
    pub clock_needs_aligned: bool,
    pub is_dragging_playback: bool,
    pub is_dragging_volume: bool,
    pub is_dragging_rate: bool,
}

/// A flag that the player reports, where a missing or mistyped value
/// counts as `false`.
pub open spec fn flag(v: Option<bool>) -> bool {
    match v {
        Some(b) => b,
        None => false,
    }
}

/// The playback state that a reported `PlaybackStatus` stands for, where a
/// missing or unknown status counts as `Stopped`.
pub open spec fn play_state_of(v: Option<String>) -> PlayState {
    match v {
        Some(s) => match PlayState::spec_parse(s@) {
            Ok(p) => p,
            Err(_) => PlayState::Stopped,
        },
        None => PlayState::Stopped,
    }
}

/// The loop state that a reported `LoopStatus` stands for, where a missing
/// or unknown status counts as no loop.
pub open spec fn loop_state_of(v: Option<String>) -> LoopState {
    match v {
        Some(s) => match LoopState::spec_parse(s@) {
            Ok(l) => l,
            Err(_) => LoopState::LoopNone,
        },
        None => LoopState::LoopNone,
    }
}

/// The album and artist line: the album, then ` - ` and the artists
/// separated by `, ` where the player names artists (the dash only where
/// an album text comes before it).
pub open spec fn subtitle_of(album: Option<String>, artists: Option<Vec<String>>) -> Seq<char> {
    let a = match album {
        Some(s) => s@,
        None => Seq::empty(),
    };
    match artists {
        Some(v) => (if a.len() == 0 {
            a
        } else {
            a + " - "@
        }) + join(string_views(v@), ", "@),
        None => a,
    }
}

fn flag_value(v: Option<bool>) -> (res: bool)
    ensures
        res == flag(v),
{
    match v {
        Some(b) => b,
        None => false,
    }
}

fn play_state_value(v: Option<String>) -> (res: PlayState)
    ensures
        res == play_state_of(v),
{
    match v {
        Some(s) => match PlayState::try_from_str(s.as_str()) {
            Ok(p) => p,
            Err(_) => PlayState::Stopped,
        },
        None => PlayState::Stopped,
    }
}

fn loop_state_value(v: Option<String>) -> (res: LoopState)
    ensures
        res == loop_state_of(v),
{
    match v {
        Some(s) => match LoopState::try_from_str(s.as_str()) {
            Ok(l) => l,
            Err(_) => LoopState::LoopNone,
        },
        None => LoopState::LoopNone,
    }
}

/// The album and artist line of a track.
pub fn compose_subtitle(album: Option<String>, artists: Option<Vec<String>>) -> (res: String)
    ensures
        res@ == subtitle_of(album, artists),
{
    let mut subtitle = String::new();
    match &album {
        Some(a) => subtitle.append(a.as_str()),
        None => {},
    }
    match &artists {
        Some(v) => {
            if subtitle.as_str().unicode_len() != 0 {
                subtitle.append(" - ");
            }
            let joined = join_strings(v, ", ");
            subtitle.append(joined.as_str());
        },
        None => {},
    }
    subtitle
}

/// The actions for a value that may be missing: one, or none.
pub open spec fn opt_action(a: Option<UiActionView>) -> Seq<UiActionView> {
    match a {
        Some(x) => seq![x],
        None => Seq::empty(),
    }
}

/// Whether an album art address differs from the one on show.
pub open spec fn art_changes(shown: Option<String>, new: Option<String>) -> bool {
    match new {
        Some(u) => opt_view(shown) != Some(u@),
        None => false,
    }
}

impl PlayerState {
    /// The sensitivity of each control: none without control of the player,
    /// and otherwise each as the matching capability.
    pub open spec fn spec_sensitivity(self) -> Sensitivity {
        Sensitivity {
            play_pause: self.can_control && (if self.play_state == PlayState::Playing {
                self.can_pause
            } else {
                self.can_play
            }),
            previous: self.can_control && self.can_go_prev,
            next: self.can_control && self.can_go_next,
            loop_: self.can_control && self.has_loop,
            shuffle: self.can_control && self.has_shuf,
            playback: self.can_control && self.can_seek,
        }
    }

    /// The actions that apply the whole sensitivity to the controls.
    pub open spec fn sensitivity_actions(self) -> Seq<UiActionView> {
        let s = self.spec_sensitivity();
        seq![
            UiActionView::SetSensitive(Control::PlayPause, s.play_pause),
            UiActionView::SetSensitive(Control::Previous, s.previous),
            UiActionView::SetSensitive(Control::Next, s.next),
            UiActionView::SetSensitive(Control::Loop, s.loop_),
            UiActionView::SetSensitive(Control::Shuffle, s.shuffle),
            UiActionView::SetSensitive(Control::Playback, s.playback),
        ]
    }

    /// The state after a track's metadata arrives: the clock is to be
    /// aligned, the track is the one named where one is named, and the album
    /// art address is the new one where it changed.
    pub open spec fn after_metadata(self, m: MetadataUpdate) -> PlayerState {
        PlayerState {
            clock_needs_aligned: true,
            current_track: if m.track_id is Some {
                m.track_id
            } else {
                self.current_track
            },
            art_url: if art_changes(self.art_url, m.art_url) {
                m.art_url
            } else {
                self.art_url
            },
            ..self
        }
    }

    /// The actions that show a track's metadata: the title where there is
    /// one, the album and artist line, the duration where there is one, and
    /// new album art where its address changed.
    pub open spec fn metadata_actions(self, m: MetadataUpdate) -> Seq<UiActionView> {
        metadata_text_views(m.title, m.album, m.artists, m.length) + art_views(
            self.art_url,
            m.art_url,
        )
    }

    /// The state after a property update.
    #[verifier::opaque]
    pub open spec fn after_prop(self, u: PropUpdate) -> PlayerState {
        match u {
            PropUpdate::Metadata(m) => self.after_metadata(m),
            PropUpdate::CanControl(v) => PlayerState { can_control: flag(v), ..self },
            PropUpdate::CanSeek(v) => PlayerState { can_seek: flag(v), ..self },
            PropUpdate::CanPause(v) => PlayerState { can_pause: flag(v), ..self },
            PropUpdate::CanPlay(v) => PlayerState { can_play: flag(v), ..self },
            PropUpdate::CanGoNext(v) => PlayerState { can_go_next: flag(v), ..self },
            PropUpdate::CanGoPrevious(v) => PlayerState { can_go_prev: flag(v), ..self },
            PropUpdate::Shuffle(v) => PlayerState { has_shuf: true, shuffle_state: flag(v), ..self },
            PropUpdate::LoopStatus(v) => PlayerState {
                has_loop: true,
                loop_state: loop_state_of(v),
                ..self
            },
            PropUpdate::PlaybackStatus(v) => PlayerState {
                play_state: play_state_of(v),
                clock_needs_aligned: true,
                ..self
            },
            PropUpdate::Rate => PlayerState { clock_needs_aligned: true, ..self },
            _ => self,
        }
    }

    /// The actions that apply a property update to the controls.  A
    /// capability that changes is applied to its control only while the
    /// player can be controlled; a status shows on its button; the rate and
    /// the volume move their controls unless the user drags them.
    #[verifier::opaque]
    pub open spec fn prop_actions(self, u: PropUpdate) -> Seq<UiActionView> {
        match u {
            PropUpdate::Metadata(m) => self.metadata_actions(m),
            PropUpdate::CanControl(v) => PlayerState {
                can_control: flag(v),
                ..self
            }.sensitivity_actions(),
            PropUpdate::CanSeek(v) => opt_action(
                if self.can_control {
                    Some(UiActionView::SetSensitive(Control::Playback, flag(v)))
                } else {
                    None
                },
            ),
            PropUpdate::CanPause(v) => opt_action(
                if self.play_state == PlayState::Playing && self.can_control {
                    Some(UiActionView::SetSensitive(Control::PlayPause, flag(v)))
                } else {
                    None
                },
            ),
            PropUpdate::CanPlay(v) => opt_action(
                if self.play_state != PlayState::Playing && self.can_control {
                    Some(UiActionView::SetSensitive(Control::PlayPause, flag(v)))
                } else {
                    None
                },
            ),
            PropUpdate::CanGoNext(v) => opt_action(
                if self.can_control {
                    Some(UiActionView::SetSensitive(Control::Next, flag(v)))
                } else {
                    None
                },
            ),
            PropUpdate::CanGoPrevious(v) => opt_action(
                if self.can_control {
                    Some(UiActionView::SetSensitive(Control::Previous, flag(v)))
                } else {
                    None
                },
            ),
            PropUpdate::Shuffle(v) => opt_action(
                if self.can_control && !self.has_shuf {
                    Some(UiActionView::SetSensitive(Control::Shuffle, true))
                } else {
                    None
                },
            ) + seq![UiActionView::SetShuffleActive(flag(v))],
            PropUpdate::LoopStatus(v) => opt_action(
                if self.can_control && !self.has_loop {
                    Some(UiActionView::SetSensitive(Control::Loop, true))
                } else {
                    None
                },
            ) + seq![
                UiActionView::SetLoopIcon(loop_state_of(v).spec_icon_name()),
                UiActionView::SetLoopActive(loop_state_of(v).spec_is_active()),
            ],
            PropUpdate::PlaybackStatus(v) => seq![
                UiActionView::SetPlayPauseIcon(play_state_of(v).spec_inverse().spec_icon_name()),
            ] + opt_action(
                if self.can_control {
                    Some(
                        UiActionView::SetSensitive(
                            Control::PlayPause,
                            if play_state_of(v) == PlayState::Playing {
                                self.can_pause
                            } else {
                                self.can_play
                            },
                        ),
                    )
                } else {
                    None
                },
            ),
            PropUpdate::MinimumRate => seq![UiActionView::ApplyMinimumRate],
            PropUpdate::MaximumRate => seq![UiActionView::ApplyMaximumRate],
            PropUpdate::Rate => opt_action(
                if self.is_dragging_rate {
                    None
                } else {
                    Some(UiActionView::ShowRate)
                },
            ),
            PropUpdate::Volume => opt_action(
                if self.is_dragging_volume {
                    None
                } else {
                    Some(UiActionView::ShowVolume)
                },
            ),
            PropUpdate::Unhandled(name) => seq![UiActionView::ReportUnhandled(name@)],
        }
    }

    /// The plan for the playback position at a frame.
    pub open spec fn tick_plan(self) -> TickPlan {
        if self.is_dragging_playback || self.play_state != PlayState::Playing {
            TickPlan::Hold
        } else if self.clock_needs_aligned {
            TickPlan::Align
        } else {
            TickPlan::Advance
        }
    }
}

impl PlayerState {
    /// The state of a player from the properties that it first reports:
    /// missing flags count as `false`, a missing or unknown status as
    /// `Stopped` and no loop, no album art is on show yet, and the playback
    /// position is still to be asked.
    pub fn new(props: InitialProps) -> (res: PlayerState)
        ensures
            res == (PlayerState {
                current_track: props.track_id,
                art_url: None,
                play_state: play_state_of(props.playback_status),
                shuffle_state: flag(props.shuffle),
                loop_state: loop_state_of(props.loop_status),
                can_control: flag(props.can_control),
                can_seek: flag(props.can_seek),
                can_play: flag(props.can_play),
                can_pause: flag(props.can_pause),
                can_go_prev: flag(props.can_go_previous),
                can_go_next: flag(props.can_go_next),
                has_shuf: props.has_shuffle,
                has_loop: props.has_loop_status,
                clock_needs_aligned: true,
                is_dragging_playback: false,
                is_dragging_volume: false,
                is_dragging_rate: false,
            }),
    {
        PlayerState {
            current_track: props.track_id,
            art_url: None,
            play_state: play_state_value(props.playback_status),
            shuffle_state: flag_value(props.shuffle),
            loop_state: loop_state_value(props.loop_status),
            can_control: flag_value(props.can_control),
            can_seek: flag_value(props.can_seek),
            can_play: flag_value(props.can_play),
            can_pause: flag_value(props.can_pause),
            can_go_prev: flag_value(props.can_go_previous),
            can_go_next: flag_value(props.can_go_next),
            has_shuf: props.has_shuffle,
            has_loop: props.has_loop_status,
            clock_needs_aligned: true,
            is_dragging_playback: false,
            is_dragging_volume: false,
            is_dragging_rate: false,
        }
    }

    /// The sensitivity of each control.
    pub fn sensitivity(&self) -> (res: Sensitivity)
        ensures
            res == self.spec_sensitivity(),
    {
        Sensitivity {
            play_pause: self.can_control && (if self.play_state == PlayState::Playing {
                self.can_pause
            } else {
                self.can_play
            }),
            previous: self.can_control && self.can_go_prev,
            next: self.can_control && self.can_go_next,
            loop_: self.can_control && self.has_loop,
            shuffle: self.can_control && self.has_shuf,
            playback: self.can_control && self.can_seek,
        }
    }

    /// Applies the whole sensitivity to the controls.
    pub fn update_sensitivity(&self) -> (res: Vec<UiAction>)
        ensures
            action_views(res@) == self.sensitivity_actions(),
    {
        let s = self.sensitivity();
        let mut v: Vec<UiAction> = Vec::new();
        push_action(&mut v, UiAction::SetSensitive(Control::PlayPause, s.play_pause));
        push_action(&mut v, UiAction::SetSensitive(Control::Previous, s.previous));
        push_action(&mut v, UiAction::SetSensitive(Control::Next, s.next));
        push_action(&mut v, UiAction::SetSensitive(Control::Loop, s.loop_));
        push_action(&mut v, UiAction::SetSensitive(Control::Shuffle, s.shuffle));
        push_action(&mut v, UiAction::SetSensitive(Control::Playback, s.playback));
        assert(action_views(v@) =~= self.sensitivity_actions());
        v
    }

    /// Takes in a track's metadata: the clock is to be aligned again, the
    /// track and the album art follow the metadata, and the actions show it.
    pub fn update_metadata(&mut self, m: MetadataUpdate) -> (res: Vec<UiAction>)
        ensures
            *final(self) == old(self).after_metadata(m),
            action_views(res@) == old(self).metadata_actions(m),
    {
        let ghost m0 = m;
        let ghost start = *self;
        let MetadataUpdate { track_id, title, album, artists, length, art_url } = m;
        self.take_track(track_id);
        let mut v = metadata_text_actions(title, album, artists, length);
        let ghost before_art = action_views(v@);
        let art = self.show_art(art_url);
        match art {
            Some(a) => push_action(&mut v, a),
            None => {},
        }
        assert(action_views(v@) =~= before_art + art_views(start.art_url, m0.art_url));
        v
    }

    /// Takes in the track that metadata names, if any; the clock is to be
    /// aligned again.
    fn take_track(&mut self, track_id: Option<String>)
        ensures
            *final(self) == (PlayerState {
                clock_needs_aligned: true,
                current_track: if track_id is Some {
                    track_id
                } else {
                    old(self).current_track
                },
                ..*old(self)
            }),
    {
        self.clock_needs_aligned = true;
        if track_id.is_some() {
            self.current_track = track_id;
        }
    }

    /// Takes in the album art address of a track: where it differs from the
    /// one on show, it is put on show and its art is to be loaded.
    fn show_art(&mut self, art_url: Option<String>) -> (res: Option<UiAction>)
        ensures
            *final(self) == (if art_changes(old(self).art_url, art_url) {
                PlayerState { art_url: art_url, ..*old(self) }
            } else {
                *old(self)
            }),
            res is Some <==> art_changes(old(self).art_url, art_url),
            res matches Some(a) ==> a@ == UiActionView::LoadArt(art_url.unwrap()@),
    {
        match art_url {
            Some(u) => {
                let changes = match &self.art_url {
                    Some(cur) => !str_eq(cur.as_str(), u.as_str()),
                    None => true,
                };
                if changes {
                    let shown = u.clone();
                    self.art_url = Some(u);
                    Some(UiAction::LoadArt(shown))
                } else {
                    None
                }
            },
            None => None,
        }
    }

    /// Takes in a property update: the state follows it, and the actions
    /// apply it to the controls.
    pub fn update_prop(&mut self, u: PropUpdate) -> (res: Vec<UiAction>)
        ensures
            *final(self) == old(self).after_prop(u),
            action_views(res@) == old(self).prop_actions(u),
    {
        match u {
            PropUpdate::Metadata(m) => {
                proof {
                    reveal(PlayerState::after_prop);
                    reveal(PlayerState::prop_actions);
                }
                self.update_metadata(m)
            },
            PropUpdate::CanControl(b) => self.update_can_control(b),
            PropUpdate::CanSeek(b) => self.update_can_seek(b),
            PropUpdate::CanPause(b) => self.update_can_pause(b),
            PropUpdate::CanPlay(b) => self.update_can_play(b),
            PropUpdate::CanGoNext(b) => self.update_can_go_next(b),
            PropUpdate::CanGoPrevious(b) => self.update_can_go_previous(b),
            PropUpdate::Shuffle(b) => self.update_shuffle(b),
            PropUpdate::LoopStatus(s) => self.update_loop_status(s),
            PropUpdate::PlaybackStatus(s) => self.update_playback_status(s),
            PropUpdate::MinimumRate => {
                proof {
                    reveal(PlayerState::after_prop);
                    reveal(PlayerState::prop_actions);
                }
                single_action(UiAction::ApplyMinimumRate)
            },
            PropUpdate::MaximumRate => {
                proof {
                    reveal(PlayerState::after_prop);
                    reveal(PlayerState::prop_actions);
                }
                single_action(UiAction::ApplyMaximumRate)
            },
            PropUpdate::Rate => self.update_rate(),
            PropUpdate::Volume => self.update_volume(),
            PropUpdate::Unhandled(name) => {
                proof {
                    reveal(PlayerState::after_prop);
                    reveal(PlayerState::prop_actions);
                }
                single_action(UiAction::ReportUnhandled(name))
            },
        }
    }

    fn update_can_control(&mut self, b: Option<bool>) -> (res: Vec<UiAction>)
        ensures
            *final(self) == old(self).after_prop(PropUpdate::CanControl(b)),
            action_views(res@) == old(self).prop_actions(PropUpdate::CanControl(b)),
    {
        proof {
            reveal(PlayerState::after_prop);
            reveal(PlayerState::prop_actions);
        }
        self.can_control = flag_value(b);
        self.update_sensitivity()
    }

    fn update_can_seek(&mut self, b: Option<bool>) -> (res: Vec<UiAction>)
        ensures
            *final(self) == old(self).after_prop(PropUpdate::CanSeek(b)),
            action_views(res@) == old(self).prop_actions(PropUpdate::CanSeek(b)),
    {
        proof {
            reveal(PlayerState::after_prop);
            reveal(PlayerState::prop_actions);
        }
        self.can_seek = flag_value(b);
        if self.can_control {
            single_action(UiAction::SetSensitive(Control::Playback, self.can_seek))
        } else {
            no_actions()
        }
    }

    fn update_can_pause(&mut self, b: Option<bool>) -> (res: Vec<UiAction>)
        ensures
            *final(self) == old(self).after_prop(PropUpdate::CanPause(b)),
            action_views(res@) == old(self).prop_actions(PropUpdate::CanPause(b)),
    {
        proof {
            reveal(PlayerState::after_prop);
            reveal(PlayerState::prop_actions);
        }
        self.can_pause = flag_value(b);
        if self.play_state == PlayState::Playing && self.can_control {
            single_action(UiAction::SetSensitive(Control::PlayPause, self.can_pause))
        } else {
            no_actions()
        }
    }

    fn update_can_play(&mut self, b: Option<bool>) -> (res: Vec<UiAction>)
        ensures
            *final(self) == old(self).after_prop(PropUpdate::CanPlay(b)),
            action_views(res@) == old(self).prop_actions(PropUpdate::CanPlay(b)),
    {
        proof {
            reveal(PlayerState::after_prop);
            reveal(PlayerState::prop_actions);
        }
        self.can_play = flag_value(b);
        if self.play_state != PlayState::Playing && self.can_control {
            single_action(UiAction::SetSensitive(Control::PlayPause, self.can_play))
        } else {
            no_actions()
        }
    }

    fn update_can_go_next(&mut self, b: Option<bool>) -> (res: Vec<UiAction>)
        ensures
            *final(self) == old(self).after_prop(PropUpdate::CanGoNext(b)),
            action_views(res@) == old(self).prop_actions(PropUpdate::CanGoNext(b)),
    {
        proof {
            reveal(PlayerState::after_prop);
            reveal(PlayerState::prop_actions);
        }
        self.can_go_next = flag_value(b);
        if self.can_control {
            single_action(UiAction::SetSensitive(Control::Next, self.can_go_next))
        } else {
            no_actions()
        }
    }

    fn update_can_go_previous(&mut self, b: Option<bool>) -> (res: Vec<UiAction>)
        ensures
            *final(self) == old(self).after_prop(PropUpdate::CanGoPrevious(b)),
            action_views(res@) == old(self).prop_actions(PropUpdate::CanGoPrevious(b)),
    {
        proof {
            reveal(PlayerState::after_prop);
            reveal(PlayerState::prop_actions);
        }
        self.can_go_prev = flag_value(b);
        if self.can_control {
            single_action(UiAction::SetSensitive(Control::Previous, self.can_go_prev))
        } else {
            no_actions()
        }
    }

    fn update_shuffle(&mut self, b: Option<bool>) -> (res: Vec<UiAction>)
        ensures
            *final(self) == old(self).after_prop(PropUpdate::Shuffle(b)),
            action_views(res@) == old(self).prop_actions(PropUpdate::Shuffle(b)),
    {
        proof {
            reveal(PlayerState::after_prop);
            reveal(PlayerState::prop_actions);
        }
        let mut v = if self.can_control && !self.has_shuf {
            single_action(UiAction::SetSensitive(Control::Shuffle, true))
        } else {
            no_actions()
        };
        self.has_shuf = true;
        self.shuffle_state = flag_value(b);
        push_action(&mut v, UiAction::SetShuffleActive(self.shuffle_state));
        v
    }

    fn update_loop_status(&mut self, s: Option<String>) -> (res: Vec<UiAction>)
        ensures
            *final(self) == old(self).after_prop(PropUpdate::LoopStatus(s)),
            action_views(res@) == old(self).prop_actions(PropUpdate::LoopStatus(s)),
    {
        proof {
            reveal(PlayerState::after_prop);
            reveal(PlayerState::prop_actions);
        }
        let mut v = if self.can_control && !self.has_loop {
            single_action(UiAction::SetSensitive(Control::Loop, true))
        } else {
            no_actions()
        };
        self.has_loop = true;
        self.loop_state = loop_state_value(s);
        push_action(&mut v, UiAction::SetLoopIcon(self.loop_state.icon_name()));
        push_action(&mut v, UiAction::SetLoopActive(self.loop_state.is_active()));
        v
    }

    fn update_playback_status(&mut self, s: Option<String>) -> (res: Vec<UiAction>)
        ensures
            *final(self) == old(self).after_prop(PropUpdate::PlaybackStatus(s)),
            action_views(res@) == old(self).prop_actions(PropUpdate::PlaybackStatus(s)),
    {
        proof {
            reveal(PlayerState::after_prop);
            reveal(PlayerState::prop_actions);
        }
        self.play_state = play_state_value(s);
        self.clock_needs_aligned = true;
        let mut v = single_action(
            UiAction::SetPlayPauseIcon(self.play_state.inverse().icon_name()),
        );
        if self.can_control {
            let sensitive = if self.play_state == PlayState::Playing {
                self.can_pause
            } else {
                self.can_play
            };
            push_action(&mut v, UiAction::SetSensitive(Control::PlayPause, sensitive));
        }
        v
    }

    fn update_rate(&mut self) -> (res: Vec<UiAction>)
        ensures
            *final(self) == old(self).after_prop(PropUpdate::Rate),
            action_views(res@) == old(self).prop_actions(PropUpdate::Rate),
    {
        proof {
            reveal(PlayerState::after_prop);
            reveal(PlayerState::prop_actions);
        }
        self.clock_needs_aligned = true;
        if self.is_dragging_rate {
            no_actions()
        } else {
            single_action(UiAction::ShowRate)
        }
    }

    fn update_volume(&mut self) -> (res: Vec<UiAction>)
        ensures
            *final(self) == old(self).after_prop(PropUpdate::Volume),
            action_views(res@) == old(self).prop_actions(PropUpdate::Volume),
    {
        proof {
            reveal(PlayerState::after_prop);
            reveal(PlayerState::prop_actions);
        }
        if self.is_dragging_volume {
            no_actions()
        } else {
            single_action(UiAction::ShowVolume)
        }
    }

    /// Decides what to do with the playback position at a frame; when the
    /// clock is to be aligned, it counts as aligned from then on.
    pub fn tick(&mut self) -> (res: TickPlan)
        ensures
            res == old(self).tick_plan(),
            *final(self) == (if res == TickPlan::Align {
                PlayerState { clock_needs_aligned: false, ..*old(self) }
            } else {
                *old(self)
            }),
    {
        if self.is_dragging_playback || self.play_state != PlayState::Playing {
            TickPlan::Hold
        } else if self.clock_needs_aligned {
            self.clock_needs_aligned = false;
            TickPlan::Align
        } else {
            TickPlan::Advance
        }
    }

    /// The shuffle state that a click on the shuffle button asks the player
    /// for: the opposite of the current one.
    pub fn shuffle_request(&self) -> (res: bool)
        ensures
            res == !self.shuffle_state,
    {
        !self.shuffle_state
    }

    /// The `LoopStatus` that a click on the loop button asks the player for:
    /// the name of the next loop state.
    pub fn loop_request(&self) -> (res: &'static str)
        ensures
            res@ == self.loop_state.spec_next().spec_status_name(),
    {
        self.loop_state.next().as_str()
    }
}

/// The sensitivity that a state gives one control.
pub open spec fn sensitivity_of(s: Sensitivity, c: Control) -> bool {
    match c {
        Control::PlayPause => s.play_pause,
        Control::Previous => s.previous,
        Control::Next => s.next,
        Control::Loop => s.loop_,
        Control::Shuffle => s.shuffle,
        Control::Playback => s.playback,
    }
}

/// Without control of the player, no control is sensitive.
pub proof fn lemma_no_control_nothing_sensitive(s: PlayerState)
    requires
        !s.can_control,
    ensures
        s.spec_sensitivity() == (Sensitivity {
            play_pause: false,
            previous: false,
            next: false,
            loop_: false,
            shuffle: false,
            playback: false,
        }),
{
}

/// Whether every sensitivity that the actions set on a control is the one
/// that `sens` gives it.
pub open spec fn sensitivity_agrees(acts: Seq<UiActionView>, sens: Sensitivity) -> bool {
    forall|i: int|
        0 <= i < acts.len() ==> (#[trigger] acts[i] matches UiActionView::SetSensitive(c, b)
            ==> b == sensitivity_of(sens, c))
}

proof fn lemma_agrees_concat(a: Seq<UiActionView>, b: Seq<UiActionView>, sens: Sensitivity)
    requires
        sensitivity_agrees(a, sens),
        sensitivity_agrees(b, sens),
    ensures
        sensitivity_agrees(a + b, sens),
{
    assert forall|i: int| 0 <= i < (a + b).len() implies (#[trigger] (a + b)[i] matches
        UiActionView::SetSensitive(c, x) ==> x == sensitivity_of(sens, c)) by {
        if i < a.len() {
            assert((a + b)[i] == a[i]);
        } else {
            assert((a + b)[i] == b[i - a.len()]);
        }
    }
}

/// Every sensitivity that a property update sets on a control is the one
/// that the updated state calls for.
pub proof fn lemma_update_sensitivity_agrees(s: PlayerState, u: PropUpdate)
    ensures
        sensitivity_agrees(s.prop_actions(u), s.after_prop(u).spec_sensitivity()),
{
    match u {
        PropUpdate::Metadata(m) => lemma_metadata_agrees(s, m),
        PropUpdate::Shuffle(v) => lemma_shuffle_agrees(s, v),
        PropUpdate::LoopStatus(v) => lemma_loop_status_agrees(s, v),
        PropUpdate::PlaybackStatus(v) => lemma_playback_status_agrees(s, v),
        PropUpdate::CanControl(v) => lemma_can_control_agrees(s, v),
        _ => lemma_single_prop_agrees(s, u),
    }
}

proof fn lemma_metadata_agrees(s: PlayerState, m: MetadataUpdate)
    ensures
        sensitivity_agrees(
            s.prop_actions(PropUpdate::Metadata(m)),
            s.after_prop(PropUpdate::Metadata(m)).spec_sensitivity(),
        ),
{
    reveal(PlayerState::prop_actions);
    let sens = s.after_prop(PropUpdate::Metadata(m)).spec_sensitivity();
    let art = art_views(s.art_url, m.art_url);
    let title = opt_action(
        match m.title {
            Some(t) => Some(UiActionView::SetTitle(t@)),
            None => None,
        },
    );
    let sub = seq![UiActionView::SetSubtitle(subtitle_of(m.album, m.artists))];
    let dur = opt_action(
        match m.length {
            Some(d) => Some(UiActionView::SetDuration(d)),
            None => None,
        },
    );
    assert(sensitivity_agrees(title, sens));
    assert(sensitivity_agrees(sub, sens));
    assert(sensitivity_agrees(dur, sens));
    assert(sensitivity_agrees(art, sens));
    lemma_agrees_concat(title, sub, sens);
    lemma_agrees_concat(title + sub, dur, sens);
    lemma_agrees_concat(title + sub + dur, art, sens);
}

proof fn lemma_shuffle_agrees(s: PlayerState, v: Option<bool>)
    ensures
        sensitivity_agrees(
            s.prop_actions(PropUpdate::Shuffle(v)),
            s.after_prop(PropUpdate::Shuffle(v)).spec_sensitivity(),
        ),
{
    reveal(PlayerState::after_prop);
    reveal(PlayerState::prop_actions);
    let sens = s.after_prop(PropUpdate::Shuffle(v)).spec_sensitivity();
    let first = opt_action(
        if s.can_control && !s.has_shuf {
            Some(UiActionView::SetSensitive(Control::Shuffle, true))
        } else {
            None
        },
    );
    assert(sensitivity_agrees(first, sens));
    assert(sensitivity_agrees(seq![UiActionView::SetShuffleActive(flag(v))], sens));
    lemma_agrees_concat(first, seq![UiActionView::SetShuffleActive(flag(v))], sens);
}

proof fn lemma_loop_status_agrees(s: PlayerState, v: Option<String>)
    ensures
        sensitivity_agrees(
            s.prop_actions(PropUpdate::LoopStatus(v)),
            s.after_prop(PropUpdate::LoopStatus(v)).spec_sensitivity(),
        ),
{
    reveal(PlayerState::after_prop);
    reveal(PlayerState::prop_actions);
    let sens = s.after_prop(PropUpdate::LoopStatus(v)).spec_sensitivity();
    let first = opt_action(
        if s.can_control && !s.has_loop {
            Some(UiActionView::SetSensitive(Control::Loop, true))
        } else {
            None
        },
    );
    let rest = seq![
        UiActionView::SetLoopIcon(loop_state_of(v).spec_icon_name()),
        UiActionView::SetLoopActive(loop_state_of(v).spec_is_active()),
    ];
    assert(sensitivity_agrees(first, sens));
    assert(sensitivity_agrees(rest, sens));
    lemma_agrees_concat(first, rest, sens);
}

proof fn lemma_playback_status_agrees(s: PlayerState, v: Option<String>)
    ensures
        sensitivity_agrees(
            s.prop_actions(PropUpdate::PlaybackStatus(v)),
            s.after_prop(PropUpdate::PlaybackStatus(v)).spec_sensitivity(),
        ),
{
    reveal(PlayerState::after_prop);
    reveal(PlayerState::prop_actions);
    let sens = s.after_prop(PropUpdate::PlaybackStatus(v)).spec_sensitivity();
    let first = seq![
        UiActionView::SetPlayPauseIcon(play_state_of(v).spec_inverse().spec_icon_name()),
    ];
    let rest = opt_action(
        if s.can_control {
            Some(
                UiActionView::SetSensitive(
                    Control::PlayPause,
                    if play_state_of(v) == PlayState::Playing {
                        s.can_pause
                    } else {
                        s.can_play
                    },
                ),
            )
        } else {
            None
        },
    );
    assert(sensitivity_agrees(first, sens));
    assert(sensitivity_agrees(rest, sens));
    lemma_agrees_concat(first, rest, sens);
}

proof fn lemma_can_control_agrees(s: PlayerState, v: Option<bool>)
    ensures
        sensitivity_agrees(
            s.prop_actions(PropUpdate::CanControl(v)),
            s.after_prop(PropUpdate::CanControl(v)).spec_sensitivity(),
        ),
{
    reveal(PlayerState::after_prop);
    reveal(PlayerState::prop_actions);
    let next = s.after_prop(PropUpdate::CanControl(v));
    let acts = next.sensitivity_actions();
    assert forall|i: int| 0 <= i < acts.len() implies (#[trigger] acts[i] matches
        UiActionView::SetSensitive(c, b) ==> b == sensitivity_of(next.spec_sensitivity(), c)) by {
        assert(0 <= i < 6);
    }
}

proof fn lemma_single_prop_agrees(s: PlayerState, u: PropUpdate)
    requires
        !(u is Metadata || u is Shuffle || u is LoopStatus || u is PlaybackStatus
            || u is CanControl),
    ensures
        sensitivity_agrees(s.prop_actions(u), s.after_prop(u).spec_sensitivity()),
{
    reveal(PlayerState::after_prop);
    reveal(PlayerState::prop_actions);
}

/// The sensitivities after one action: a `SetSensitive` sets its control,
/// any other action leaves them.
pub open spec fn apply_sensitivity_action(sens: Sensitivity, a: UiActionView) -> Sensitivity {
    match a {
        UiActionView::SetSensitive(c, b) => match c {
            Control::PlayPause => Sensitivity { play_pause: b, ..sens },
            Control::Previous => Sensitivity { previous: b, ..sens },
            Control::Next => Sensitivity { next: b, ..sens },
            Control::Loop => Sensitivity { loop_: b, ..sens },
            Control::Shuffle => Sensitivity { shuffle: b, ..sens },
            Control::Playback => Sensitivity { playback: b, ..sens },
        },
        _ => sens,
    }
}

/// The sensitivities after a list of actions, applied in order.
pub open spec fn apply_sensitivity_actions(sens: Sensitivity, acts: Seq<UiActionView>) -> Sensitivity
    decreases acts.len(),
{
    if acts.len() == 0 {
        sens
    } else {
        apply_sensitivity_actions(apply_sensitivity_action(sens, acts[0]), acts.drop_first())
    }
}

proof fn lemma_apply_concat(sens: Sensitivity, a: Seq<UiActionView>, b: Seq<UiActionView>)
    ensures
        apply_sensitivity_actions(sens, a + b) == apply_sensitivity_actions(
            apply_sensitivity_actions(sens, a),
            b,
        ),
    decreases a.len(),
{
    if a.len() == 0 {
        assert(a + b =~= b);
    } else {
        assert((a + b)[0] == a[0]);
        assert((a + b).drop_first() =~= a.drop_first() + b);
        lemma_apply_concat(apply_sensitivity_action(sens, a[0]), a.drop_first(), b);
    }
}

proof fn lemma_apply_single(sens: Sensitivity, a: UiActionView)
    ensures
        apply_sensitivity_actions(sens, seq![a]) == apply_sensitivity_action(sens, a),
{
    reveal_with_fuel(apply_sensitivity_actions, 2);
    assert(seq![a].drop_first() =~= Seq::<UiActionView>::empty());
}

proof fn lemma_apply_push(sens: Sensitivity, acts: Seq<UiActionView>, a: UiActionView)
    ensures
        apply_sensitivity_actions(sens, acts.push(a)) == apply_sensitivity_action(
            apply_sensitivity_actions(sens, acts),
            a,
        ),
{
    assert(acts.push(a) =~= acts + seq![a]);
    lemma_apply_concat(sens, acts, seq![a]);
    lemma_apply_single(apply_sensitivity_actions(sens, acts), a);
}

proof fn lemma_apply_opt(sens: Sensitivity, a: Option<UiActionView>)
    ensures
        apply_sensitivity_actions(sens, opt_action(a)) == (match a {
            Some(x) => apply_sensitivity_action(sens, x),
            None => sens,
        }),
{
    if let Some(x) = a {
        lemma_apply_single(sens, x);
    }
}

/// Applying the actions of a property update to the controls' sensitivities
/// before it gives the sensitivities that the updated state calls for.
pub proof fn lemma_update_applies_sensitivity(s: PlayerState, u: PropUpdate)
    ensures
        apply_sensitivity_actions(s.spec_sensitivity(), s.prop_actions(u))
            == s.after_prop(u).spec_sensitivity(),
{
    match u {
        PropUpdate::Metadata(m) => lemma_metadata_applies(s, m),
        PropUpdate::Shuffle(v) => lemma_shuffle_applies(s, v),
        PropUpdate::LoopStatus(v) => lemma_loop_status_applies(s, v),
        PropUpdate::PlaybackStatus(v) => lemma_playback_status_applies(s, v),
        PropUpdate::CanControl(v) => lemma_can_control_applies(s, v),
        _ => lemma_single_prop_applies(s, u),
    }
}

proof fn lemma_no_sensitive_opt(sens: Sensitivity, a: Option<UiActionView>)
    requires
        !(a matches Some(x) && x is SetSensitive),
    ensures
        apply_sensitivity_actions(sens, opt_action(a)) == sens,
{
    lemma_apply_opt(sens, a);
}

proof fn lemma_metadata_applies(s: PlayerState, m: MetadataUpdate)
    ensures
        apply_sensitivity_actions(s.spec_sensitivity(), s.prop_actions(PropUpdate::Metadata(m)))
            == s.after_prop(PropUpdate::Metadata(m)).spec_sensitivity(),
{
    reveal(PlayerState::after_prop);
    reveal(PlayerState::prop_actions);
    let sens = s.spec_sensitivity();
    let title_a = match m.title {
        Some(t) => Some(UiActionView::SetTitle(t@)),
        None => None,
    };
    let dur_a = match m.length {
        Some(d) => Some(UiActionView::SetDuration(d)),
        None => None,
    };
    let art_a = if art_changes(s.art_url, m.art_url) {
        Some(UiActionView::LoadArt(m.art_url.unwrap()@))
    } else {
        None
    };
    let title = opt_action(title_a);
    let sub = seq![UiActionView::SetSubtitle(subtitle_of(m.album, m.artists))];
    let dur = opt_action(dur_a);
    let art = opt_action(art_a);
    lemma_no_sensitive_opt(sens, title_a);
    lemma_no_sensitive_opt(sens, dur_a);
    lemma_no_sensitive_opt(sens, art_a);
    lemma_apply_single(sens, UiActionView::SetSubtitle(subtitle_of(m.album, m.artists)));
    lemma_apply_concat(sens, title, sub);
    lemma_apply_concat(sens, title + sub, dur);
    lemma_apply_concat(sens, title + sub + dur, art);
}

proof fn lemma_shuffle_applies(s: PlayerState, v: Option<bool>)
    ensures
        apply_sensitivity_actions(s.spec_sensitivity(), s.prop_actions(PropUpdate::Shuffle(v)))
            == s.after_prop(PropUpdate::Shuffle(v)).spec_sensitivity(),
{
    reveal(PlayerState::after_prop);
    reveal(PlayerState::prop_actions);
    let sens = s.spec_sensitivity();
    let first_a = if s.can_control && !s.has_shuf {
        Some(UiActionView::SetSensitive(Control::Shuffle, true))
    } else {
        None
    };
    let first = opt_action(first_a);
    let last = UiActionView::SetShuffleActive(flag(v));
    lemma_apply_opt(sens, first_a);
    lemma_apply_single(apply_sensitivity_actions(sens, first), last);
    lemma_apply_concat(sens, first, seq![last]);
}

proof fn lemma_loop_status_applies(s: PlayerState, v: Option<String>)
    ensures
        apply_sensitivity_actions(s.spec_sensitivity(), s.prop_actions(PropUpdate::LoopStatus(v)))
            == s.after_prop(PropUpdate::LoopStatus(v)).spec_sensitivity(),
{
    reveal(PlayerState::after_prop);
    reveal(PlayerState::prop_actions);
    let sens = s.spec_sensitivity();
    let first_a = if s.can_control && !s.has_loop {
        Some(UiActionView::SetSensitive(Control::Loop, true))
    } else {
        None
    };
    let first = opt_action(first_a);
    let icon = UiActionView::SetLoopIcon(loop_state_of(v).spec_icon_name());
    let active = UiActionView::SetLoopActive(loop_state_of(v).spec_is_active());
    let rest = seq![icon, active];
    lemma_apply_opt(sens, first_a);
    let mid = apply_sensitivity_actions(sens, first);
    assert(rest.drop_first() =~= seq![active]);
    lemma_apply_single(mid, active);
    lemma_apply_concat(sens, first, rest);
}

proof fn lemma_playback_status_applies(s: PlayerState, v: Option<String>)
    ensures
        apply_sensitivity_actions(
            s.spec_sensitivity(),
            s.prop_actions(PropUpdate::PlaybackStatus(v)),
        ) == s.after_prop(PropUpdate::PlaybackStatus(v)).spec_sensitivity(),
{
    reveal(PlayerState::after_prop);
    reveal(PlayerState::prop_actions);
    let sens = s.spec_sensitivity();
    let icon = UiActionView::SetPlayPauseIcon(play_state_of(v).spec_inverse().spec_icon_name());
    let rest_a = if s.can_control {
        Some(
            UiActionView::SetSensitive(
                Control::PlayPause,
                if play_state_of(v) == PlayState::Playing {
                    s.can_pause
                } else {
                    s.can_play
                },
            ),
        )
    } else {
        None
    };
    lemma_apply_single(sens, icon);
    lemma_apply_opt(sens, rest_a);
    lemma_apply_concat(sens, seq![icon], opt_action(rest_a));
}

proof fn lemma_can_control_applies(s: PlayerState, v: Option<bool>)
    ensures
        apply_sensitivity_actions(s.spec_sensitivity(), s.prop_actions(PropUpdate::CanControl(v)))
            == s.after_prop(PropUpdate::CanControl(v)).spec_sensitivity(),
{
    reveal(PlayerState::after_prop);
    reveal(PlayerState::prop_actions);
    let sens = s.spec_sensitivity();
    let acts = s.after_prop(PropUpdate::CanControl(v)).sensitivity_actions();
    let s0 = Seq::<UiActionView>::empty();
    let s1 = s0.push(acts[0]);
    let s2 = s1.push(acts[1]);
    let s3 = s2.push(acts[2]);
    let s4 = s3.push(acts[3]);
    let s5 = s4.push(acts[4]);
    let s6 = s5.push(acts[5]);
    assert(acts =~= s6);
    lemma_apply_push(sens, s0, acts[0]);
    lemma_apply_push(sens, s1, acts[1]);
    lemma_apply_push(sens, s2, acts[2]);
    lemma_apply_push(sens, s3, acts[3]);
    lemma_apply_push(sens, s4, acts[4]);
    lemma_apply_push(sens, s5, acts[5]);
}

proof fn lemma_can_seek_applies(s: PlayerState, v: Option<bool>)
    ensures
        apply_sensitivity_actions(s.spec_sensitivity(), s.prop_actions(PropUpdate::CanSeek(v)))
            == s.after_prop(PropUpdate::CanSeek(v)).spec_sensitivity(),
{
    reveal(PlayerState::after_prop);
    reveal(PlayerState::prop_actions);
    lemma_apply_opt(
        s.spec_sensitivity(),
        if s.can_control {
                Some(UiActionView::SetSensitive(Control::Playback, flag(v)))
            } else {
                None
            },
    );
}

proof fn lemma_can_pause_applies(s: PlayerState, v: Option<bool>)
    ensures
        apply_sensitivity_actions(s.spec_sensitivity(), s.prop_actions(PropUpdate::CanPause(v)))
            == s.after_prop(PropUpdate::CanPause(v)).spec_sensitivity(),
{
    reveal(PlayerState::after_prop);
    reveal(PlayerState::prop_actions);
    lemma_apply_opt(
        s.spec_sensitivity(),
        if s.play_state == PlayState::Playing && s.can_control {
                Some(UiActionView::SetSensitive(Control::PlayPause, flag(v)))
            } else {
                None
            },
    );
}

proof fn lemma_can_play_applies(s: PlayerState, v: Option<bool>)
    ensures
        apply_sensitivity_actions(s.spec_sensitivity(), s.prop_actions(PropUpdate::CanPlay(v)))
            == s.after_prop(PropUpdate::CanPlay(v)).spec_sensitivity(),
{
    reveal(PlayerState::after_prop);
    reveal(PlayerState::prop_actions);
    lemma_apply_opt(
        s.spec_sensitivity(),
        if s.play_state != PlayState::Playing && s.can_control {
                Some(UiActionView::SetSensitive(Control::PlayPause, flag(v)))
            } else {
                None
            },
    );
}

proof fn lemma_can_go_next_applies(s: PlayerState, v: Option<bool>)
    ensures
        apply_sensitivity_actions(s.spec_sensitivity(), s.prop_actions(PropUpdate::CanGoNext(v)))
            == s.after_prop(PropUpdate::CanGoNext(v)).spec_sensitivity(),
{
    reveal(PlayerState::after_prop);
    reveal(PlayerState::prop_actions);
    lemma_apply_opt(
        s.spec_sensitivity(),
        if s.can_control {
                Some(UiActionView::SetSensitive(Control::Next, flag(v)))
            } else {
                None
            },
    );
}

proof fn lemma_can_go_previous_applies(s: PlayerState, v: Option<bool>)
    ensures
        apply_sensitivity_actions(s.spec_sensitivity(), s.prop_actions(PropUpdate::CanGoPrevious(v)))
            == s.after_prop(PropUpdate::CanGoPrevious(v)).spec_sensitivity(),
{
    reveal(PlayerState::after_prop);
    reveal(PlayerState::prop_actions);
    lemma_apply_opt(
        s.spec_sensitivity(),
        if s.can_control {
                Some(UiActionView::SetSensitive(Control::Previous, flag(v)))
            } else {
                None
            },
    );
}

proof fn lemma_single_prop_applies(s: PlayerState, u: PropUpdate)
    requires
        !(u is Metadata || u is Shuffle || u is LoopStatus || u is PlaybackStatus
            || u is CanControl),
    ensures
        apply_sensitivity_actions(s.spec_sensitivity(), s.prop_actions(u))
            == s.after_prop(u).spec_sensitivity(),
{
    match u {
        PropUpdate::CanSeek(v) => lemma_can_seek_applies(s, v),
        PropUpdate::CanPause(v) => lemma_can_pause_applies(s, v),
        PropUpdate::CanPlay(v) => lemma_can_play_applies(s, v),
        PropUpdate::CanGoNext(v) => lemma_can_go_next_applies(s, v),
        PropUpdate::CanGoPrevious(v) => lemma_can_go_previous_applies(s, v),
        _ => lemma_passive_prop_applies(s, u),
    }
}

proof fn lemma_passive_prop_applies(s: PlayerState, u: PropUpdate)
    requires
        u is Rate || u is Volume || u is MinimumRate || u is MaximumRate || u is Unhandled,
    ensures
        apply_sensitivity_actions(s.spec_sensitivity(), s.prop_actions(u))
            == s.after_prop(u).spec_sensitivity(),
{
    reveal(PlayerState::after_prop);
    reveal(PlayerState::prop_actions);
    let sens = s.spec_sensitivity();
    match u {
        PropUpdate::Rate => lemma_no_sensitive_opt(
            sens,
            if s.is_dragging_rate {
                None
            } else {
                Some(UiActionView::ShowRate)
            },
        ),
        PropUpdate::Volume => lemma_no_sensitive_opt(
            sens,
            if s.is_dragging_volume {
                None
            } else {
                Some(UiActionView::ShowVolume)
            },
        ),
        PropUpdate::MinimumRate => lemma_apply_single(sens, UiActionView::ApplyMinimumRate),
        PropUpdate::MaximumRate => lemma_apply_single(sens, UiActionView::ApplyMaximumRate),
        PropUpdate::Unhandled(name) => lemma_apply_single(
            sens,
            UiActionView::ReportUnhandled(name@),
        ),
        _ => {},
    }
}

/// A reported shuffle value is taken as it is: after a `Shuffle` update
/// the state's shuffle is on exactly when the player reported `true` (a
/// missing or mistyped value counts as off), the player counts as having
/// shuffle, and the shuffle button is shown as the player reported it.
pub proof fn lemma_shuffle_follows_report(s: PlayerState, v: Option<bool>)
    ensures
        s.after_prop(PropUpdate::Shuffle(v)).shuffle_state == (v == Some(true)),
        s.after_prop(PropUpdate::Shuffle(v)).has_shuf,
        s.prop_actions(PropUpdate::Shuffle(v)).last() == UiActionView::SetShuffleActive(
            v == Some(true),
        ),
        s.after_prop(PropUpdate::Shuffle(v)).spec_sensitivity().shuffle == s.can_control,
{
    reveal(PlayerState::after_prop);
    reveal(PlayerState::prop_actions);
}

/// Album art follows the track: after metadata naming an art address, that
/// address is the one on show, and the art is loaded exactly when it
/// differs from the address on show before; metadata without an address
/// leaves the art as it is and loads nothing.
pub proof fn lemma_art_follows_metadata(s: PlayerState, m: MetadataUpdate)
    ensures
        m.art_url matches Some(u) ==> opt_view(s.after_metadata(m).art_url) == Some(u@),
        m.art_url matches Some(u) ==> (s.metadata_actions(m).last() == UiActionView::LoadArt(u@)
            <==> opt_view(s.art_url) != Some(u@)),
        m.art_url matches Some(u) ==> (s.metadata_actions(m).len()
            == metadata_text_views(m.title, m.album, m.artists, m.length).len() + (if opt_view(
            s.art_url,
        ) != Some(u@) {
            1int
        } else {
            0int
        })),
        m.art_url is None ==> s.after_metadata(m).art_url == s.art_url,
        m.art_url is None ==> s.metadata_actions(m) == metadata_text_views(
            m.title,
            m.album,
            m.artists,
            m.length,
        ),
{
    let text = metadata_text_views(m.title, m.album, m.artists, m.length);
    let art = art_views(s.art_url, m.art_url);
    assert(s.metadata_actions(m) == text + art);
    if m.art_url is None {
        assert(text + art =~= text);
    }
    if let Some(u) = m.art_url {
        // The text actions end with the subtitle or the duration, never with
        // loading art.
        let title = opt_action(
            match m.title {
                Some(t) => Some(UiActionView::SetTitle(t@)),
                None => None,
            },
        );
        let sub = seq![UiActionView::SetSubtitle(subtitle_of(m.album, m.artists))];
        let dur = opt_action(
            match m.length {
                Some(d) => Some(UiActionView::SetDuration(d)),
                None => None,
            },
        );
        assert(text == title + sub + dur);
        assert(text.len() >= 1);
        assert(!(text.last() is LoadArt)) by {
            if dur.len() == 0 {
                assert(text.last() == (title + sub).last());
            } else {
                assert(text.last() == dur.last());
            }
        }
        if opt_view(s.art_url) != Some(u@) {
            assert((text + art).last() == art.last());
        } else {
            assert(text + art =~= text);
        }
    }
}

/// The address of the album art on show differs from a new one exactly when
/// there is none on show or its text differs.
pub proof fn lemma_art_changes_iff_different(shown: Option<String>, u: String)
    ensures
        art_changes(shown, Some(u)) <==> (match shown {
            Some(x) => x@ != u@,
            None => true,
        }),
        !art_changes(shown, None),
{
}

proof fn lemma_property_names_distinct()
    ensures
        "CanControl"@ != "Metadata"@,
        "CanSeek"@ != "Metadata"@,
        "CanSeek"@ != "CanControl"@,
        "CanPause"@ != "Metadata"@,
        "CanPause"@ != "CanControl"@,
        "CanPause"@ != "CanSeek"@,
        "CanPlay"@ != "Metadata"@,
        "CanPlay"@ != "CanControl"@,
        "CanPlay"@ != "CanSeek"@,
        "CanPlay"@ != "CanPause"@,
        "CanGoNext"@ != "Metadata"@,
        "CanGoNext"@ != "CanControl"@,
        "CanGoNext"@ != "CanSeek"@,
        "CanGoNext"@ != "CanPause"@,
        "CanGoNext"@ != "CanPlay"@,
        "CanGoPrevious"@ != "Metadata"@,
        "CanGoPrevious"@ != "CanControl"@,
        "CanGoPrevious"@ != "CanSeek"@,
        "CanGoPrevious"@ != "CanPause"@,
        "CanGoPrevious"@ != "CanPlay"@,
        "CanGoPrevious"@ != "CanGoNext"@,
        "Shuffle"@ != "Metadata"@,
        "Shuffle"@ != "CanControl"@,
        "Shuffle"@ != "CanSeek"@,
        "Shuffle"@ != "CanPause"@,
        "Shuffle"@ != "CanPlay"@,
        "Shuffle"@ != "CanGoNext"@,
        "Shuffle"@ != "CanGoPrevious"@,
        "LoopStatus"@ != "Metadata"@,
        "LoopStatus"@ != "CanControl"@,
        "LoopStatus"@ != "CanSeek"@,
        "LoopStatus"@ != "CanPause"@,
        "LoopStatus"@ != "CanPlay"@,
        "LoopStatus"@ != "CanGoNext"@,
        "LoopStatus"@ != "CanGoPrevious"@,
        "LoopStatus"@ != "Shuffle"@,
        "PlaybackStatus"@ != "Metadata"@,
        "PlaybackStatus"@ != "CanControl"@,
        "PlaybackStatus"@ != "CanSeek"@,
        "PlaybackStatus"@ != "CanPause"@,
        "PlaybackStatus"@ != "CanPlay"@,
        "PlaybackStatus"@ != "CanGoNext"@,
        "PlaybackStatus"@ != "CanGoPrevious"@,
        "PlaybackStatus"@ != "Shuffle"@,
        "PlaybackStatus"@ != "LoopStatus"@,
        "MinimumRate"@ != "Metadata"@,
        "MinimumRate"@ != "CanControl"@,
        "MinimumRate"@ != "CanSeek"@,
        "MinimumRate"@ != "CanPause"@,
        "MinimumRate"@ != "CanPlay"@,
        "MinimumRate"@ != "CanGoNext"@,
        "MinimumRate"@ != "CanGoPrevious"@,
        "MinimumRate"@ != "Shuffle"@,
        "MinimumRate"@ != "LoopStatus"@,
        "MinimumRate"@ != "PlaybackStatus"@,
        "MaximumRate"@ != "Metadata"@,
        "MaximumRate"@ != "CanControl"@,
        "MaximumRate"@ != "CanSeek"@,
        "MaximumRate"@ != "CanPause"@,
        "MaximumRate"@ != "CanPlay"@,
        "MaximumRate"@ != "CanGoNext"@,
        "MaximumRate"@ != "CanGoPrevious"@,
        "MaximumRate"@ != "Shuffle"@,
        "MaximumRate"@ != "LoopStatus"@,
        "MaximumRate"@ != "PlaybackStatus"@,
        "MaximumRate"@ != "MinimumRate"@,
        "Rate"@ != "Metadata"@,
        "Rate"@ != "CanControl"@,
        "Rate"@ != "CanSeek"@,
        "Rate"@ != "CanPause"@,
        "Rate"@ != "CanPlay"@,
        "Rate"@ != "CanGoNext"@,
        "Rate"@ != "CanGoPrevious"@,
        "Rate"@ != "Shuffle"@,
        "Rate"@ != "LoopStatus"@,
        "Rate"@ != "PlaybackStatus"@,
        "Rate"@ != "MinimumRate"@,
        "Rate"@ != "MaximumRate"@,
        "Volume"@ != "Metadata"@,
        "Volume"@ != "CanControl"@,
        "Volume"@ != "CanSeek"@,
        "Volume"@ != "CanPause"@,
        "Volume"@ != "CanPlay"@,
        "Volume"@ != "CanGoNext"@,
        "Volume"@ != "CanGoPrevious"@,
        "Volume"@ != "Shuffle"@,
        "Volume"@ != "LoopStatus"@,
        "Volume"@ != "PlaybackStatus"@,
        "Volume"@ != "MinimumRate"@,
        "Volume"@ != "MaximumRate"@,
        "Volume"@ != "Rate"@,
{
    reveal_strlit("Metadata");
    reveal_strlit("CanControl");
    reveal_strlit("CanSeek");
    reveal_strlit("CanPause");
    reveal_strlit("CanPlay");
    reveal_strlit("CanGoNext");
    reveal_strlit("CanGoPrevious");
    reveal_strlit("Shuffle");
    reveal_strlit("LoopStatus");
    reveal_strlit("PlaybackStatus");
    reveal_strlit("MinimumRate");
    reveal_strlit("MaximumRate");
    reveal_strlit("Rate");
    reveal_strlit("Volume");
    assert("CanControl"@.len() != "Metadata"@.len());
    assert("CanSeek"@.len() != "Metadata"@.len());
    assert("CanSeek"@.len() != "CanControl"@.len());
    assert("CanPause"@[0] != "Metadata"@[0]);
    assert("CanPause"@.len() != "CanControl"@.len());
    assert("CanPause"@.len() != "CanSeek"@.len());
    assert("CanPlay"@.len() != "Metadata"@.len());
    assert("CanPlay"@.len() != "CanControl"@.len());
    assert("CanPlay"@[3] != "CanSeek"@[3]);
    assert("CanPlay"@.len() != "CanPause"@.len());
    assert("CanGoNext"@.len() != "Metadata"@.len());
    assert("CanGoNext"@.len() != "CanControl"@.len());
    assert("CanGoNext"@.len() != "CanSeek"@.len());
    assert("CanGoNext"@.len() != "CanPause"@.len());
    assert("CanGoNext"@.len() != "CanPlay"@.len());
    assert("CanGoPrevious"@.len() != "Metadata"@.len());
    assert("CanGoPrevious"@.len() != "CanControl"@.len());
    assert("CanGoPrevious"@.len() != "CanSeek"@.len());
    assert("CanGoPrevious"@.len() != "CanPause"@.len());
    assert("CanGoPrevious"@.len() != "CanPlay"@.len());
    assert("CanGoPrevious"@.len() != "CanGoNext"@.len());
    assert("Shuffle"@.len() != "Metadata"@.len());
    assert("Shuffle"@.len() != "CanControl"@.len());
    assert("Shuffle"@[0] != "CanSeek"@[0]);
    assert("Shuffle"@.len() != "CanPause"@.len());
    assert("Shuffle"@[0] != "CanPlay"@[0]);
    assert("Shuffle"@.len() != "CanGoNext"@.len());
    assert("Shuffle"@.len() != "CanGoPrevious"@.len());
    assert("LoopStatus"@.len() != "Metadata"@.len());
    assert("LoopStatus"@[0] != "CanControl"@[0]);
    assert("LoopStatus"@.len() != "CanSeek"@.len());
    assert("LoopStatus"@.len() != "CanPause"@.len());
    assert("LoopStatus"@.len() != "CanPlay"@.len());
    assert("LoopStatus"@.len() != "CanGoNext"@.len());
    assert("LoopStatus"@.len() != "CanGoPrevious"@.len());
    assert("LoopStatus"@.len() != "Shuffle"@.len());
    assert("PlaybackStatus"@.len() != "Metadata"@.len());
    assert("PlaybackStatus"@.len() != "CanControl"@.len());
    assert("PlaybackStatus"@.len() != "CanSeek"@.len());
    assert("PlaybackStatus"@.len() != "CanPause"@.len());
    assert("PlaybackStatus"@.len() != "CanPlay"@.len());
    assert("PlaybackStatus"@.len() != "CanGoNext"@.len());
    assert("PlaybackStatus"@.len() != "CanGoPrevious"@.len());
    assert("PlaybackStatus"@.len() != "Shuffle"@.len());
    assert("PlaybackStatus"@.len() != "LoopStatus"@.len());
    assert("MinimumRate"@.len() != "Metadata"@.len());
    assert("MinimumRate"@.len() != "CanControl"@.len());
    assert("MinimumRate"@.len() != "CanSeek"@.len());
    assert("MinimumRate"@.len() != "CanPause"@.len());
    assert("MinimumRate"@.len() != "CanPlay"@.len());
    assert("MinimumRate"@.len() != "CanGoNext"@.len());
    assert("MinimumRate"@.len() != "CanGoPrevious"@.len());
    assert("MinimumRate"@.len() != "Shuffle"@.len());
    assert("MinimumRate"@.len() != "LoopStatus"@.len());
    assert("MinimumRate"@.len() != "PlaybackStatus"@.len());
    assert("MaximumRate"@.len() != "Metadata"@.len());
    assert("MaximumRate"@.len() != "CanControl"@.len());
    assert("MaximumRate"@.len() != "CanSeek"@.len());
    assert("MaximumRate"@.len() != "CanPause"@.len());
    assert("MaximumRate"@.len() != "CanPlay"@.len());
    assert("MaximumRate"@.len() != "CanGoNext"@.len());
    assert("MaximumRate"@.len() != "CanGoPrevious"@.len());
    assert("MaximumRate"@.len() != "Shuffle"@.len());
    assert("MaximumRate"@.len() != "LoopStatus"@.len());
    assert("MaximumRate"@.len() != "PlaybackStatus"@.len());
    assert("MaximumRate"@[1] != "MinimumRate"@[1]);
    assert("Rate"@.len() != "Metadata"@.len());
    assert("Rate"@.len() != "CanControl"@.len());
    assert("Rate"@.len() != "CanSeek"@.len());
    assert("Rate"@.len() != "CanPause"@.len());
    assert("Rate"@.len() != "CanPlay"@.len());
    assert("Rate"@.len() != "CanGoNext"@.len());
    assert("Rate"@.len() != "CanGoPrevious"@.len());
    assert("Rate"@.len() != "Shuffle"@.len());
    assert("Rate"@.len() != "LoopStatus"@.len());
    assert("Rate"@.len() != "PlaybackStatus"@.len());
    assert("Rate"@.len() != "MinimumRate"@.len());
    assert("Rate"@.len() != "MaximumRate"@.len());
    assert("Volume"@.len() != "Metadata"@.len());
    assert("Volume"@.len() != "CanControl"@.len());
    assert("Volume"@.len() != "CanSeek"@.len());
    assert("Volume"@.len() != "CanPause"@.len());
    assert("Volume"@.len() != "CanPlay"@.len());
    assert("Volume"@.len() != "CanGoNext"@.len());
    assert("Volume"@.len() != "CanGoPrevious"@.len());
    assert("Volume"@.len() != "Shuffle"@.len());
    assert("Volume"@.len() != "LoopStatus"@.len());
    assert("Volume"@.len() != "PlaybackStatus"@.len());
    assert("Volume"@.len() != "MinimumRate"@.len());
    assert("Volume"@.len() != "MaximumRate"@.len());
    assert("Volume"@.len() != "Rate"@.len());
}

/// Each property that the widget follows is recognised under its MPRIS
/// name.
pub proof fn lemma_followed_property_names()
    ensures
        PropKind::spec_of("Metadata"@) == PropKind::Metadata,
        PropKind::spec_of("CanControl"@) == PropKind::CanControl,
        PropKind::spec_of("CanSeek"@) == PropKind::CanSeek,
        PropKind::spec_of("CanPause"@) == PropKind::CanPause,
        PropKind::spec_of("CanPlay"@) == PropKind::CanPlay,
        PropKind::spec_of("CanGoNext"@) == PropKind::CanGoNext,
        PropKind::spec_of("CanGoPrevious"@) == PropKind::CanGoPrevious,
        PropKind::spec_of("Shuffle"@) == PropKind::Shuffle,
        PropKind::spec_of("LoopStatus"@) == PropKind::LoopStatus,
        PropKind::spec_of("PlaybackStatus"@) == PropKind::PlaybackStatus,
        PropKind::spec_of("MinimumRate"@) == PropKind::MinimumRate,
        PropKind::spec_of("MaximumRate"@) == PropKind::MaximumRate,
        PropKind::spec_of("Rate"@) == PropKind::Rate,
        PropKind::spec_of("Volume"@) == PropKind::Volume,
{
    lemma_property_names_distinct();
}

/// Names that the widget does not follow are reported as unhandled, and
/// only those.
pub proof fn lemma_unhandled_names(name: Seq<char>)
    ensures
        PropKind::spec_of(name) == PropKind::Unhandled <==> !(name == "Metadata"@ || name
            == "CanControl"@ || name == "CanSeek"@ || name == "CanPause"@ || name == "CanPlay"@
            || name == "CanGoNext"@ || name == "CanGoPrevious"@ || name == "Shuffle"@ || name
            == "LoopStatus"@ || name == "PlaybackStatus"@ || name == "MinimumRate"@ || name
            == "MaximumRate"@ || name == "Rate"@ || name == "Volume"@),
{
    lemma_followed_property_names();
}

/// Updates from the player never change whether the user drags a control.
pub proof fn lemma_updates_keep_drags(s: PlayerState, u: PropUpdate)
    ensures
        s.after_prop(u).is_dragging_playback == s.is_dragging_playback,
        s.after_prop(u).is_dragging_volume == s.is_dragging_volume,
        s.after_prop(u).is_dragging_rate == s.is_dragging_rate,
{
    reveal(PlayerState::after_prop);
}

/// A new playback status, a new rate or a new track has the playback
/// position asked of the player again.
pub proof fn lemma_timing_changes_realign(s: PlayerState, u: PropUpdate)
    requires
        u is PlaybackStatus || u is Rate || u is Metadata,
    ensures
        s.after_prop(u).clock_needs_aligned,
        s.after_prop(u).tick_plan() != TickPlan::Advance,
{
    reveal(PlayerState::after_prop);
}

/// The position is asked of the player once: after a frame that aligns the
/// clock, the next frame moves the position on from it.
pub proof fn lemma_align_once(s: PlayerState)
    requires
        s.tick_plan() == TickPlan::Align,
    ensures
        (PlayerState { clock_needs_aligned: false, ..s }).tick_plan() == TickPlan::Advance,
{
}

/// The play/pause button shows the icon of the state that pressing it leads
/// to, after any playback status.
pub proof fn lemma_play_pause_icon(s: PlayerState, v: Option<String>)
    ensures
        s.prop_actions(PropUpdate::PlaybackStatus(v))[0] == UiActionView::SetPlayPauseIcon(
            s.after_prop(PropUpdate::PlaybackStatus(v)).play_state.spec_inverse().spec_icon_name(),
        ),
{
    reveal(PlayerState::after_prop);
    reveal(PlayerState::prop_actions);
}

} // verus!

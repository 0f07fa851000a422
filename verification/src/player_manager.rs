//! The players that the widget tracks, by their unique bus names, and the
//! decisions taken on the bus signals that announce players coming and
//! going.
//!
//! `playerctld` is a proxy that re-publishes whichever player is active; it
//! is never shown as a player of its own.
use vstd::prelude::*;
use vstd::hash_map::StringHashMap;
use crate::str_utils::{has_prefix, str_eq};

verus! {

/// Whether a well-known bus name belongs to an MPRIS player (or proxy).
pub open spec fn is_mpris_name(name: Seq<char>) -> bool {
    "org.mpris.MediaPlayer2"@.is_prefix_of(name)
}

/// Whether a well-known bus name is that of `playerctld`.
pub open spec fn is_playerctld_name(name: Seq<char>) -> bool {
    name == "org.mpris.MediaPlayer2.playerctld"@
}

/// What to do on a change of owner of a well-known bus name.
#[derive(PartialEq, Eq, Debug)]
pub enum OwnerChange {
    /// Nothing: the name is not an MPRIS name, or the change concerns no
    /// player to add or remove.
    Ignore,
    /// `playerctld` now lives at this unique name, which is no player: any
    /// widget under it goes.
    PlayerctldMoved(String),
    /// The player at this unique name left the bus: its widget goes.
    PlayerGone(String),
    /// A new player appeared at this unique name: a widget is to be made.
    PlayerAppeared(String),
}

/// Who sent a signal from a player's object path.
#[derive(PartialEq, Eq, Structural, Clone, Copy, Debug)]
pub enum SenderStatus {
    /// A tracked player.
    Known,
    /// `playerctld`, which is not shown.
    Playerctld,
    /// A player that is not tracked yet: it is to be revived.
    Unknown,
}

/// The players that the widget tracks, each with its widget, by unique bus
/// name, and the unique name of `playerctld` where it is known.
#[verifier::reject_recursive_types(W)]
pub struct PlayerManager<W> {
    player_by_name: StringHashMap<W>,
    playerctld_owner: Option<String>,
}

impl<W> PlayerManager<W> {
    /// The tracked players, by unique bus name.
    pub closed spec fn players(&self) -> Map<Seq<char>, W> {
        self.player_by_name@
    }

    /// The unique bus name of `playerctld`, where it is known.
    pub closed spec fn spec_playerctld_owner(&self) -> Option<Seq<char>> {
        match self.playerctld_owner {
            Some(s) => Some(s@),
            None => None,
        }
    }

    /// No player yet, with `playerctld` at the given unique name.
    pub fn new(playerctld_owner: Option<String>) -> (res: Self)
        ensures
            res.players() == Map::<Seq<char>, W>::empty(),
            res.spec_playerctld_owner() == (match playerctld_owner {
                Some(s) => Some(s@),
                None => None::<Seq<char>>,
            }),
    {
        PlayerManager { player_by_name: StringHashMap::new(), playerctld_owner }
    }

    /// Whether a player is tracked under this unique name.
    pub fn have_player_by_name(&self, name: &str) -> (res: bool)
        ensures
            res == self.players().contains_key(name@),
    {
        self.player_by_name.contains_key(name)
    }

    /// The widget of the player tracked under this unique name.
    pub fn get_player(&self, name: &str) -> (res: Option<&W>)
        ensures
            match res {
                Some(w) => self.players().contains_key(name@) && *w == self.players()[name@],
                None => !self.players().contains_key(name@),
            },
    {
        self.player_by_name.get(name)
    }

    /// Tracks a player under this unique name, in place of any player that
    /// was tracked under it.
    pub fn add_player(&mut self, name: String, widget: W)
        ensures
            final(self).players() == old(self).players().insert(name@, widget),
            final(self).spec_playerctld_owner() == old(self).spec_playerctld_owner(),
    {
        self.player_by_name.insert(name, widget);
    }

    /// Stops tracking the player under this unique name; tells whether one
    /// was tracked.
    pub fn remove_player(&mut self, name: &str) -> (res: bool)
        ensures
            res == old(self).players().contains_key(name@),
            final(self).players() == old(self).players().remove(name@),
            final(self).spec_playerctld_owner() == old(self).spec_playerctld_owner(),
    {
        let had = self.player_by_name.contains_key(name);
        self.player_by_name.remove(name);
        had
    }

    /// The unique bus name of `playerctld`, where it is known.
    pub fn playerctld_owner(&self) -> (res: Option<&String>)
        ensures
            match res {
                Some(s) => self.spec_playerctld_owner() == Some(s@),
                None => self.spec_playerctld_owner() is None,
            },
    {
        match &self.playerctld_owner {
            Some(s) => Some(s),
            None => None,
        }
    }

    /// What a change of owner of the well-known name `name` means.
    pub open spec fn spec_owner_change(
        self,
        name: Seq<char>,
        old_owner: Seq<char>,
        new_owner: Seq<char>,
    ) -> OwnerChangeView {
        if !is_mpris_name(name) {
            OwnerChangeView::Ignore
        } else if is_playerctld_name(name) && new_owner.len() > 0 {
            OwnerChangeView::PlayerctldMoved(new_owner)
        } else if new_owner.len() == 0 {
            OwnerChangeView::PlayerGone(old_owner)
        } else if old_owner.len() == 0 && !self.players().contains_key(new_owner) {
            OwnerChangeView::PlayerAppeared(new_owner)
        } else {
            OwnerChangeView::Ignore
        }
    }

    /// Decides on a change of owner of the well-known name `name`, from
    /// `old_owner` to `new_owner` (an empty owner is none).  When
    /// `playerctld` moves, its new unique name is remembered.
    pub fn name_owner_changed(&mut self, name: &str, old_owner: String, new_owner: String) -> (res:
        OwnerChange)
        ensures
            res@ == old(self).spec_owner_change(name@, old_owner@, new_owner@),
            final(self).players() == old(self).players(),
            final(self).spec_playerctld_owner() == (if res is PlayerctldMoved {
                Some(new_owner@)
            } else {
                old(self).spec_playerctld_owner()
            }),
    {
        if !has_prefix(name, "org.mpris.MediaPlayer2") {
            return OwnerChange::Ignore;
        }
        if str_eq(name, "org.mpris.MediaPlayer2.playerctld") && new_owner.as_str().unicode_len()
            != 0 {
            self.playerctld_owner = Some(new_owner.clone());
            return OwnerChange::PlayerctldMoved(new_owner);
        }
        if new_owner.as_str().unicode_len() == 0 {
            return OwnerChange::PlayerGone(old_owner);
        }
        if old_owner.as_str().unicode_len() == 0 && !self.have_player_by_name(new_owner.as_str()) {
            return OwnerChange::PlayerAppeared(new_owner);
        }
        OwnerChange::Ignore
    }

    /// Who sent a signal from a player's object path.
    pub open spec fn spec_sender_status(self, sender: Seq<char>) -> SenderStatus {
        if self.players().contains_key(sender) {
            SenderStatus::Known
        } else if self.spec_playerctld_owner() == Some(sender) {
            SenderStatus::Playerctld
        } else {
            SenderStatus::Unknown
        }
    }

    /// Who sent a signal from a player's object path: a tracked player,
    /// `playerctld`, or a player to revive.
    pub fn sender_status(&self, sender: &str) -> (res: SenderStatus)
        ensures
            res == self.spec_sender_status(sender@),
    {
        if self.have_player_by_name(sender) {
            SenderStatus::Known
        } else {
            match &self.playerctld_owner {
                Some(owner) => if str_eq(owner.as_str(), sender) {
                    SenderStatus::Playerctld
                } else {
                    SenderStatus::Unknown
                },
                None => SenderStatus::Unknown,
            }
        }
    }
}

/// What an [`OwnerChange`] says, with names as character sequences.
pub enum OwnerChangeView {
    Ignore,
    PlayerctldMoved(Seq<char>),
    PlayerGone(Seq<char>),
    PlayerAppeared(Seq<char>),
}

impl View for OwnerChange {
    type V = OwnerChangeView;

    open spec fn view(&self) -> OwnerChangeView {
        match self {
            OwnerChange::Ignore => OwnerChangeView::Ignore,
            OwnerChange::PlayerctldMoved(s) => OwnerChangeView::PlayerctldMoved(s@),
            OwnerChange::PlayerGone(s) => OwnerChangeView::PlayerGone(s@),
            OwnerChange::PlayerAppeared(s) => OwnerChangeView::PlayerAppeared(s@),
        }
    }
}

/// Whether a well-known bus name, found when listing the bus, is that of a
/// player to show: an MPRIS name other than `playerctld`.
pub fn is_player_bus_name(name: &str) -> (res: bool)
    ensures
        res == (is_mpris_name(name@) && !is_playerctld_name(name@)),
{
    has_prefix(name, "org.mpris.MediaPlayer2") && !str_eq(name, "org.mpris.MediaPlayer2.playerctld")
}

/// A player that is added is found under its name with its widget, and no
/// other name changes.
pub proof fn lemma_added_player_found<W>(players: Map<Seq<char>, W>, name: Seq<char>, widget: W)
    ensures
        players.insert(name, widget).contains_key(name),
        players.insert(name, widget)[name] == widget,
        forall|other: Seq<char>|
            other != name ==> (#[trigger] players.insert(name, widget).contains_key(other)
                == players.contains_key(other)),
        forall|other: Seq<char>|
            other != name && players.contains_key(other) ==> #[trigger] players.insert(
                name,
                widget,
            )[other] == players[other],
{
}

/// A player that is removed is no longer found, and no other name changes.
pub proof fn lemma_removed_player_gone<W>(players: Map<Seq<char>, W>, name: Seq<char>)
    ensures
        !players.remove(name).contains_key(name),
        forall|other: Seq<char>|
            other != name ==> (#[trigger] players.remove(name).contains_key(other)
                == players.contains_key(other)),
{
}

/// A player is announced as new only under a unique name that is not
/// empty and not tracked yet, which is the new owner of an MPRIS name that
/// had no owner.
pub proof fn lemma_appeared_player_is_new<W>(
    m: PlayerManager<W>,
    name: Seq<char>,
    old_owner: Seq<char>,
    new_owner: Seq<char>,
)
    ensures
        m.spec_owner_change(name, old_owner, new_owner) matches OwnerChangeView::PlayerAppeared(
            x,
        ) ==> {
            &&& x == new_owner
            &&& x.len() > 0
            &&& old_owner.len() == 0
            &&& is_mpris_name(name)
            &&& !m.players().contains_key(x)
        },
{
}

/// `playerctld` is never revived as a player: a signal from its unique name
/// is taken as a player's only when a player is tracked under that name.
pub proof fn lemma_playerctld_never_revived<W>(m: PlayerManager<W>, sender: Seq<char>)
    requires
        m.spec_playerctld_owner() == Some(sender),
    ensures
        m.spec_sender_status(sender) != SenderStatus::Unknown,
        !m.players().contains_key(sender) ==> m.spec_sender_status(sender)
            == SenderStatus::Playerctld,
{
}

/// Only MPRIS names concern the widget: a change of owner of any other name
/// is ignored.
pub proof fn lemma_other_names_ignored<W>(
    m: PlayerManager<W>,
    name: Seq<char>,
    old_owner: Seq<char>,
    new_owner: Seq<char>,
)
    requires
        !is_mpris_name(name),
    ensures
        m.spec_owner_change(name, old_owner, new_owner) == OwnerChangeView::Ignore,
{
}

/// `playerctld` is an MPRIS name.
pub proof fn lemma_playerctld_is_mpris_name()
    ensures
        is_mpris_name("org.mpris.MediaPlayer2.playerctld"@),
{
    reveal_strlit("org.mpris.MediaPlayer2");
    reveal_strlit("org.mpris.MediaPlayer2.playerctld");
    assert("org.mpris.MediaPlayer2"@ =~= "org.mpris.MediaPlayer2.playerctld"@.subrange(
        0,
        "org.mpris.MediaPlayer2"@.len() as int,
    ));
}

/// `playerctld` taking a unique name is never a player appearing: whatever
/// the name had as owner before, the change moves `playerctld` to its new
/// unique name.
pub proof fn lemma_playerctld_moves<W>(
    m: PlayerManager<W>,
    name: Seq<char>,
    old_owner: Seq<char>,
    new_owner: Seq<char>,
)
    requires
        is_playerctld_name(name),
        new_owner.len() > 0,
    ensures
        m.spec_owner_change(name, old_owner, new_owner) == OwnerChangeView::PlayerctldMoved(
            new_owner,
        ),
{
    lemma_playerctld_is_mpris_name();
}

/// Who sent a signal: a tracked player is known; otherwise the sender is
/// `playerctld` exactly when `playerctld` is known to live at the sender's
/// unique name, and any other sender is a player to revive.
pub proof fn lemma_sender_classes<W>(m: PlayerManager<W>, sender: Seq<char>)
    ensures
        m.spec_sender_status(sender) == SenderStatus::Known <==> m.players().contains_key(sender),
        m.spec_sender_status(sender) == SenderStatus::Playerctld <==> (!m.players().contains_key(
            sender,
        ) && m.spec_playerctld_owner() == Some(sender)),
        m.spec_sender_status(sender) == SenderStatus::Unknown <==> (!m.players().contains_key(
            sender,
        ) && m.spec_playerctld_owner() != Some(sender)),
        m.spec_playerctld_owner() is None && !m.players().contains_key(sender)
            ==> m.spec_sender_status(sender) == SenderStatus::Unknown,
{
}

} // verus!

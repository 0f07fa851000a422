# waybar_mpris

A Waybar module that lists the MPRIS media players on the session bus and
lets the user control them.

- `src/` is the library, verified with Verus:
  - `player_model`: playback and loop states and their MPRIS names;
  - `player`: the state kept for one player, how it follows the property
    updates that the player announces, and the changes that each update
    makes to the widget's controls;
  - `player_manager`: the players tracked by unique bus name, and the
    decisions taken on `NameOwnerChanged`, `Seeked` and
    `PropertiesChanged` signals;
  - `config`: the configuration (players to leave out, text limits);
  - `str_utils`: text helpers, among them the truncation of titles to a
    byte budget at a character boundary.
- `app/` holds the GTK widgets, the D-Bus calls and subscriptions, and the
  floating-point playback clock, around the library.
- `tests/` exercises the library.

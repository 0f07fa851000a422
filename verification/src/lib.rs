//! Model and control logic of an MPRIS media-player widget for Waybar.
//!
//! The library holds what the widget decides: the play and loop states of a
//! player and how they are named on the bus, how a player's state follows the
//! property updates it announces, which players are tracked, and how titles
//! are shortened for display.
pub mod player_model;
pub mod str_utils;
pub mod player;
pub mod player_manager;
pub mod config;

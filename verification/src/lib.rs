//! Control logic for a two-button counter game played on a charlieplexed
//! LED array: a wraparound-safe time base, debounced buttons, the game
//! state machine, frame planning for the LED multiplexer, the win strobe,
//! counter reseeding, and the idle-to-sleep power rule.

pub mod button;
pub mod charlie;
pub mod control;
pub mod game;
pub mod pins;
pub mod power;
pub mod shuffle;
pub mod timebase;

//! The greeter and shell of the Ballad desktop.
//!
//! The core is the greeter's client of the greetd login protocol: the framing
//! of messages on the broker's socket (`frame`), the messages and their JSON
//! form (`protocol`), and the authentication flow as a state machine
//! (`session`). Beside it stand the shell's themes and plain settings.
pub mod builtin_themes;
pub mod config;
pub mod error;
pub mod frame;
pub mod power_profiles;
pub mod protocol;
pub mod session;
pub mod theme;
pub mod widgets;

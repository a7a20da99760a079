//! Terminal capability cache and the dispatcher that reacts to changes of
//! configuration variables, for an interactive command shell.
//!
//! Everything here is a decision on plain values. The native terminal
//! database, the process locale and the process environment stay with the
//! caller, who performs what these functions decide and hands back what the
//! native side answered.

pub mod assoc;
pub mod color;
pub mod curses;
pub mod env;
pub mod env_dispatch;
pub mod locale;
pub mod output;
pub mod terminal;
pub mod text;
pub mod var_table;

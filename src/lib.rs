//! A Pomodoro-style countdown timer served to status bars: the timer state
//! machine, its rendering as a status line, the command frames of control
//! clients, and the state the service shares between its tasks.

pub mod clock;
pub mod text;
pub mod timer;
pub mod render;
pub mod server;
pub mod wire;
pub mod laws;

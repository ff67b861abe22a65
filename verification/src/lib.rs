//! Push-to-talk for X11 applications running under XWayland: the command
//! line, the choice of the evdev listen key, the classification of input
//! events and the XTEST connection set-up.

pub mod args;
pub mod text;
pub mod evdev;
pub mod setup_evdev;
pub mod x11;

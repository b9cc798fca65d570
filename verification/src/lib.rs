//! Core logic of the MovingText desktop marquee and notch: configuration
//! model, notch state machine, mouse-hook decisions, overlay geometry and the
//! small text and colour grammars the settings window relies on.

pub mod config;
pub mod text;
pub mod state;
pub mod hook;
pub mod color;
pub mod overlay;
pub mod backdrop;
pub mod tray;
pub mod screen;
pub mod fonts;
pub mod settings;
pub mod dialog;
pub mod surface;

//! The rules of a windowing library that can be stated without a screen.
//!
//! The larger part resolves key presses on Windows. `vkeys`, `keyboard` and
//! `mapping` hold the identifiers and the fixed tables between them;
//! `modifiers` the modifier combinations and the key-state arrays that stand
//! for them; `probe` the two-phase protocol of the system's key-to-text
//! conversion; `interner` and `table` the containers; `layout` the tables
//! of one keyboard layout, what they must hold, and how a key press is
//! resolved against them; `construction` and `cache` how the tables are
//! built and kept; `laws` what follows for every layout.
//!
//! `geometry` and `wm` work out the frame of an X11 window and the name of
//! its window manager from the server's answers. `window` and `unix`
//! describe a window and what is asked of it.
//!
//! Nothing here talks to the operating system: the callers ask it and hand
//! the answers in.

pub mod cache;
pub mod construction;
pub mod geometry;
pub mod interner;
pub mod keyboard;
pub mod laws;
pub mod layout;
pub mod mapping;
pub mod modifiers;
pub mod probe;
pub mod table;
pub mod unix;
pub mod vkeys;
pub mod window;
pub mod wm;

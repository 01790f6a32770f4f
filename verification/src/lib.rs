//! The decisions behind a two-slot floating markdown viewer: what each request, file change
//! and window event does to the state, and what is left to do outside.

pub mod binary64;
pub mod calls;
pub mod case;
pub mod color;
pub mod command;
pub mod data;
pub mod dock;
pub mod effect;
pub mod inbox;
pub mod json;
pub mod keyed;
pub mod notes;
pub mod paths;
pub mod prefs;
pub mod push;
pub mod recolor;
pub mod runtime;
pub mod session;
pub mod settings;
pub mod size;
pub mod slot;
pub mod text;
pub mod watch;
pub mod window;

//! The verified core of the TaigiKeyboard Linux input method: the
//! candidate highlight and its pages, the classification of IBus key
//! events, the daily update schedule, the settings window's command line
//! and shortcut recorder, the IBus bus discovery and the per-key session
//! decisions.

pub mod selection;
pub mod update_schedule;
pub mod update_trigger;
pub mod key_translation;
pub mod text;
pub mod locale;
pub mod settings_pane;
pub mod cli;
pub mod launcher;
pub mod bus;
pub mod recorder;
pub mod session;
pub mod fonts;
pub mod factory;
pub mod lang_bar;
pub mod wire;

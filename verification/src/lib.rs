//! The hotkey catalog of the window manager: every bindable action with its
//! default key chord, label and display group, the default key-chord map,
//! the config-template block and the mapping from action ids to commands.
//!
//! Both the daemon (default config, settings UI) and the CLI derive
//! everything from [`hotkey_catalog`], so a new hotkey is defined exactly
//! once.

pub mod bindings;
pub mod catalog;
pub mod command;
pub mod labels;
pub mod laws;
pub mod template;
pub mod text;

pub use bindings::default_bindings_map;
pub use catalog::{hotkey_catalog, HotkeyAction};
pub use command::{command_for_action, IpcCommand};
pub use template::render_template_block;
pub use text::parse_u8;

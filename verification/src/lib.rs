//! Window discovery, focus stealing and input injection for driving an
//! editor-like application from an external launcher.
//!
//! The library holds the verified decision logic: path translation between
//! host and guest namespaces, window-directory filtering and matching, the
//! focus-stealing protocol expressed as action plans and a session state
//! machine, the clipboard-swap model, and the command macros that produce
//! key-event sequences. The platform calls that carry these decisions out
//! (window system, clipboard, key synthesis) live in the surrounding
//! application layer.

pub mod clipboard;
pub mod error;
pub mod focus;
pub mod keyboard_macro;
pub mod path;
pub mod text;
pub mod window;

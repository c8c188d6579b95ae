//! A checked boundary around the native XComponent surface.
//!
//! The native side speaks through raw addresses, out-parameters and integer
//! status codes (`0` is success). This crate keeps the decisions made around
//! those calls: which handles are admitted, when an out-parameter may be read,
//! how a status becomes a typed outcome, and in which order the registration
//! steps run. The native calls themselves are supplied by the caller, either as
//! the values they produced or as closures that perform them.
mod handle;

pub use handle::{check_status, Size, XComponent};
mod registration;

pub use registration::{register_xcomponent_callbacks, RegisterCallbackError, XCOMPONENT_PROPERTY};
mod diagnostics;

pub use diagnostics::{push_decimal, touch_event_failure, Diagnostic, Level};

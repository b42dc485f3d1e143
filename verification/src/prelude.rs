//! The names that an application needs to get going.

pub use crate::cli::QuarkArgs;
pub use crate::config::QuarkConfig;
pub use crate::error::QuarkError;
pub use crate::setup::{HostEvent, HostRequest, ServedAsset, Setup};
pub use crate::webview::SizeHint;
pub use crate::Quark;

//! A launcher that is installed once and exposed under many names: each name
//! selects a configured container image and command, whose runtime flags are
//! rendered from a small template and whose arguments are forwarded unchanged.

pub mod dispatch;
pub mod launch;
pub mod locate;
pub mod paths;
pub mod settings;
pub mod template;
pub mod text;

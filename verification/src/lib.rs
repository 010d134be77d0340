pub mod chars;
pub mod command;
pub mod flavor;
pub mod integration;
pub mod locator;
pub mod plan;
pub mod platform;
pub mod pty;
pub mod sanitize;
pub mod session;
pub mod text;

pub use sanitize::sanitize_binary_name;

//! A command bridge between a webview user interface and native host code:
//! a registry of named commands, a dispatcher that decodes arguments and
//! encodes results, the main window's lifecycle, and the startup sequence
//! that wires them together.

pub mod commands;
pub mod error;
pub mod wire;
pub mod registry;
pub mod dispatch;
pub mod window;
pub mod bootstrap;

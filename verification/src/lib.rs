//! Verified core of a minimal desktop-application bootstrap.
//!
//! The library models the decisions a GUI-shell entry point makes before it
//! hands control to the host framework's blocking run loop: which capability
//! plugins to attach, with which configuration, in which lifecycle order, and
//! how a run-loop outcome is turned into a process exit. The host framework
//! itself (window system, webview, event loop) stays outside the library; an
//! unverified driver mirrors each recorded step against it.

pub mod lifecycle;
pub mod outcome;
pub mod plugin;
pub mod suppression;

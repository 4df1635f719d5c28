//! Command dispatch for a chat client with many server connections, and
//! the rendering of its tab bar.
//!
//! A command line typed in a tab is parsed ([`registry`]) and run
//! ([`cmd`]): the handlers decide, from the line, the tab it was typed in
//! and the servers that there are connections to, what is to be done.
//! They return it as a list of [`action::Action`]s and perform nothing
//! themselves. [`tab`] computes the cells that show a tab's label.
//! [`laws`] holds what is proved of all inputs.
pub mod action;
pub mod cmd;
pub mod config;
pub mod laws;
pub mod outside;
pub mod registry;
pub mod source;
pub mod tab;
pub mod text;

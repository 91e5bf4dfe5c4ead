//! Search providers for recent projects of JetBrains IDEs.
//!
//! The library holds what a search provider decides and computes: how items are
//! scored against search terms and ranked ([`matching`]), what the operations of a
//! provider return for a collection of items ([`provider`], [`searchprovider`]), when
//! the items of an app are loaded ([`cache`]), and how the scope is named and set up
//! that a launched app is moved to ([`systemd`], [`launchservice`]).  It talks to no
//! bus and reads no file: a program around it does, and hands it what it found.

pub mod cache;
pub mod config;
pub mod dbus;
pub mod fs;
pub mod item;
pub mod launchservice;
pub mod logcontrol;
pub mod logging;
pub mod matching;
pub mod provider;
pub mod providers;
pub mod reload;
pub mod searchprovider;
pub mod source;
pub mod systemd;
pub mod text;

//! Core of a build orchestration engine for a product that is made of
//! several artifacts: a compiled web module, the bundle of the graphical
//! interface, the bundle of the backend service, and the packaged desktop
//! application.
//!
//! The library decides; it does not act. Whatever touches the network, the
//! disk or a process is done by the program around it, which hands the
//! library plain values and is told what to do next. So every rule of the
//! engine is a function with a contract, proved with Verus:
//!
//! - [`context`] turns what a user says of the source of a target into a
//!   job, and plans the commands;
//! - [`executor`] steps through getting a target: build or fetch, upload
//!   where due, done or failed;
//! - [`cache`] keeps the registry of entries and of generations in flight;
//! - [`join`] and [`watch`] join operations that run side by side and
//!   supervise watching processes;
//! - [`project`] holds the kinds of target and how they depend on each
//!   other;
//! - [`version`] and [`preflight_check`] choose versions;
//! - [`actions`], [`program`], [`programs`], [`runner`] and [`config`] hold
//!   what the engine knows of the CI provider and of the tools it calls.

pub mod actions;
pub mod arg;
pub mod cache;
pub mod cli;
pub mod config;
pub mod context;
pub mod dict;
pub mod error;
pub mod executor;
pub mod join;
pub mod lists;
pub mod paths;
pub mod platform;
pub mod preflight_check;
pub mod program;
pub mod programs;
pub mod project;
pub mod release;
pub mod runner;
pub mod source;
pub mod text;
pub mod version;
pub mod watch;

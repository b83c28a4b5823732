//! Resolving, verifying, caching and staging a machine-specific firmware
//! update, as decisions over plain values.
//!
//! Nothing here touches the disk, the network or the hardware. Each
//! operation that needs the host is a state machine: it names the next thing
//! the host must do and is told how that went. What the operations promise
//! is stated over all the ways in which the host can answer.
//!
//! - [`identity`] derives the identifier of the machine's firmware.
//! - [`manifest`] reads a release's manifest and looks files up in it.
//! - [`archive`] reads compressed archives and checks their members' paths.
//! - [`cache`] asks for a blob by its digest and hands it out only intact.
//! - [`release`] resolves a release to its two payloads through the cache.
//! - [`download`] fetches the current release and announces its changelog.
//! - [`schedule`] stages a release for the next boot; [`unschedule`] takes it
//!   back.
//! - [`bus`] names the operations that the daemon offers.
//! - [`host`] lists what is asked of the host and models what it does.

pub mod error;
pub mod digest;
pub mod identity;
pub mod manifest;
pub mod archive;
pub mod cache;
pub mod release;
pub mod host;
pub mod schedule;
pub mod unschedule;
pub mod download;
pub mod bus;

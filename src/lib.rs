//! Authentication and launch orchestration for a desktop game launcher.
//!
//! The library holds the decisions: which password form goes on the wire,
//! how a login reply is classified, when the legacy loader is consulted,
//! how credentials are laid out on disk, which player build a platform needs,
//! which game assets are stale, and what command line starts the game.
//! Network, disk and process work stay with the caller.
use vstd::prelude::*;

pub mod credentials;
pub mod launch;
pub mod login;
pub mod login_client;
pub mod news;
pub mod outside;
pub mod platform;
pub mod text;
pub mod update;

verus! {

} // verus!

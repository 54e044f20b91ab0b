//! The process-wide game state: one configuration value behind a shared
//! multi-reader / single-writer guard. The engine only ever reads through it;
//! a configuration-reload path (outside the engine) may write.

use vstd::prelude::*;

use std::sync::Arc;
use std::sync::RwLock;

use crate::config::Config;
use crate::matrix::matrix_world::MatrixError;

verus! {

/// std's reader-writer lock, declared so the guard can appear in signatures.
/// Values of it are opaque here: the engine goes through [`read_config`].
#[verifier::external_type_specification]
#[verifier::external_body]
#[verifier::reject_recursive_types(T)]
pub struct ExRwLock<T: ?Sized>(RwLock<T>);

/// Relies on `std::sync::RwLock::new`: wraps the configuration in a fresh,
/// unpoisoned guard.
#[verifier::external_body]
pub(crate) fn new_config_lock(config: Config) -> RwLock<Config> {
    RwLock::new(config)
}

/// Relies on `std::sync::RwLock::read`: yields a snapshot of the guarded
/// configuration, or an acquisition error when the guard is poisoned. What
/// snapshot comes back depends on the writers, so nothing is promised of it.
#[verifier::external_body]
pub(crate) fn read_config(handle: &Arc<RwLock<Config>>) -> (r: Result<Config, MatrixError>)
    ensures
        r matches Result::Err(e) ==> e.message@ == "Failed to acquire read lock on config"@,
{
    match handle.read() {
        Ok(guard) => Ok(*guard),
        Err(_) => Err(MatrixError::new("Failed to acquire read lock on config")),
    }
}

/// Owns the shared configuration handle that the world and the render loop
/// read.
pub struct GameState {
    pub config: Arc<RwLock<Config>>,
}

impl GameState {
    /// Puts `config` behind a fresh shared guard. The guard is opaque, so
    /// nothing can be stated of the returned handle; the configuration it
    /// yields is whatever the writers last left.
    pub fn new(config: Config) -> GameState {
        GameState { config: Arc::new(new_config_lock(config)) }
    }
}

} // verus!

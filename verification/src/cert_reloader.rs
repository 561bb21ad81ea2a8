//! Hot-reloadable TLS server configuration.
//!
//! The current configuration lives in an atomically swappable cell: any
//! number of readers take a snapshot per connection, a single logical
//! writer (the certificate watcher) replaces it wholesale. A reader's
//! snapshot stays valid however many swaps follow; a failed rebuild never
//! replaces the configuration that is serving traffic.
//!
//! The cell is shared state with interior mutability: clones of a handle
//! address the same cell, and a store through any handle is observed by
//! loads through every handle. What a load returns therefore depends on
//! the whole program's history, not on the handle value alone, so no
//! contract here pins the loaded snapshot to a function of the handle;
//! the cell's ordering guarantees are stated in prose on each operation
//! and exercised by tests. They are, from arc-swap: a load returns the
//! most recently stored snapshot; a store is atomic, so no load observes
//! a mix of two snapshots; two loads with no store between them return
//! the same snapshot.

use vstd::prelude::*;

verus! {

use std::sync::Arc;
use arc_swap::ArcSwap;
use rustls::ServerConfig;

/// Interior-mutable holder of the current `ServerConfig`, shared by all
/// clones of the outer `Arc`. Held opaquely: Verus cannot see through the
/// atomics, and no value-level description would survive sharing.
#[verifier::external_body]
pub struct SwapCell {
    inner: Arc<ArcSwap<ServerConfig>>,
}

/// Relies on arc_swap::ArcSwap::from_pointee: a fresh cell holding the
/// given configuration until the first store.
#[verifier::external_body]
fn cell_new(initial: ServerConfig) -> (c: SwapCell) {
    SwapCell { inner: Arc::new(ArcSwap::from_pointee(initial)) }
}

/// Relies on arc_swap::ArcSwap::load_full: the snapshot most recently
/// stored into the cell (through any handle), as an owned handle whose
/// lifetime is independent of later swaps. Never blocks, never fails.
#[verifier::external_body]
fn cell_load(c: &SwapCell) -> (r: Arc<ServerConfig>) {
    c.inner.load_full()
}

/// Relies on arc_swap::ArcSwap::store: atomically replaces the held
/// snapshot; every subsequent load through any handle returns it until
/// the next store, and snapshots already loaded are unaffected.
#[verifier::external_body]
fn cell_store(c: &SwapCell, v: ServerConfig) {
    c.inner.store(Arc::new(v));
}

/// Relies on Arc::clone: a second handle to the same underlying cell.
#[verifier::external_body]
fn cell_share(c: &SwapCell) -> (r: SwapCell) {
    SwapCell { inner: c.inner.clone() }
}

/// Holds the current TLS configuration and swaps it atomically when
/// certificate material is reloaded. Readers never block and never see a
/// partially built configuration: a swap replaces the whole snapshot.
pub struct ReloadableServerConfig {
    pub config: SwapCell,
}

impl ReloadableServerConfig {
    /// Creates a new reloadable server config with the initial configuration.
    pub fn new(initial_config: ServerConfig) -> Self {
        ReloadableServerConfig { config: cell_new(initial_config) }
    }

    /// Gets the current server configuration: the most recently stored
    /// snapshot. Never blocks and never fails; calling it again without
    /// an intervening update returns the same snapshot, and the returned
    /// snapshot outlives any later update.
    pub fn get(&self) -> Arc<ServerConfig> {
        cell_load(&self.config)
    }

    /// Updates the server configuration atomically. Every subsequent
    /// `get`, through this handle or any sharing it, sees the new
    /// snapshot; snapshots already handed out are unaffected.
    pub fn update(&self, new_config: ServerConfig) {
        cell_store(&self.config, new_config);
    }

    /// Returns a handle to the same underlying cell, for sharing across
    /// tasks: updates through either handle are seen through both.
    pub fn shared(&self) -> ReloadableServerConfig {
        ReloadableServerConfig { config: cell_share(&self.config) }
    }

    /// Applies the outcome of a rebuild: a fresh configuration replaces
    /// the current one, a failed build (no configuration) leaves the
    /// current one serving traffic untouched.
    pub fn apply_reload(&self, built: Option<ServerConfig>) {
        match built {
            Some(c) => self.update(c),
            None => (),
        }
    }
}

impl Clone for ReloadableServerConfig {
    /// A clone is a second handle to the same cell, as `shared` is.
    fn clone(&self) -> Self {
        self.shared()
    }
}

} // verus!

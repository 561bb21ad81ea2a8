//! Core of a mutual-TLS device registration endpoint.
//!
//! Devices authenticate with a client certificate, submit a certificate
//! signing request, and receive a short-lived client certificate signed by a
//! private certificate authority, provided the identity asserted in the
//! request matches the identity of the presented peer certificate. The
//! certificate material on disk can be rotated without restarting: a watcher
//! debounces filesystem events and swaps a freshly built TLS configuration
//! into an atomically readable cell.

pub mod identity;
pub mod listener;
pub mod cert_reloader;
pub mod certificates;
pub mod csr;
pub mod registration;
pub mod watcher;

pub use identity::{IdentityError, VehicleInfo, VehicleInfoHolder};

//! A cross-platform abstraction for obtaining GPU rendering handles —
//! connections, adapters, devices and drawable widgets — without
//! hard-coding which native graphics stack is in use.
//!
//! The [`multi`] module holds a generic two-backend dispatcher that tries
//! a default backend and transparently falls back to an alternate one.
//! The [`angle`] module holds a concrete backend over the implicit
//! DXGI/Direct3D connection concept, with its adapter-selection policy.
//! Every backend implements the interface in [`connection`], and the
//! dispatcher routes each operation to whichever backend is live.

pub mod angle;
pub mod connection;
pub mod error;
pub mod multi;
pub mod window;

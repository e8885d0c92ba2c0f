//! A resilience layer around a single Modbus client connection: one shared
//! connection slot, reconnection on failure, bounded retries of every
//! operation, and out-of-band changes of the addressed unit.

pub mod context;
pub mod endpoint;
pub mod error;
pub mod retry;
pub mod state;

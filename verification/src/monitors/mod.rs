//! The two monitors and what they share.

pub mod common;
pub mod decimal;
pub mod gateway;
pub mod laws;
pub mod safe;
pub mod session;
pub mod states;
pub mod types;
pub mod unsafe_monitor;

pub use safe::StablecoinMonitor as SafeMonitor;
pub use states::{Connected, DataFetched, Unconnected, Uninitialized};
pub use types::StablecoinMetrics;
pub use unsafe_monitor::StablecoinMonitor as UnsafeMonitor;

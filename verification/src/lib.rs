//! Runtime supervisor of a desktop shell: it aggregates the liveness of a
//! fixed set of local services into one status, keeps the latest snapshot in a
//! store, and decides what a singleton popover window does on toggle, hide
//! and focus-loss requests.

pub mod text;
pub mod health;
pub mod monitor;
pub mod store;
pub mod popover;
pub mod proxy;
pub mod tray;

pub use health::{HealthState, Overall, ServiceHealth};
pub use store::AppState;

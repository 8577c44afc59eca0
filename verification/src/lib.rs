//! Verified core of the DSH desktop shell: application settings, the free-port
//! search, the location of the bundled runtime, how the service is launched and
//! found, and the shell's window, tray and update decisions.

pub mod config;
pub mod paths;
pub mod port;
pub mod service;
pub mod shell;
pub mod sidecar;
pub mod state;
pub mod updater;

pub use config::AppConfig;
pub use paths::BundlePath;
pub use state::AppState;

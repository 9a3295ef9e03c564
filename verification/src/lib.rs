//! One-time clipboard secret broker: the selection-ownership engine.

pub mod config;
pub mod deadline;
pub mod identity;
pub mod owner;
pub mod policy;
pub mod protocol;
pub mod run;
pub mod secret;

pub use config::Conf;
pub use secret::Pass;

//! Layered configuration for the UE cell tracker: command-line values, a
//! persisted snapshot and compiled-in defaults are merged leaf by leaf, and
//! the result is flattened into per-section structures with no missing field.

pub mod arguments;
pub mod flatten;
pub mod laws;
pub mod options;
pub mod sections;

pub use arguments::{resolve, Arguments, Resolution};
pub use options::{CellApiConfig, ConfigError, DynamicValue, RntiMatchingTrafficPatternType, Scenario};
pub use sections::{
    DevicePublisherArgs, DownloadArgs, LogArgs, MilesightArgs, ModelArgs, NgScopeArgs,
    RntiMatchingArgs,
};

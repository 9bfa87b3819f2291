//! Layered provider configuration: defaults, explicit settings and observations.

pub mod accounts;
pub mod coordinator;
pub mod error;
pub mod laws;
pub mod merge;
pub mod model;
pub mod repository;
pub mod state;
pub mod sync;
pub mod walks;

pub use coordinator::{ChangeSet, Coordinator};
pub use error::{ProviderStoreError, StoreErrorView, MAX_PAGES};
pub use merge::Definitions;
pub use model::{
    ConfiguredModel, DefinitionRef, FieldOverride, ModelField, ModelKey, ModelOverrides, ModelRow,
    Observation, SavedConfig, SavedProfile,
};
pub use sync::{ProviderSyncOperation, ProviderSyncResult};

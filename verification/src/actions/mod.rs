//! Contextual action framework: which actions are offered where.
pub mod context;
pub mod registry;
pub mod state;
pub mod types;

pub use context::Context;
pub use registry::ActionRegistry;
pub use state::{ActionCondition, AppState};
pub use types::{Action, ActionType, AppAction};

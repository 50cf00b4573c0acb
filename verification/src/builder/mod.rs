//! The query builder: state, operations, registry and rendering.
pub mod api;
pub mod canonical;
pub mod checks;
pub mod compact;
pub mod laws;
pub mod methods;
pub mod output;
pub mod placeholders;
pub mod registry;
pub mod render;
pub mod state;

pub use state::{LockModifier, LockStrength, PaginationState, SelectLockClause};

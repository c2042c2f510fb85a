//! A hierarchical forum engine: a tree of categories holding threads, which
//! hold posts, with per-category moderator delegation, archival locking,
//! capacity limits and polls embedded in threads.
//!
//! Every operation first validates against the current state and only then
//! mutates it, so a rejected call leaves the forum exactly as it was.

pub mod audit;
pub mod calls;
pub mod categories;
pub mod events;
pub mod laws;
pub mod module;
pub mod permission;
pub mod posts;
pub mod preserve;
pub mod rules;
pub mod snapshot;
pub mod state;
pub mod threads;
pub mod tree;
pub mod types;

pub use calls::Trait;
pub use events::Event;
pub use module::Module;
pub use snapshot::Snapshot;
pub use state::{Config, ForumState, StorageLimits};
pub use types::{
    Category, CategoryView, ContentHash, Error, InputValidationLengthConstraint, Poll,
    PollAlternative, PollView, Post, PrivilegedActor, Thread, ThreadView,
};

//! Interactive staging engine: a selection model over version-controlled
//! paths, cursor movement and toggling, and a reconciler that computes the
//! minimal batches of stage/unstage operations.

pub mod model;
pub mod reconcile;
pub mod render;
pub mod status;

pub use model::Direction;
pub use model::Event;
pub use model::SelectionModel;
pub use model::Step;
pub use status::Entry;
pub use status::LoadError;
pub use status::StatusRow;

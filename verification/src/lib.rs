//! Core of a small single-threaded compositor: the window placement table,
//! the seat's pressed-button bookkeeping, the pointer move-grab state
//! machine, the client session registry, and the reactor-step policy.
//!
//! Pointer coordinates are carried as fixed-point values with 1/256-pixel
//! resolution; window positions are whole logical pixels.

pub mod geometry;
pub mod grabs;
pub mod laws;
pub mod input;
pub mod seat;
pub mod seqset;
pub mod session;
pub mod space;
pub mod state;

pub use geometry::Point;
pub use geometry::SubPoint;
pub use state::Hutch;

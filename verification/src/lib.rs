//! A dynamically-checked interior-mutability cell with borrow diagnostics.
//!
//! The cell enforces at run time the aliasing discipline a borrow checker
//! enforces at compile time: any number of concurrent shared (read-only)
//! accesses, or a single exclusive (read-write) access, never both. Each
//! successful acquisition can record a caller-supplied location descriptor,
//! and a failed acquisition reports the locations of all accesses that are
//! still alive.
//!
//! The borrow-state machine is specified by [`AccessModel`], a mathematical
//! model of the counter and the recorded locations; every operation on
//! [`BorrowFlag`] and [`RefCell`] is proved to follow the model's
//! transitions exactly.

mod cell;
mod errors;
mod flag;
mod location;
mod model;

pub use cell::Ref;
pub use cell::RefCell;
pub use cell::RefMut;
pub use errors::BorrowError;
pub use errors::BorrowMutError;
pub use errors::borrow_error_message;
pub use errors::borrow_mut_error_message;
pub use flag::BorrowFlag;
pub use location::Location;
pub use location::location_block;
pub use location::locations_display;
pub use location::locations_text;
pub use model::AccessModel;
pub use model::BorrowState;
pub use model::lemma_access_kinds_exclusive;
pub use model::lemma_conflicts_refused;
pub use model::lemma_exclusive_release_restores;
pub use model::lemma_shared_reentrant;
pub use model::lemma_shared_release_restores;
pub use model::lemma_shared_round_trip;
pub use model::with_n_shared_acquired;
pub use model::with_n_shared_released;

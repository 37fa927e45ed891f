//! A sequence-mutex: a mutual-exclusion primitive whose acquisition order is
//! fixed at construction time. Each participant receives a ticket, and the
//! protected value may only be entered by the participant whose ticket matches
//! the turn counter, which advances round-robin as each holder releases.
//! Dropping any handle poisons the lock permanently.

pub mod backoff;
pub mod laws;
pub mod lock;
pub mod model;

pub use crate::backoff::next_backoff;
pub use crate::backoff::INITIAL_BACKOFF_MICROS;
pub use crate::backoff::MAX_BACKOFF_MICROS;
pub use crate::lock::Guard;
pub use crate::lock::Sequex;
pub use crate::lock::SequexPoisoned;
pub use crate::lock::Shared;
pub use crate::model::LOCKED;
pub use crate::model::POISON;

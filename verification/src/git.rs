//! The versioned store: what each operation on it asks of the store, decided
//! from what the caller read of it.

pub mod history;
pub mod repository;

//! How records are laid out for the store.

pub mod botrepository;

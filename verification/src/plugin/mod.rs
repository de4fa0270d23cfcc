//! Bundled plugins: concrete implementations of the capability traits.

pub mod rust_storage_cache;

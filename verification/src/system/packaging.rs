//! Packaging: building packages from their description.
pub mod builder;

//! Persistence and versioning core of a design-token editor: a bounded
//! linear undo/redo history per entity, and the staged (draft, then commit)
//! layout of a document stored as a directory of section files.

pub mod assets;
pub mod design_system;
pub mod domain;
pub mod history;
pub mod home;
pub mod paths;
pub mod staging;
pub mod tints;

//! Machine-shop inventory core: a catalog of cutting tools, holders and
//! adapters, a library of unassigned entities, machines with fixed-size tool
//! magazines, the move engine that relocates entities between the library and
//! magazine slots, and pure filter/sort projections of a magazine's contents.

pub mod adapter;
pub mod app;
pub mod comment;
pub mod holder;
pub mod laws;
pub mod library;
pub mod machine;
pub mod magazine;
pub mod resources;
pub mod tool;

//! Data engine and view coordination for a terminal viewer of delimited files.

pub mod args;
pub mod chunk;
pub mod columns;
pub mod find;
pub mod index;
pub mod input;
pub mod pattern;
pub mod row;
pub mod view;

//! A clipboard-history launcher plugin: plugin metadata, parsing of the
//! history tool's listing into entries, and the selection handler.
mod text;

pub mod entry;
pub mod parse;
pub mod laws;
pub mod selection;

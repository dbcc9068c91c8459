//! Safe, verified core of a binding layer over the FLTK GUI toolkit: the
//! scheme tokens, the decoding of native status and event codes, font-table
//! lookups, and the key-handling state of a small terminal widget.

pub mod error;
pub mod scheme;
pub mod event;
pub mod fonts;
pub mod terminal;

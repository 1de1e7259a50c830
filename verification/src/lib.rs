//! Core of a document-templating plugin: a structure log of headings,
//! figures, tables and named labels, and the resolution engine that turns
//! a label into a display number such as `"2.3"`, together with the
//! emitters that feed the log and the page templates around them.

pub mod counters;
pub mod dispatch;
pub mod document;
pub mod emit;
pub mod events;
pub mod hostio;
pub mod laws;
pub mod notes;
pub mod ops;
pub mod pages;
pub mod resolve;
pub mod settings;
pub mod strutil;

//! Utility-class resolution: raw class tokens such as `mt-4` or `space-x-2`
//! are matched against category grammars (padding, margin, space-between) and
//! static value tables, yielding either a CSS declaration or a positioned,
//! typed warning.

pub mod strutil;
pub mod table;
pub mod warning;
pub mod spacing;
pub mod laws;
pub mod config;

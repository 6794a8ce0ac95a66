//! Landscape settings: the typed model of a landscape's customization, and
//! the rules a settings value has to meet before the rest of a system may
//! rely on it.

pub mod data;
pub mod error;
pub mod first;
pub mod laws;
pub mod pattern;
pub mod rules;
pub mod settings;
pub mod source;
pub mod text;
pub mod validate;

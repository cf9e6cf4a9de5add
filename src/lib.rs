//! Extraction engine for a WPComics-style manga catalog site: value mappers,
//! URL builders, chapter numbering and record assembly, each with a contract.

pub mod text;
pub mod urlencode;
pub mod mapping;
pub mod search;
pub mod chapter;
pub mod image;
pub mod source;
pub mod catalog;

//! Conversion of ERB-style template directives into their EPP equivalents,
//! together with the inference of the parameter header that an EPP template
//! declares.

pub mod text;
pub mod search;
pub mod guard;
pub mod rules;
pub mod rewrite;
pub mod order;
pub mod params;
pub mod header;
pub mod negotiate;

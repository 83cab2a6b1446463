//! Tagged-union offset layer of a bottom-up, zero-copy binary buffer builder.
//!
//! A union field of a schema is physically two buffer slots: a scalar
//! discriminant ("tag") and a relative offset to the chosen variant's
//! payload. This crate binds those two slots together so that they are
//! always written for the same logical value: a single tagged value pairs
//! one tag with one payload offset, a tagged vector pair holds the offsets
//! of two parallel vectors (tags beside payload offsets), and a
//! construction-site helper derives each tag from the variant that produced
//! the offset, so call sites never pick a tag by hand.

pub mod offsets;
pub mod union_value;
pub mod union_vector;

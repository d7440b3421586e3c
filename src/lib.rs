//! A self-describing dynamic value type driven by a fixed registry of
//! variant descriptors: scalars, ordered sequences and ordered mappings,
//! with a verified total order over every value.

pub mod datatypes;
pub mod registry;
pub mod value;
pub mod order;
pub mod mapping;
pub mod construct;
pub mod convert;
pub mod laws;

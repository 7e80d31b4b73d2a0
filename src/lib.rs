//! Static exact-size analysis for declared record and sum types of a binary codec.
//!
//! Given the shape of a struct or an enum, the analysis decides whether every value
//! of the type encodes to the same number of bytes and, if so, how many.
pub mod shape;
pub mod exact_size;
pub mod encode_like;
pub mod laws;

pub use encode_like::EncodeLike;
pub use exact_size::{compose_enum, exact_size_field, exact_size_fields, quote, MAX_VARIANTS};

pub use shape::{
    ErrorKind, FieldDescriptor, FieldModifier, Location, Shape, StructuralError, TypeRef,
    Variant,
};


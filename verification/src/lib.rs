//! Packing and unpacking of typed field values into fixed-size byte
//! buffers at arbitrary bit offsets.
//!
//! A structure is described by its fields: their types, their widths in
//! bits, their positions and their byte order. `pack_parse::parse_struct`
//! lays the fields out and checks that no two of them claim the same
//! bit; the layout then packs the values of the fields into bytes and
//! unpacks them again (`pack_fields`). Underneath stand the bit accessors
//! (`bits`), the integers of a given width (`types_num`) and the blit of
//! a field into a buffer (`blit`).

pub mod bit_ranges;
pub mod bits;
pub mod blit;
pub mod common;
pub mod debug_fmt;
pub mod enum_variants;
pub mod pack;
pub mod pack_fields;
pub mod pack_parse;
pub mod pack_parse_attributes;
pub mod packing;
pub mod prelude;
pub mod primitive_enum;
pub mod types;
pub mod types_array;
pub mod types_basic;
pub mod types_bits;
pub mod types_compact;
pub mod types_generic;
pub mod types_ints;
pub mod types_num;
pub mod types_reserved;
pub mod types_tuples;
pub mod types_vec;
pub mod utils;

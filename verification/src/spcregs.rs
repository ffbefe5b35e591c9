//! Register descriptors, bit ranges and register maps.

pub mod bit_range;
pub mod register;
pub mod register_descriptor;
pub mod utils;
pub mod named_table;
pub mod x86;
pub mod register_map;
pub mod registers;

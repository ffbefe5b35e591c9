//! System programmer's calculator: bit-group and register descriptions, binary
//! formatting helpers, and the integer semantics of the expression operators
//! and functions.

pub mod spcregs;
pub mod text;
pub mod spceval;
pub mod range_specs;
pub mod word;
pub mod bitgroup;
pub mod bitset;
pub mod bit_group;
pub mod sys_bit_set;
pub mod registers;
pub mod console;

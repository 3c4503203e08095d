//! Bounds-checked wrappers whose range or length is fixed by a const generic
//! cap: capped unsigned numbers (`0..N`, exclusive), capped strings (at most
//! `N` bytes) and capped vectors (at most `N` elements).
mod cap_u16;
mod cap_u32;
mod cap_u64;
mod cap_u8;
mod cap_usize;
mod error;
mod num;
mod string;
mod text;
mod vec;

pub use cap_u16::CapU16;
pub use cap_u32::CapU32;
pub use cap_u64::CapU64;
pub use cap_u8::CapU8;
pub use cap_usize::CapUsize;
pub use error::{range_message, wire_message, CapError, OutOfRange};
pub use num::{
    add_mod, lemma_add_reduced, lemma_increment_cycles, lemma_after_steps, after_steps, wrap, CapNum,
};
pub use string::{is_boundary, saturated, string_length_message, CapString, CapStringLengthError};
pub use text::{
    byte_len, char_len, decimal, digit_char, lemma_byte_len_concat, lemma_byte_len_empty,
    lemma_byte_len_prefix, lemma_byte_len_push, lemma_encode_concat, utf8_width, write_decimal,
};
pub use vec::{vec_length_message, CapVec, CapVecLengthError, PREALLOC_CEILING};

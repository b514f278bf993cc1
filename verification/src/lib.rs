//! Uniform sampling of integers from bounded ranges, with up to four values
//! drawn from a single 64-bit random word.
//!
//! A range is brought into canonical form, a start and a width
//! ([`BoundedRange`]). A word of 16, 32 or 64 bits selects one element of it by
//! a multiplication and a shift ([`gen_range_u16`], [`gen_range_u32`],
//! [`gen_range_u64`]). One word of a [`WordSource`] is cut into fields that
//! each select from a range of their own ([`RandExtension`]).

pub mod element;
pub mod extension;
pub mod packing;
pub mod range;
pub mod sampler;
pub mod source;

pub use element::Element;
pub use extension::RandExtension;
pub use packing::{
    field_u16, field_u32, gen_range_u16x2, gen_range_u16x3, gen_range_u16x4, gen_range_u32x2,
};
pub use range::BoundedRange;
pub use sampler::{
    gen_range_u16, gen_range_u32, gen_range_u64, sampling_width, scale_u16, scale_u32, scale_u64,
    SampleError, WidthClass,
};
pub use source::WordSource;

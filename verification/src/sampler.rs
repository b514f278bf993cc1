//! One value from one random word: the multiply-shift reduction, by width class.
//!
//! A word `r` of `W` bits, uniform over `[0, 2^W)`, is mapped onto a range of
//! `width` elements as `start + floor(width * r / 2^W)`. The product is formed
//! in twice the bits and shifted down, so there is no division and no branch.
//! The price is a small bias when `width` does not divide `2^W`: some values
//! are selected by one word more than others, never by more.

use crate::element::Element;
use crate::range::{holds, BoundedRange};
use vstd::prelude::*;

verus! {

/// How many random bits one sampled value consumes.
#[derive(Clone, Copy, Debug, PartialEq, Eq, Structural)]
pub enum WidthClass {
    /// Words of 16 bits.
    W16,
    /// Words of 32 bits.
    W32,
    /// Words of 64 bits.
    W64,
}

impl WidthClass {
    /// The number of distinct words of the class: two to the power of its bits.
    pub open spec fn span(self) -> int {
        match self {
            WidthClass::W16 => 0x1_0000,
            WidthClass::W32 => 0x1_0000_0000,
            WidthClass::W64 => 0x1_0000_0000_0000_0000,
        }
    }

    /// The greatest width that a range sampled in this class can have.
    pub fn capacity(self) -> (greatest: u64)
        ensures
            greatest == self.span() - 1,
    {
        match self {
            WidthClass::W16 => 0xffff,
            WidthClass::W32 => 0xffff_ffff,
            WidthClass::W64 => 0xffff_ffff_ffff_ffff,
        }
    }
}

/// Why a range cannot be sampled.
#[derive(Clone, Copy, Debug, PartialEq, Eq, Structural)]
pub enum SampleError {
    /// The range holds no element.
    EmptyRange,
    /// The width of the range, or an element of it, is more than the element
    /// type or the width class can hold.
    Overflow,
}

/// `floor(width * r / span)`: where the word `r`, one of `span` equally likely
/// words, falls among `width` values.
pub open spec fn multiply_shift(width: int, r: int, span: int) -> int {
    (width * r) / span
}

/// The multiply-shift reduction maps every word onto `[0, width)`.
pub proof fn lemma_multiply_shift_below_width(width: int, r: int, span: int)
    requires
        0 < width,
        0 <= r < span,
    ensures
        0 <= multiply_shift(width, r, span) < width,
{
    assert(0 <= (width * r) / span < width) by (nonlinear_arith)
        requires
            0 < width,
            0 <= r < span,
    ;
}

/// A larger word never gives a smaller value.
pub proof fn lemma_multiply_shift_monotonic(width: int, r1: int, r2: int, span: int)
    requires
        0 < width,
        0 < span,
        0 <= r1 <= r2,
    ensures
        multiply_shift(width, r1, span) <= multiply_shift(width, r2, span),
{
    assert((width * r1) / span <= (width * r2) / span) by (nonlinear_arith)
        requires
            0 < width,
            0 < span,
            0 <= r1 <= r2,
    ;
}

/// Every value of `[0, width)` is reached: as long as the range is no wider
/// than the class has words, some word is mapped onto each of its values.
pub proof fn lemma_multiply_shift_onto(width: int, value: int, span: int)
    requires
        0 <= value < width <= span,
    ensures
        exists|r: int| 0 <= r < span && #[trigger] multiply_shift(width, r, span) == value,
{
    let r = (value * span + width - 1) / width;
    assert(width * r <= value * span + width - 1 < width * r + width) by (nonlinear_arith)
        requires
            0 < width,
            r == (value * span + width - 1) / width,
    ;
    assert(value * span + width - 1 <= (width - 1) * span + width - 1 < width * span)
        by (nonlinear_arith)
        requires
            0 <= value < width <= span,
    ;
    assert(0 <= r < span) by (nonlinear_arith)
        requires
            0 < width,
            0 <= value,
            0 < span,
            r == (value * span + width - 1) / width,
            width * r < width * span,
    ;
    assert((width * r) / span == value) by (nonlinear_arith)
        requires
            0 < span,
            value * span <= width * r < value * span + span,
    ;
    assert(multiply_shift(width, r, span) == value);
}

/// The least word that is mapped onto `value` or above:
/// `ceil(value * span / width)`.
pub open spec fn first_word(width: int, value: int, span: int) -> int {
    (value * span + width - 1) / width
}

/// The words that are mapped onto `value` are those from `first_word` of
/// `value` up to, and not including, `first_word` of `value + 1`.
pub proof fn lemma_multiply_shift_preimage(width: int, value: int, r: int, span: int)
    requires
        0 < width,
        0 < span,
    ensures
        multiply_shift(width, r, span) == value <==> (first_word(width, value, span) <= r
            < first_word(width, value + 1, span)),
{
    let low = first_word(width, value, span);
    let high = first_word(width, value + 1, span);
    assert(((width * r) / span == value) <==> (value * span <= width * r < value * span + span))
        by (nonlinear_arith)
        requires
            0 < span,
    ;
    assert((low <= r) <==> (value * span <= width * r)) by (nonlinear_arith)
        requires
            0 < width,
            low == (value * span + width - 1) / width,
    ;
    assert((r < high) <==> (width * r < value * span + span)) by (nonlinear_arith)
        requires
            0 < width,
            high == ((value + 1) * span + width - 1) / width,
    ;
}

/// The bias is bounded: each value is selected by `floor(span / width)` words
/// or by one word more, so no value is likelier than another by more than one
/// word in `span`.
pub proof fn lemma_multiply_shift_bias(width: int, value: int, span: int)
    requires
        0 < width,
        0 < span,
    ensures
        span / width <= first_word(width, value + 1, span) - first_word(width, value, span)
            <= span / width + 1,
{
    let low = first_word(width, value, span);
    let high = first_word(width, value + 1, span);
    let quotient = span / width;
    let rest = span % width;
    let base = value * span + width - 1;
    assert(span == quotient * width + rest && 0 <= rest < width) by (nonlinear_arith)
        requires
            0 < width,
            quotient == span / width,
            rest == span % width,
    ;
    assert((value + 1) * span + width - 1 == base + rest + quotient * width) by (nonlinear_arith)
        requires
            span == quotient * width + rest,
            base == value * span + width - 1,
    ;
    assert((base + rest + quotient * width) / width == (base + rest) / width + quotient)
        by (nonlinear_arith)
        requires
            0 < width,
    ;
    assert(base / width <= (base + rest) / width <= base / width + 1) by (nonlinear_arith)
        requires
            0 < width,
            0 <= rest < width,
    ;
}

/// Whether `range` can be sampled in `class`: its bounds can be read, it holds
/// at least one element, its width fits both the element type and the class,
/// and its last element fits the element type.
pub open spec fn samplable<T: Element, R: BoundedRange<T>>(range: &R, class: WidthClass) -> bool {
    &&& range.well_formed()
    &&& 0 < range.spec_width() <= T::highest()
    &&& range.spec_width() < class.span()
    &&& range.spec_start() + range.spec_width() - 1 <= T::highest()
}

/// The value of the element that the word `r` selects from `range` in `class`.
pub open spec fn sampled<T: Element, R: BoundedRange<T>>(
    range: &R,
    r: int,
    class: WidthClass,
) -> int {
    range.spec_start() + multiply_shift(range.spec_width(), r, class.span())
}

/// The value selected is a function of the range and the word alone: two
/// elements that one word selects from one range are the same element.
pub proof fn lemma_sample_is_determined<T: Element, R: BoundedRange<T>>(
    range: &R,
    r: int,
    class: WidthClass,
    first: T,
    second: T,
)
    requires
        first.value() == sampled(range, r, class),
        second.value() == sampled(range, r, class),
    ensures
        first == second,
{
    first.value_is_injective(second);
}

/// Every word of the class selects a value inside the range.
pub proof fn lemma_sampled_in_range<T: Element, R: BoundedRange<T>>(
    range: &R,
    r: int,
    class: WidthClass,
)
    requires
        0 < range.spec_width(),
        0 <= r < class.span(),
    ensures
        range.spec_start() <= sampled(range, r, class) < range.spec_start() + range.spec_width(),
{
    lemma_multiply_shift_below_width(range.spec_width(), r, class.span());
}

/// Every value of a range that can be sampled is selected by some word of the
/// class.
pub proof fn lemma_sampled_covers_range<T: Element, R: BoundedRange<T>>(
    range: &R,
    value: int,
    class: WidthClass,
)
    requires
        samplable(range, class),
        range.spec_start() <= value < range.spec_start() + range.spec_width(),
    ensures
        exists|r: int| 0 <= r < class.span() && #[trigger] sampled(range, r, class) == value,
{
    lemma_multiply_shift_onto(range.spec_width(), value - range.spec_start(), class.span());
    let r = choose|r: int|
        0 <= r < class.span() && #[trigger] multiply_shift(range.spec_width(), r, class.span())
            == value - range.spec_start();
    assert(sampled(range, r, class) == value);
}

/// The width of `range` as the sampler of `class` uses it, or the reason why
/// the range cannot be sampled there.
pub open spec fn spec_sampling_width<T: Element, R: BoundedRange<T>>(
    range: &R,
    class: WidthClass,
) -> Result<u64, SampleError> {
    if range.spec_width() <= 0 {
        Err(SampleError::EmptyRange)
    } else if range.spec_width() > T::highest() || range.spec_width() >= class.span()
        || range.spec_start() + range.spec_width() - 1 > T::highest() {
        Err(SampleError::Overflow)
    } else {
        Ok(range.spec_width() as u64)
    }
}

/// Tests whether `range` can be sampled in `class`, emptiness first.
///
/// Returns the width of the range, or `EmptyRange` for a range without
/// elements, or `Overflow` for one whose width or last element is too large.
pub fn sampling_width<T: Element, R: BoundedRange<T>>(range: &R, class: WidthClass) -> (res:
    Result<u64, SampleError>)
    requires
        range.well_formed(),
    ensures
        res == spec_sampling_width(range, class),
        res.is_ok() <==> samplable(range, class),
        res == Err::<u64, SampleError>(SampleError::EmptyRange) <==> (range.spec_width() <= 0),
{
    if range.is_empty() {
        return Err(SampleError::EmptyRange);
    }
    let count: T = match range.checked_width() {
        Some(count) => count,
        None => { return Err(SampleError::Overflow); },
    };
    let first: T = range.start();
    proof {
        T::type_bounds();
        first.value_in_bounds();
        count.value_in_bounds();
    }
    let width: i128 = count.widen();
    if width > class.capacity() as i128 || T::narrow(first.widen() + (width - 1)).is_none() {
        return Err(SampleError::Overflow);
    }
    Ok(width as u64)
}

/// `floor(width * r / 2^16)`, by a 32-bit product and a shift.
pub fn scale_u16(width: u16, r: u16) -> (value: u16)
    ensures
        value == multiply_shift(width as int, r as int, WidthClass::W16.span()),
{
    assert(width * r <= 0xffff * 0xffff) by (nonlinear_arith)
        requires
            0 <= width <= 0xffff,
            0 <= r <= 0xffff,
    ;
    let product: u32 = (width as u32) * (r as u32);
    assert(product >> 16 == product / 0x1_0000) by (bit_vector);
    (product >> 16) as u16
}

/// `floor(width * r / 2^32)`, by a 64-bit product and a shift.
pub fn scale_u32(width: u32, r: u32) -> (value: u32)
    ensures
        value == multiply_shift(width as int, r as int, WidthClass::W32.span()),
{
    assert(width * r <= 0xffff_ffff * 0xffff_ffff) by (nonlinear_arith)
        requires
            0 <= width <= 0xffff_ffff,
            0 <= r <= 0xffff_ffff,
    ;
    let product: u64 = (width as u64) * (r as u64);
    assert(product >> 32 == product / 0x1_0000_0000) by (bit_vector);
    (product >> 32) as u32
}

/// `floor(width * r / 2^64)`, by a 128-bit product and a shift.
pub fn scale_u64(width: u64, r: u64) -> (value: u64)
    ensures
        value == multiply_shift(width as int, r as int, WidthClass::W64.span()),
{
    assert(width * r <= 0xffff_ffff_ffff_ffff * 0xffff_ffff_ffff_ffff) by (nonlinear_arith)
        requires
            0 <= width <= 0xffff_ffff_ffff_ffff,
            0 <= r <= 0xffff_ffff_ffff_ffff,
    ;
    let product: u128 = (width as u128) * (r as u128);
    assert(product >> 64 == product / 0x1_0000_0000_0000_0000) by (bit_vector);
    (product >> 64) as u64
}

/// The element of `range` that the 16-bit word `rand_value` selects.
pub fn gen_range_u16<T: Element, R: BoundedRange<T>>(range: R, rand_value: u16) -> (sample: T)
    requires
        samplable(&range, WidthClass::W16),
    ensures
        sample.value() == sampled(&range, rand_value as int, WidthClass::W16),
        holds(&range, sample),
{
    let width: u16 = range.width().widen() as u16;
    let start: T = range.start();
    let value: u16 = scale_u16(width, rand_value);
    proof {
        lemma_multiply_shift_below_width(width as int, rand_value as int, WidthClass::W16.span());
        T::type_bounds();
        start.value_in_bounds();
    }
    T::narrow(start.widen() + value as i128).unwrap()
}

/// The element of `range` that the 32-bit word `rand_value` selects.
pub fn gen_range_u32<T: Element, R: BoundedRange<T>>(range: R, rand_value: u32) -> (sample: T)
    requires
        samplable(&range, WidthClass::W32),
    ensures
        sample.value() == sampled(&range, rand_value as int, WidthClass::W32),
        holds(&range, sample),
{
    let width: u32 = range.width().widen() as u32;
    let start: T = range.start();
    let value: u32 = scale_u32(width, rand_value);
    proof {
        lemma_multiply_shift_below_width(width as int, rand_value as int, WidthClass::W32.span());
        T::type_bounds();
        start.value_in_bounds();
    }
    T::narrow(start.widen() + value as i128).unwrap()
}

/// The element of `range` that the 64-bit word `rand_value` selects.
pub fn gen_range_u64<T: Element, R: BoundedRange<T>>(range: R, rand_value: u64) -> (sample: T)
    requires
        samplable(&range, WidthClass::W64),
    ensures
        sample.value() == sampled(&range, rand_value as int, WidthClass::W64),
        holds(&range, sample),
{
    let width: u64 = range.width().widen() as u64;
    let start: T = range.start();
    let value: u64 = scale_u64(width, rand_value);
    proof {
        lemma_multiply_shift_below_width(width as int, rand_value as int, WidthClass::W64.span());
        T::type_bounds();
        start.value_in_bounds();
    }
    T::narrow(start.widen() + value as i128).unwrap()
}

} // verus!

//! Several values from one random word.
//!
//! One 64-bit word is cut into fields of 16 or 32 bits, counted from the low
//! end, and each field selects a value from a range of its own. The fields do
//! not overlap, so the values are as independent as the bits of the word are.
//! Four 16-bit fields or two 32-bit fields use the whole word; with fewer
//! fields the bits above the last one are not used.

use crate::element::Element;
use crate::range::{holds, BoundedRange};
use crate::sampler::{gen_range_u16, gen_range_u32, samplable, sampled, WidthClass};
use vstd::prelude::*;

verus! {

/// The `index`-th 16-bit field of `word`, counted from the low end:
/// `floor(word / 2^(16 * index)) mod 2^16`.
pub open spec fn spec_field_u16(word: u64, index: u64) -> u16 {
    let above: u64 = if index == 0 {
        word
    } else if index == 1 {
        word / 0x1_0000
    } else if index == 2 {
        word / 0x1_0000_0000
    } else {
        word / 0x1_0000_0000_0000
    };
    (above % 0x1_0000) as u16
}

/// The `index`-th 32-bit field of `word`, counted from the low end:
/// `floor(word / 2^(32 * index)) mod 2^32`.
pub open spec fn spec_field_u32(word: u64, index: u64) -> u32 {
    let above: u64 = if index == 0 {
        word
    } else {
        word / 0x1_0000_0000
    };
    (above % 0x1_0000_0000) as u32
}

/// Cuts the `index`-th 16-bit field out of `word`, by a shift and a mask.
pub fn field_u16(word: u64, index: u64) -> (field: u16)
    requires
        index < 4,
    ensures
        field == spec_field_u16(word, index),
{
    let shift: u64 = 16 * index;
    assert((word >> shift) & 0xffff <= 0xffff) by (bit_vector);
    assert((word >> 0) & 0xffff == word % 0x1_0000) by (bit_vector);
    assert((word >> 16) & 0xffff == (word / 0x1_0000) % 0x1_0000) by (bit_vector);
    assert((word >> 32) & 0xffff == (word / 0x1_0000_0000) % 0x1_0000) by (bit_vector);
    assert((word >> 48) & 0xffff == (word / 0x1_0000_0000_0000) % 0x1_0000) by (bit_vector);
    ((word >> shift) & 0xffff) as u16
}

/// Cuts the `index`-th 32-bit field out of `word`, by a shift and a mask.
pub fn field_u32(word: u64, index: u64) -> (field: u32)
    requires
        index < 2,
    ensures
        field == spec_field_u32(word, index),
{
    let shift: u64 = 32 * index;
    assert((word >> shift) & 0xffff_ffff <= 0xffff_ffff) by (bit_vector);
    assert((word >> 0) & 0xffff_ffff == word % 0x1_0000_0000) by (bit_vector);
    assert((word >> 32) & 0xffff_ffff == (word / 0x1_0000_0000) % 0x1_0000_0000) by (bit_vector);
    ((word >> shift) & 0xffff_ffff) as u32
}

/// The word whose 16-bit fields are `f0` to `f3`, from the low end.
pub open spec fn join_u16(f0: u16, f1: u16, f2: u16, f3: u16) -> int {
    f0 + f1 * 0x1_0000 + f2 * 0x1_0000_0000 + f3 * 0x1_0000_0000_0000
}

/// The word whose 32-bit fields are `f0` and `f1`, from the low end.
pub open spec fn join_u32(f0: u32, f1: u32) -> int {
    f0 + f1 * 0x1_0000_0000
}

/// The 16-bit fields partition the word: side by side, the first `n` of them
/// are the low `16 * n` bits of the word, and all four are the word itself.
pub proof fn lemma_fields_u16_partition(word: u64)
    ensures
        join_u16(
            spec_field_u16(word, 0),
            spec_field_u16(word, 1),
            spec_field_u16(word, 2),
            spec_field_u16(word, 3),
        ) == word,
        join_u16(spec_field_u16(word, 0), spec_field_u16(word, 1), spec_field_u16(word, 2), 0)
            == word % 0x1_0000_0000_0000,
        join_u16(spec_field_u16(word, 0), spec_field_u16(word, 1), 0, 0) == word % 0x1_0000_0000,
        join_u16(spec_field_u16(word, 0), 0, 0, 0) == word % 0x1_0000,
{
}

/// The 32-bit fields partition the word: the first is its low half, and the
/// two side by side are the word itself.
pub proof fn lemma_fields_u32_partition(word: u64)
    ensures
        join_u32(spec_field_u32(word, 0), spec_field_u32(word, 1)) == word,
        join_u32(spec_field_u32(word, 0), 0) == word % 0x1_0000_0000,
{
}

/// Any four 16-bit values are the fields of one word: each field can take
/// every value whatever the others are.
pub proof fn lemma_fields_u16_independent(f0: u16, f1: u16, f2: u16, f3: u16)
    ensures
        0 <= join_u16(f0, f1, f2, f3) <= u64::MAX,
        spec_field_u16(join_u16(f0, f1, f2, f3) as u64, 0) == f0,
        spec_field_u16(join_u16(f0, f1, f2, f3) as u64, 1) == f1,
        spec_field_u16(join_u16(f0, f1, f2, f3) as u64, 2) == f2,
        spec_field_u16(join_u16(f0, f1, f2, f3) as u64, 3) == f3,
{
}

/// Any two 32-bit values are the fields of one word.
pub proof fn lemma_fields_u32_independent(f0: u32, f1: u32)
    ensures
        0 <= join_u32(f0, f1) <= u64::MAX,
        spec_field_u32(join_u32(f0, f1) as u64, 0) == f0,
        spec_field_u32(join_u32(f0, f1) as u64, 1) == f1,
{
}

/// Whether `samples` are the two values that `word` selects in 32-bit fields:
/// the low half for `range0`, the high half for `range1`.
pub open spec fn drawn_u32x2<T0: Element, T1: Element, R0: BoundedRange<T0>, R1: BoundedRange<T1>>(
    range0: &R0,
    range1: &R1,
    word: u64,
    samples: (T0, T1),
) -> bool {
    &&& samples.0.value() == sampled(range0, spec_field_u32(word, 0) as int, WidthClass::W32)
    &&& samples.1.value() == sampled(range1, spec_field_u32(word, 1) as int, WidthClass::W32)
}

/// Whether `samples` are the two values that `word` selects in its two lowest
/// 16-bit fields.
pub open spec fn drawn_u16x2<T0: Element, T1: Element, R0: BoundedRange<T0>, R1: BoundedRange<T1>>(
    range0: &R0,
    range1: &R1,
    word: u64,
    samples: (T0, T1),
) -> bool {
    &&& samples.0.value() == sampled(range0, spec_field_u16(word, 0) as int, WidthClass::W16)
    &&& samples.1.value() == sampled(range1, spec_field_u16(word, 1) as int, WidthClass::W16)
}

/// Whether `samples` are the three values that `word` selects in its three
/// lowest 16-bit fields.
pub open spec fn drawn_u16x3<
    T0: Element,
    T1: Element,
    T2: Element,
    R0: BoundedRange<T0>,
    R1: BoundedRange<T1>,
    R2: BoundedRange<T2>,
>(range0: &R0, range1: &R1, range2: &R2, word: u64, samples: (T0, T1, T2)) -> bool {
    &&& samples.0.value() == sampled(range0, spec_field_u16(word, 0) as int, WidthClass::W16)
    &&& samples.1.value() == sampled(range1, spec_field_u16(word, 1) as int, WidthClass::W16)
    &&& samples.2.value() == sampled(range2, spec_field_u16(word, 2) as int, WidthClass::W16)
}

/// Whether `samples` are the four values that `word` selects in its four
/// 16-bit fields.
pub open spec fn drawn_u16x4<
    T0: Element,
    T1: Element,
    T2: Element,
    T3: Element,
    R0: BoundedRange<T0>,
    R1: BoundedRange<T1>,
    R2: BoundedRange<T2>,
    R3: BoundedRange<T3>,
>(
    range0: &R0,
    range1: &R1,
    range2: &R2,
    range3: &R3,
    word: u64,
    samples: (T0, T1, T2, T3),
) -> bool {
    &&& samples.0.value() == sampled(range0, spec_field_u16(word, 0) as int, WidthClass::W16)
    &&& samples.1.value() == sampled(range1, spec_field_u16(word, 1) as int, WidthClass::W16)
    &&& samples.2.value() == sampled(range2, spec_field_u16(word, 2) as int, WidthClass::W16)
    &&& samples.3.value() == sampled(range3, spec_field_u16(word, 3) as int, WidthClass::W16)
}

/// One word gives one pair: two pairs that the same word selects from the
/// same ranges, in 32-bit fields, are the same pair.
pub proof fn lemma_drawn_u32x2_is_determined<
    T0: Element,
    T1: Element,
    R0: BoundedRange<T0>,
    R1: BoundedRange<T1>,
>(range0: &R0, range1: &R1, word: u64, first: (T0, T1), second: (T0, T1))
    requires
        drawn_u32x2(range0, range1, word, first),
        drawn_u32x2(range0, range1, word, second),
    ensures
        first == second,
{
    first.0.value_is_injective(second.0);
    first.1.value_is_injective(second.1);
}

/// One word gives one pair: two pairs that the same word selects from the
/// same ranges, in 16-bit fields, are the same pair.
pub proof fn lemma_drawn_u16x2_is_determined<
    T0: Element,
    T1: Element,
    R0: BoundedRange<T0>,
    R1: BoundedRange<T1>,
>(range0: &R0, range1: &R1, word: u64, first: (T0, T1), second: (T0, T1))
    requires
        drawn_u16x2(range0, range1, word, first),
        drawn_u16x2(range0, range1, word, second),
    ensures
        first == second,
{
    first.0.value_is_injective(second.0);
    first.1.value_is_injective(second.1);
}

/// One word gives one triple: two triples that the same word selects from the
/// same ranges are the same triple.
pub proof fn lemma_drawn_u16x3_is_determined<
    T0: Element,
    T1: Element,
    T2: Element,
    R0: BoundedRange<T0>,
    R1: BoundedRange<T1>,
    R2: BoundedRange<T2>,
>(
    range0: &R0,
    range1: &R1,
    range2: &R2,
    word: u64,
    first: (T0, T1, T2),
    second: (T0, T1, T2),
)
    requires
        drawn_u16x3(range0, range1, range2, word, first),
        drawn_u16x3(range0, range1, range2, word, second),
    ensures
        first == second,
{
    first.0.value_is_injective(second.0);
    first.1.value_is_injective(second.1);
    first.2.value_is_injective(second.2);
}

/// One word gives one quadruple: two quadruples that the same word selects
/// from the same ranges are the same quadruple.
pub proof fn lemma_drawn_u16x4_is_determined<
    T0: Element,
    T1: Element,
    T2: Element,
    T3: Element,
    R0: BoundedRange<T0>,
    R1: BoundedRange<T1>,
    R2: BoundedRange<T2>,
    R3: BoundedRange<T3>,
>(
    range0: &R0,
    range1: &R1,
    range2: &R2,
    range3: &R3,
    word: u64,
    first: (T0, T1, T2, T3),
    second: (T0, T1, T2, T3),
)
    requires
        drawn_u16x4(range0, range1, range2, range3, word, first),
        drawn_u16x4(range0, range1, range2, range3, word, second),
    ensures
        first == second,
{
    first.0.value_is_injective(second.0);
    first.1.value_is_injective(second.1);
    first.2.value_is_injective(second.2);
    first.3.value_is_injective(second.3);
}

/// Two values from the two 32-bit fields of `word`, in argument order.
pub fn gen_range_u32x2<T0: Element, T1: Element, R0: BoundedRange<T0>, R1: BoundedRange<T1>>(
    range0: R0,
    range1: R1,
    word: u64,
) -> (samples: (T0, T1))
    requires
        samplable(&range0, WidthClass::W32),
        samplable(&range1, WidthClass::W32),
    ensures
        drawn_u32x2(&range0, &range1, word, samples),
        holds(&range0, samples.0),
        holds(&range1, samples.1),
{
    let v0: T0 = gen_range_u32(range0, field_u32(word, 0));
    let v1: T1 = gen_range_u32(range1, field_u32(word, 1));
    (v0, v1)
}

/// Two values from the two lowest 16-bit fields of `word`, in argument order.
pub fn gen_range_u16x2<T0: Element, T1: Element, R0: BoundedRange<T0>, R1: BoundedRange<T1>>(
    range0: R0,
    range1: R1,
    word: u64,
) -> (samples: (T0, T1))
    requires
        samplable(&range0, WidthClass::W16),
        samplable(&range1, WidthClass::W16),
    ensures
        drawn_u16x2(&range0, &range1, word, samples),
        holds(&range0, samples.0),
        holds(&range1, samples.1),
{
    let v0: T0 = gen_range_u16(range0, field_u16(word, 0));
    let v1: T1 = gen_range_u16(range1, field_u16(word, 1));
    (v0, v1)
}

/// Three values from the three lowest 16-bit fields of `word`, in argument
/// order. The highest 16 bits of the word are not used.
pub fn gen_range_u16x3<
    T0: Element,
    T1: Element,
    T2: Element,
    R0: BoundedRange<T0>,
    R1: BoundedRange<T1>,
    R2: BoundedRange<T2>,
>(range0: R0, range1: R1, range2: R2, word: u64) -> (samples: (T0, T1, T2))
    requires
        samplable(&range0, WidthClass::W16),
        samplable(&range1, WidthClass::W16),
        samplable(&range2, WidthClass::W16),
    ensures
        drawn_u16x3(&range0, &range1, &range2, word, samples),
        holds(&range0, samples.0),
        holds(&range1, samples.1),
        holds(&range2, samples.2),
{
    let v0: T0 = gen_range_u16(range0, field_u16(word, 0));
    let v1: T1 = gen_range_u16(range1, field_u16(word, 1));
    let v2: T2 = gen_range_u16(range2, field_u16(word, 2));
    (v0, v1, v2)
}

/// Four values from the four 16-bit fields of `word`, in argument order.
pub fn gen_range_u16x4<
    T0: Element,
    T1: Element,
    T2: Element,
    T3: Element,
    R0: BoundedRange<T0>,
    R1: BoundedRange<T1>,
    R2: BoundedRange<T2>,
    R3: BoundedRange<T3>,
>(range0: R0, range1: R1, range2: R2, range3: R3, word: u64) -> (samples: (T0, T1, T2, T3))
    requires
        samplable(&range0, WidthClass::W16),
        samplable(&range1, WidthClass::W16),
        samplable(&range2, WidthClass::W16),
        samplable(&range3, WidthClass::W16),
    ensures
        drawn_u16x4(&range0, &range1, &range2, &range3, word, samples),
        holds(&range0, samples.0),
        holds(&range1, samples.1),
        holds(&range2, samples.2),
        holds(&range3, samples.3),
{
    let v0: T0 = gen_range_u16(range0, field_u16(word, 0));
    let v1: T1 = gen_range_u16(range1, field_u16(word, 1));
    let v2: T2 = gen_range_u16(range2, field_u16(word, 2));
    let v3: T3 = gen_range_u16(range3, field_u16(word, 3));
    (v0, v1, v2, v3)
}

} // verus!

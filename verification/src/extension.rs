//! Sampling straight from a word source: one draw per call, up to four values.

use crate::element::Element;
use crate::packing::{
    drawn_u16x2, drawn_u16x3, drawn_u16x4, drawn_u32x2, field_u16, field_u32, gen_range_u16x2,
    gen_range_u16x3, gen_range_u16x4, gen_range_u32x2, spec_field_u16, spec_field_u32,
};
use crate::range::{holds, BoundedRange};
use crate::sampler::{gen_range_u16, gen_range_u32, gen_range_u64, samplable, sampled, WidthClass};
use crate::source::WordSource;
use vstd::prelude::*;

verus! {

/// Fast sampling from ranges, for every word source.
///
/// Each method draws exactly one 64-bit word and derives all its values from
/// it. The word is not known beforehand, so each contract says that some word
/// gives the values returned, and that every value lies in its range.
pub trait RandExtension {
    /// One value, selected by the whole word.
    fn fast_gen_range_u64x1<T: Element, R: BoundedRange<T>>(&mut self, range: R) -> (sample: T)
        requires
            samplable(&range, WidthClass::W64),
        ensures
            exists|word: u64| sample.value() == #[trigger] sampled(&range, word as int, WidthClass::W64),
            holds(&range, sample),
    ;

    /// One value, selected by the low 32 bits of the word.
    fn fast_gen_range_u32x1<T: Element, R: BoundedRange<T>>(&mut self, range: R) -> (sample: T)
        requires
            samplable(&range, WidthClass::W32),
        ensures
            exists|word: u64|
                sample.value() == sampled(
                    &range,
                    #[trigger] spec_field_u32(word, 0) as int,
                    WidthClass::W32,
                ),
            holds(&range, sample),
    ;

    /// Two values, selected by the two 32-bit halves of the word.
    fn fast_gen_range_u32x2<T0: Element, T1: Element, R0: BoundedRange<T0>, R1: BoundedRange<T1>>(
        &mut self,
        range0: R0,
        range1: R1,
    ) -> (samples: (T0, T1))
        requires
            samplable(&range0, WidthClass::W32),
            samplable(&range1, WidthClass::W32),
        ensures
            exists|word: u64| #[trigger] drawn_u32x2(&range0, &range1, word, samples),
            holds(&range0, samples.0),
            holds(&range1, samples.1),
    ;

    /// One value, selected by the low 16 bits of the word.
    fn fast_gen_range_u16x1<T: Element, R: BoundedRange<T>>(&mut self, range: R) -> (sample: T)
        requires
            samplable(&range, WidthClass::W16),
        ensures
            exists|word: u64|
                sample.value() == sampled(
                    &range,
                    #[trigger] spec_field_u16(word, 0) as int,
                    WidthClass::W16,
                ),
            holds(&range, sample),
    ;

    /// Two values, selected by the two lowest 16-bit fields of the word.
    fn fast_gen_range_u16x2<T0: Element, T1: Element, R0: BoundedRange<T0>, R1: BoundedRange<T1>>(
        &mut self,
        range0: R0,
        range1: R1,
    ) -> (samples: (T0, T1))
        requires
            samplable(&range0, WidthClass::W16),
            samplable(&range1, WidthClass::W16),
        ensures
            exists|word: u64| #[trigger] drawn_u16x2(&range0, &range1, word, samples),
            holds(&range0, samples.0),
            holds(&range1, samples.1),
    ;

    /// Three values, selected by the three lowest 16-bit fields of the word.
    fn fast_gen_range_u16x3<
        T0: Element,
        T1: Element,
        T2: Element,
        R0: BoundedRange<T0>,
        R1: BoundedRange<T1>,
        R2: BoundedRange<T2>,
    >(&mut self, range0: R0, range1: R1, range2: R2) -> (samples: (T0, T1, T2))
        requires
            samplable(&range0, WidthClass::W16),
            samplable(&range1, WidthClass::W16),
            samplable(&range2, WidthClass::W16),
        ensures
            exists|word: u64| #[trigger] drawn_u16x3(&range0, &range1, &range2, word, samples),
            holds(&range0, samples.0),
            holds(&range1, samples.1),
            holds(&range2, samples.2),
    ;

    /// Four values, selected by the four 16-bit fields of the word.
    fn fast_gen_range_u16x4<
        T0: Element,
        T1: Element,
        T2: Element,
        T3: Element,
        R0: BoundedRange<T0>,
        R1: BoundedRange<T1>,
        R2: BoundedRange<T2>,
        R3: BoundedRange<T3>,
    >(&mut self, range0: R0, range1: R1, range2: R2, range3: R3) -> (samples: (T0, T1, T2, T3))
        requires
            samplable(&range0, WidthClass::W16),
            samplable(&range1, WidthClass::W16),
            samplable(&range2, WidthClass::W16),
            samplable(&range3, WidthClass::W16),
        ensures
            exists|word: u64|
                #[trigger] drawn_u16x4(&range0, &range1, &range2, &range3, word, samples),
            holds(&range0, samples.0),
            holds(&range1, samples.1),
            holds(&range2, samples.2),
            holds(&range3, samples.3),
    ;
}

impl<G: WordSource> RandExtension for G {
    fn fast_gen_range_u64x1<T: Element, R: BoundedRange<T>>(&mut self, range: R) -> (sample: T) {
        let rand_value: u64 = self.next_word();
        gen_range_u64(range, rand_value)
    }

    fn fast_gen_range_u32x1<T: Element, R: BoundedRange<T>>(&mut self, range: R) -> (sample: T) {
        let rand_value: u64 = self.next_word();
        gen_range_u32(range, field_u32(rand_value, 0))
    }

    fn fast_gen_range_u32x2<T0: Element, T1: Element, R0: BoundedRange<T0>, R1: BoundedRange<T1>>(
        &mut self,
        range0: R0,
        range1: R1,
    ) -> (samples: (T0, T1)) {
        let rand_value: u64 = self.next_word();
        gen_range_u32x2(range0, range1, rand_value)
    }

    fn fast_gen_range_u16x1<T: Element, R: BoundedRange<T>>(&mut self, range: R) -> (sample: T) {
        let rand_value: u64 = self.next_word();
        gen_range_u16(range, field_u16(rand_value, 0))
    }

    fn fast_gen_range_u16x2<T0: Element, T1: Element, R0: BoundedRange<T0>, R1: BoundedRange<T1>>(
        &mut self,
        range0: R0,
        range1: R1,
    ) -> (samples: (T0, T1)) {
        let rand_value: u64 = self.next_word();
        gen_range_u16x2(range0, range1, rand_value)
    }

    fn fast_gen_range_u16x3<
        T0: Element,
        T1: Element,
        T2: Element,
        R0: BoundedRange<T0>,
        R1: BoundedRange<T1>,
        R2: BoundedRange<T2>,
    >(&mut self, range0: R0, range1: R1, range2: R2) -> (samples: (T0, T1, T2)) {
        let rand_value: u64 = self.next_word();
        gen_range_u16x3(range0, range1, range2, rand_value)
    }

    fn fast_gen_range_u16x4<
        T0: Element,
        T1: Element,
        T2: Element,
        T3: Element,
        R0: BoundedRange<T0>,
        R1: BoundedRange<T1>,
        R2: BoundedRange<T2>,
        R3: BoundedRange<T3>,
    >(&mut self, range0: R0, range1: R1, range2: R2, range3: R3) -> (samples: (T0, T1, T2, T3)) {
        let rand_value: u64 = self.next_word();
        gen_range_u16x4(range0, range1, range2, range3, rand_value)
    }
}

} // verus!

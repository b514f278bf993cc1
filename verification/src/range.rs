//! Ranges in canonical form: a start, a width, and whether there is anything in them.

use crate::element::Element;
use std::ops::{Range, RangeInclusive};
use vstd::prelude::*;

verus! {

/// A range of elements, seen as the `spec_width()` consecutive integers that
/// begin at `spec_start()`.
///
/// A width of zero or less means that the range holds nothing. The width is a
/// mathematical integer: it may be more than the element type can hold, and
/// `width` may only be called where it is not.
pub trait BoundedRange<T: Element> {
    /// Whether the bounds of the range can be read.
    spec fn well_formed(&self) -> bool;

    /// The value of the first element.
    spec fn spec_start(&self) -> int;

    /// The number of elements; zero or less when there are none.
    spec fn spec_width(&self) -> int;

    /// The first element.
    fn start(&self) -> (first: T)
        requires
            self.well_formed(),
        ensures
            first.value() == self.spec_start(),
    ;

    /// The number of elements, for a range that holds at least one and no more
    /// than the element type can count.
    fn width(&self) -> (count: T)
        requires
            self.well_formed(),
            0 < self.spec_width() <= T::highest(),
        ensures
            count.value() == self.spec_width(),
    ;

    /// Whether the range holds nothing.
    fn is_empty(&self) -> (empty: bool)
        requires
            self.well_formed(),
        ensures
            empty == (self.spec_width() <= 0),
    ;

    /// The number of elements, or `None` where the range is empty or holds more
    /// elements than the element type can count.
    fn checked_width(&self) -> (count: Option<T>)
        requires
            self.well_formed(),
        ensures
            count.is_some() <==> (0 < self.spec_width() <= T::highest()),
            count matches Some(c) ==> c.value() == self.spec_width(),
    ;
}

/// Whether `element` is one of the elements of `range`.
pub open spec fn holds<T: Element, R: BoundedRange<T>>(range: &R, element: T) -> bool {
    range.spec_start() <= element.value() < range.spec_start() + range.spec_width()
}

/// The half-open range `start..end`: empty when `start >= end`, else of width
/// `end - start`.
impl<T: Element> BoundedRange<T> for Range<T> {
    open spec fn well_formed(&self) -> bool {
        true
    }

    open spec fn spec_start(&self) -> int {
        self.start.value()
    }

    open spec fn spec_width(&self) -> int {
        self.end.value() - self.start.value()
    }

    fn start(&self) -> (first: T) {
        self.start
    }

    fn width(&self) -> (count: T) {
        proof {
            T::type_bounds();
            self.start.value_in_bounds();
            self.end.value_in_bounds();
        }
        T::narrow(self.end.widen() - self.start.widen()).unwrap()
    }

    fn is_empty(&self) -> (empty: bool) {
        !(self.start.widen() < self.end.widen())
    }

    fn checked_width(&self) -> (count: Option<T>) {
        proof {
            T::type_bounds();
            self.start.value_in_bounds();
            self.end.value_in_bounds();
        }
        let span: i128 = self.end.widen() - self.start.widen();
        if span <= 0 {
            None
        } else {
            T::narrow(span)
        }
    }
}

/// `RangeInclusive::start` of std: the lower bound that the range was made with,
/// as long as the range has not been iterated to exhaustion.
#[verifier::external_body]
fn inclusive_start<T: Copy>(range: &RangeInclusive<T>) -> (bound: T)
    ensures
        !range@.exhausted ==> bound == range@.start,
{
    *range.start()
}

/// `RangeInclusive::end` of std: the upper bound that the range was made with,
/// as long as the range has not been iterated to exhaustion.
#[verifier::external_body]
fn inclusive_end<T: Copy>(range: &RangeInclusive<T>) -> (bound: T)
    ensures
        !range@.exhausted ==> bound == range@.end,
{
    *range.end()
}

/// The closed range `start..=end`: empty when `start > end`, else of width
/// `end - start + 1`. Its bounds can be read until it has been iterated to
/// exhaustion.
impl<T: Element> BoundedRange<T> for RangeInclusive<T> {
    open spec fn well_formed(&self) -> bool {
        !self@.exhausted
    }

    open spec fn spec_start(&self) -> int {
        self@.start.value()
    }

    open spec fn spec_width(&self) -> int {
        self@.end.value() - self@.start.value() + 1
    }

    fn start(&self) -> (first: T) {
        inclusive_start(self)
    }

    fn width(&self) -> (count: T) {
        let first: T = inclusive_start(self);
        let last: T = inclusive_end(self);
        proof {
            T::type_bounds();
            first.value_in_bounds();
            last.value_in_bounds();
        }
        T::narrow(last.widen() - first.widen() + 1).unwrap()
    }

    fn is_empty(&self) -> (empty: bool) {
        let first: T = inclusive_start(self);
        let last: T = inclusive_end(self);
        !(first.widen() <= last.widen())
    }

    fn checked_width(&self) -> (count: Option<T>) {
        let first: T = inclusive_start(self);
        let last: T = inclusive_end(self);
        proof {
            T::type_bounds();
            first.value_in_bounds();
            last.value_in_bounds();
        }
        let span: i128 = last.widen() - first.widen() + 1;
        if span <= 0 {
            None
        } else {
            T::narrow(span)
        }
    }
}

/// A half-open range is empty exactly when `start >= end`, and otherwise holds
/// the elements with `start <= element < end`, `end - start` of them.
pub proof fn lemma_exclusive_range<T: Element>(range: Range<T>, element: T)
    ensures
        range.well_formed(),
        (range.spec_width() <= 0) <==> (range.start.value() >= range.end.value()),
        range.spec_start() == range.start.value(),
        range.spec_width() == range.end.value() - range.start.value(),
        holds(&range, element) <==> (range.start.value() <= element.value() < range.end.value()),
        range.spec_start() + range.spec_width() - 1 < T::highest(),
{
    range.end.value_in_bounds();
}

/// A closed range is empty exactly when `start > end`, and otherwise holds the
/// elements with `start <= element <= end`, `end - start + 1` of them.
pub proof fn lemma_inclusive_range<T: Element>(range: RangeInclusive<T>, element: T)
    ensures
        range.well_formed() <==> !range@.exhausted,
        (range.spec_width() <= 0) <==> (range@.start.value() > range@.end.value()),
        range.spec_start() == range@.start.value(),
        range.spec_width() == range@.end.value() - range@.start.value() + 1,
        holds(&range, element) <==> (range@.start.value() <= element.value()
            <= range@.end.value()),
        range.spec_start() + range.spec_width() - 1 <= T::highest(),
{
    range@.end.value_in_bounds();
}

} // verus!

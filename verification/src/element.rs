//! The integer types a range can be made of.
//!
//! Sampling works on unsigned words of 16, 32 or 64 bits, while a range may be
//! made of any integer type of up to 64 bits. [`Element`] connects the two: it
//! widens an element losslessly into an `i128`, where all the arithmetic on
//! bounds is done, and narrows an `i128` back when the element type can hold it.

use vstd::prelude::*;

verus! {

/// An integer type whose values can be sampled.
///
/// Every element has a mathematical value. `widen` carries it into an `i128`
/// unchanged, and `narrow` brings an `i128` back exactly when the type has an
/// element of that value.
pub trait Element: Copy + Sized {
    /// The mathematical value of `self`.
    spec fn value(self) -> int;

    /// The least value of the type.
    spec fn lowest() -> int;

    /// The greatest value of the type.
    spec fn highest() -> int;

    /// The type holds zero and one, and no more than the integers of 64 bits,
    /// signed or unsigned, so the distance between two elements never overflows
    /// an `i128`.
    proof fn type_bounds()
        ensures
            -0x8000_0000_0000_0000 <= Self::lowest() <= 0,
            0 < Self::highest() <= 0xffff_ffff_ffff_ffff,
    ;

    /// Every value lies between the least and the greatest.
    proof fn value_in_bounds(self)
        ensures
            Self::lowest() <= self.value() <= Self::highest(),
    ;

    /// Two elements with the same mathematical value are the same element.
    proof fn value_is_injective(self, other: Self)
        requires
            self.value() == other.value(),
        ensures
            self == other,
    ;

    /// The value of `self` as an `i128`.
    fn widen(self) -> (wide: i128)
        ensures
            wide == self.value(),
    ;

    /// The element whose value is `wide`, if the type has one.
    fn narrow(wide: i128) -> (narrowed: Option<Self>)
        ensures
            narrowed.is_some() <==> (Self::lowest() <= wide <= Self::highest()),
            narrowed matches Some(element) ==> element.value() == wide,
    ;
}

impl Element for u8 {
    open spec fn value(self) -> int {
        self as int
    }

    open spec fn lowest() -> int {
        u8::MIN as int
    }

    open spec fn highest() -> int {
        u8::MAX as int
    }

    proof fn type_bounds() {
    }

    proof fn value_in_bounds(self) {
    }

    proof fn value_is_injective(self, other: Self) {
    }

    fn widen(self) -> (wide: i128) {
        self as i128
    }

    fn narrow(wide: i128) -> (narrowed: Option<Self>) {
        if u8::MIN as i128 <= wide && wide <= u8::MAX as i128 {
            Some(wide as u8)
        } else {
            None
        }
    }
}

impl Element for u16 {
    open spec fn value(self) -> int {
        self as int
    }

    open spec fn lowest() -> int {
        u16::MIN as int
    }

    open spec fn highest() -> int {
        u16::MAX as int
    }

    proof fn type_bounds() {
    }

    proof fn value_in_bounds(self) {
    }

    proof fn value_is_injective(self, other: Self) {
    }

    fn widen(self) -> (wide: i128) {
        self as i128
    }

    fn narrow(wide: i128) -> (narrowed: Option<Self>) {
        if u16::MIN as i128 <= wide && wide <= u16::MAX as i128 {
            Some(wide as u16)
        } else {
            None
        }
    }
}

impl Element for u32 {
    open spec fn value(self) -> int {
        self as int
    }

    open spec fn lowest() -> int {
        u32::MIN as int
    }

    open spec fn highest() -> int {
        u32::MAX as int
    }

    proof fn type_bounds() {
    }

    proof fn value_in_bounds(self) {
    }

    proof fn value_is_injective(self, other: Self) {
    }

    fn widen(self) -> (wide: i128) {
        self as i128
    }

    fn narrow(wide: i128) -> (narrowed: Option<Self>) {
        if u32::MIN as i128 <= wide && wide <= u32::MAX as i128 {
            Some(wide as u32)
        } else {
            None
        }
    }
}

impl Element for u64 {
    open spec fn value(self) -> int {
        self as int
    }

    open spec fn lowest() -> int {
        u64::MIN as int
    }

    open spec fn highest() -> int {
        u64::MAX as int
    }

    proof fn type_bounds() {
    }

    proof fn value_in_bounds(self) {
    }

    proof fn value_is_injective(self, other: Self) {
    }

    fn widen(self) -> (wide: i128) {
        self as i128
    }

    fn narrow(wide: i128) -> (narrowed: Option<Self>) {
        if u64::MIN as i128 <= wide && wide <= u64::MAX as i128 {
            Some(wide as u64)
        } else {
            None
        }
    }
}

impl Element for usize {
    open spec fn value(self) -> int {
        self as int
    }

    open spec fn lowest() -> int {
        usize::MIN as int
    }

    open spec fn highest() -> int {
        usize::MAX as int
    }

    proof fn type_bounds() {
    }

    proof fn value_in_bounds(self) {
    }

    proof fn value_is_injective(self, other: Self) {
    }

    fn widen(self) -> (wide: i128) {
        self as i128
    }

    fn narrow(wide: i128) -> (narrowed: Option<Self>) {
        if usize::MIN as i128 <= wide && wide <= usize::MAX as i128 {
            Some(wide as usize)
        } else {
            None
        }
    }
}

impl Element for i8 {
    open spec fn value(self) -> int {
        self as int
    }

    open spec fn lowest() -> int {
        i8::MIN as int
    }

    open spec fn highest() -> int {
        i8::MAX as int
    }

    proof fn type_bounds() {
    }

    proof fn value_in_bounds(self) {
    }

    proof fn value_is_injective(self, other: Self) {
    }

    fn widen(self) -> (wide: i128) {
        self as i128
    }

    fn narrow(wide: i128) -> (narrowed: Option<Self>) {
        if i8::MIN as i128 <= wide && wide <= i8::MAX as i128 {
            Some(wide as i8)
        } else {
            None
        }
    }
}

impl Element for i16 {
    open spec fn value(self) -> int {
        self as int
    }

    open spec fn lowest() -> int {
        i16::MIN as int
    }

    open spec fn highest() -> int {
        i16::MAX as int
    }

    proof fn type_bounds() {
    }

    proof fn value_in_bounds(self) {
    }

    proof fn value_is_injective(self, other: Self) {
    }

    fn widen(self) -> (wide: i128) {
        self as i128
    }

    fn narrow(wide: i128) -> (narrowed: Option<Self>) {
        if i16::MIN as i128 <= wide && wide <= i16::MAX as i128 {
            Some(wide as i16)
        } else {
            None
        }
    }
}

impl Element for i32 {
    open spec fn value(self) -> int {
        self as int
    }

    open spec fn lowest() -> int {
        i32::MIN as int
    }

    open spec fn highest() -> int {
        i32::MAX as int
    }

    proof fn type_bounds() {
    }

    proof fn value_in_bounds(self) {
    }

    proof fn value_is_injective(self, other: Self) {
    }

    fn widen(self) -> (wide: i128) {
        self as i128
    }

    fn narrow(wide: i128) -> (narrowed: Option<Self>) {
        if i32::MIN as i128 <= wide && wide <= i32::MAX as i128 {
            Some(wide as i32)
        } else {
            None
        }
    }
}

impl Element for i64 {
    open spec fn value(self) -> int {
        self as int
    }

    open spec fn lowest() -> int {
        i64::MIN as int
    }

    open spec fn highest() -> int {
        i64::MAX as int
    }

    proof fn type_bounds() {
    }

    proof fn value_in_bounds(self) {
    }

    proof fn value_is_injective(self, other: Self) {
    }

    fn widen(self) -> (wide: i128) {
        self as i128
    }

    fn narrow(wide: i128) -> (narrowed: Option<Self>) {
        if i64::MIN as i128 <= wide && wide <= i64::MAX as i128 {
            Some(wide as i64)
        } else {
            None
        }
    }
}

impl Element for isize {
    open spec fn value(self) -> int {
        self as int
    }

    open spec fn lowest() -> int {
        isize::MIN as int
    }

    open spec fn highest() -> int {
        isize::MAX as int
    }

    proof fn type_bounds() {
    }

    proof fn value_in_bounds(self) {
    }

    proof fn value_is_injective(self, other: Self) {
    }

    fn widen(self) -> (wide: i128) {
        self as i128
    }

    fn narrow(wide: i128) -> (narrowed: Option<Self>) {
        if isize::MIN as i128 <= wide && wide <= isize::MAX as i128 {
            Some(wide as isize)
        } else {
            None
        }
    }
}

} // verus!

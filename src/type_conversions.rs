use vstd::prelude::*;

verus! {

/// Conversion between integer types for values known to fit in the target type.
pub trait Coerce<T>: Sized {
    /// Whether the value can be represented in `T`.
    spec fn fits(self) -> bool;

    /// The value converted to `T`.
    spec fn coerced(self) -> T;

    fn coerce(self) -> (r: T)
        requires
            self.fits(),
        ensures
            r == self.coerced(),
    ;
}

impl Coerce<u32> for usize {
    open spec fn fits(self) -> bool {
        self <= u32::MAX
    }

    open spec fn coerced(self) -> u32 {
        self as u32
    }

    fn coerce(self) -> (r: u32) {
        self as u32
    }
}

impl Coerce<u64> for usize {
    open spec fn fits(self) -> bool {
        self <= u64::MAX
    }

    open spec fn coerced(self) -> u64 {
        self as u64
    }

    fn coerce(self) -> (r: u64) {
        self as u64
    }
}

impl Coerce<usize> for u32 {
    open spec fn fits(self) -> bool {
        self <= usize::MAX
    }

    open spec fn coerced(self) -> usize {
        self as usize
    }

    fn coerce(self) -> (r: usize) {
        self as usize
    }
}

impl Coerce<usize> for i32 {
    open spec fn fits(self) -> bool {
        0 <= self && self <= usize::MAX
    }

    open spec fn coerced(self) -> usize {
        self as usize
    }

    fn coerce(self) -> (r: usize) {
        self as usize
    }
}

} // verus!

use vstd::prelude::*;

verus! {

/// The scalar operations that complex arithmetic is built from: addition,
/// subtraction, multiplication and division, each total, on a copyable value.
/// Every operation carries a specification function that pins its result down
/// exactly, so code that is generic over the scalar can be verified once and
/// holds for every implementation.
pub trait BasicOps: Sized + Copy {
    /// What `add` returns.
    spec fn spec_add(self, rhs: Self) -> Self;

    /// What `sub` returns.
    spec fn spec_sub(self, rhs: Self) -> Self;

    /// What `mul` returns.
    spec fn spec_mul(self, rhs: Self) -> Self;

    /// What `div` returns. Division is total: each implementation states
    /// what it yields for a zero divisor.
    spec fn spec_div(self, rhs: Self) -> Self;

    fn add(self, rhs: Self) -> (r: Self)
        ensures
            r == self.spec_add(rhs),
    ;

    fn sub(self, rhs: Self) -> (r: Self)
        ensures
            r == self.spec_sub(rhs),
    ;

    fn mul(self, rhs: Self) -> (r: Self)
        ensures
            r == self.spec_mul(rhs),
    ;

    fn div(self, rhs: Self) -> (r: Self)
        ensures
            r == self.spec_div(rhs),
    ;
}

/// What the fractal algorithms need of a scalar beyond its arithmetic: a
/// strict order, and the small whole numbers that serve as iteration
/// constants and escape threshold.
pub trait ScalarOps: BasicOps {
    /// What `lt` returns.
    spec fn spec_lt(self, rhs: Self) -> bool;

    /// What `from_u32` returns.
    spec fn spec_from_u32(v: u32) -> Self;

    fn lt(self, rhs: Self) -> (r: bool)
        ensures
            r == self.spec_lt(rhs),
    ;

    fn from_u32(v: u32) -> (r: Self)
        ensures
            r == Self::spec_from_u32(v),
    ;
}

/// A complex number over any scalar with the basic operations.
#[derive(Clone, Copy, PartialEq, Debug)]
pub struct MyComplex<T: BasicOps> {
    pub r: T,
    pub i: T,
}

impl<T: BasicOps> MyComplex<T> {
    /// The componentwise sum.
    pub open spec fn spec_c_add(self, rhs: Self) -> Self {
        MyComplex { r: self.r.spec_add(rhs.r), i: self.i.spec_add(rhs.i) }
    }

    /// The componentwise difference.
    pub open spec fn spec_c_sub(self, rhs: Self) -> Self {
        MyComplex { r: self.r.spec_sub(rhs.r), i: self.i.spec_sub(rhs.i) }
    }

    /// The product by the rule `(ac - bd, ad + bc)`.
    pub open spec fn spec_c_mul(self, rhs: Self) -> Self {
        MyComplex {
            r: self.r.spec_mul(rhs.r).spec_sub(self.i.spec_mul(rhs.i)),
            i: self.r.spec_mul(rhs.i).spec_add(self.i.spec_mul(rhs.r)),
        }
    }

    /// The quotient: multiply by the conjugate, divide each component by the
    /// squared magnitude of the divisor.
    pub open spec fn spec_c_div(self, rhs: Self) -> Self {
        MyComplex {
            r: self.r.spec_mul(rhs.r).spec_add(self.i.spec_mul(rhs.i)).spec_div(
                rhs.spec_mag_sqr(),
            ),
            i: self.i.spec_mul(rhs.r).spec_sub(self.r.spec_mul(rhs.i)).spec_div(
                rhs.spec_mag_sqr(),
            ),
        }
    }

    /// The squared magnitude `r*r + i*i`.
    pub open spec fn spec_mag_sqr(self) -> T {
        self.r.spec_mul(self.r).spec_add(self.i.spec_mul(self.i))
    }

    pub fn new(r: T, i: T) -> (c: Self)
        ensures
            c == (MyComplex { r, i }),
    {
        Self { r, i }
    }

    pub fn r(&self) -> (v: T)
        ensures
            v == self.r,
    {
        self.r
    }

    pub fn i(&self) -> (v: T)
        ensures
            v == self.i,
    {
        self.i
    }

    /// The squared magnitude, used in place of the magnitude so that no
    /// square root is taken on the hot iteration path.
    pub fn mag_sqr(&self) -> (v: T)
        ensures
            v == self.spec_mag_sqr(),
    {
        self.r.mul(self.r).add(self.i.mul(self.i))
    }

    pub fn add(self, rhs: Self) -> (c: Self)
        ensures
            c == self.spec_c_add(rhs),
    {
        Self { r: self.r.add(rhs.r), i: self.i.add(rhs.i) }
    }

    pub fn sub(self, rhs: Self) -> (c: Self)
        ensures
            c == self.spec_c_sub(rhs),
    {
        Self { r: self.r.sub(rhs.r), i: self.i.sub(rhs.i) }
    }

    pub fn mul(self, rhs: Self) -> (c: Self)
        ensures
            c == self.spec_c_mul(rhs),
    {
        Self {
            r: self.r.mul(rhs.r).sub(self.i.mul(rhs.i)),
            i: self.r.mul(rhs.i).add(self.i.mul(rhs.r)),
        }
    }

    pub fn div(self, rhs: Self) -> (c: Self)
        ensures
            c == self.spec_c_div(rhs),
    {
        let divisor: T = rhs.r.mul(rhs.r).add(rhs.i.mul(rhs.i));
        Self {
            r: self.r.mul(rhs.r).add(self.i.mul(rhs.i)).div(divisor),
            i: self.i.mul(rhs.r).sub(self.r.mul(rhs.i)).div(divisor),
        }
    }
}

/// The basic operations on `i16`, wrapping on overflow. Division is made
/// total: a zero divisor yields zero, and the one overflowing quotient
/// (`i16::MIN / -1`) wraps to `i16::MIN`.
impl BasicOps for i16 {
    open spec fn spec_add(self, rhs: i16) -> i16 {
        self.wrapping_add(rhs)
    }

    open spec fn spec_sub(self, rhs: i16) -> i16 {
        self.wrapping_sub(rhs)
    }

    open spec fn spec_mul(self, rhs: i16) -> i16 {
        self.wrapping_mul(rhs)
    }

    open spec fn spec_div(self, rhs: i16) -> i16 {
        match self.checked_div(rhs) {
            Some(q) => q,
            None => if rhs == 0 {
                0
            } else {
                i16::MIN
            },
        }
    }

    fn add(self, rhs: i16) -> i16 {
        self.wrapping_add(rhs)
    }

    fn sub(self, rhs: i16) -> i16 {
        self.wrapping_sub(rhs)
    }

    fn mul(self, rhs: i16) -> i16 {
        self.wrapping_mul(rhs)
    }

    fn div(self, rhs: i16) -> i16 {
        match self.checked_div(rhs) {
            Some(q) => q,
            None => if rhs == 0 {
                0
            } else {
                i16::MIN
            },
        }
    }
}

} // verus!

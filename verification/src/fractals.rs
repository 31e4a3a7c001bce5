use vstd::prelude::*;

use crate::my_complex::{BasicOps, MyComplex, ScalarOps};

verus! {

/// The three kinds of fractal the evaluator knows.
pub enum FractalType<T: BasicOps> {
    /// A Mandelbrot set has no input variables; it is the same every time.
    Mandelbrot(),
    /// A Julia set is defined by a complex constant added at each step of the
    /// iterative algorithm.
    Julia(MyComplex<T>),
    /// A Newton fractal is defined by the complex roots of a monic
    /// polynomial; the list must not be empty.
    Newton(Vec<MyComplex<T>>),
}

/// A fractal specification together with its iteration budget.
pub struct Fractal<T: BasicOps> {
    pub max_iter: u32,
    pub kind: FractalType<T>,
}

/// The output of a fractal algorithm: either the number of iterations before
/// the value diverges (Mandelbrot/Julia), or the closest root after the fixed
/// number of iterations (Newton).
#[derive(Clone, Copy, Debug, PartialEq, Eq, Structural)]
pub enum FracOutput {
    MandelJulia { iters: u32, max_iters: u32 },
    Newton { closest: usize, roots: usize },
}

impl FracOutput {
    /// The ranges every classification result stays in: the iteration count
    /// never exceeds the positive budget, and the closest index stays inside
    /// the non-empty root list.
    pub open spec fn wf(self) -> bool {
        match self {
            FracOutput::MandelJulia { iters, max_iters } => 0 < max_iters && iters <= max_iters,
            FracOutput::Newton { closest, roots } => 0 < roots && closest < roots,
        }
    }
}

/// The origin of the complex plane over the scalar `T`.
pub open spec fn spec_c_zero<T: ScalarOps>() -> MyComplex<T> {
    MyComplex { r: T::spec_from_u32(0), i: T::spec_from_u32(0) }
}

/// The complex unit over the scalar `T`.
pub open spec fn spec_c_one<T: ScalarOps>() -> MyComplex<T> {
    MyComplex { r: T::spec_from_u32(1), i: T::spec_from_u32(0) }
}

/// One step of the escape iteration: square the state, then add the constant
/// term (the point itself for Mandelbrot, the seed for Julia).
pub open spec fn spec_mj_step<T: ScalarOps>(z: MyComplex<T>, c: MyComplex<T>) -> MyComplex<T> {
    z.spec_c_mul(z).spec_c_add(c)
}

/// Whether a state has escaped: its squared magnitude exceeds four.
pub open spec fn spec_escaped<T: ScalarOps>(z: MyComplex<T>) -> bool {
    T::spec_from_u32(4).spec_lt(z.spec_mag_sqr())
}

/// How many steps the escape loop runs from state `z` with `n` iterations
/// left: the 1-indexed position of the first escaping state, or `n` when no
/// state escapes within the budget.
pub open spec fn spec_escape_count<T: ScalarOps>(
    z: MyComplex<T>,
    c: MyComplex<T>,
    n: nat,
) -> nat
    decreases n,
{
    if n == 0 {
        0
    } else {
        let z1 = spec_mj_step(z, c);
        if spec_escaped(z1) {
            1
        } else {
            1 + spec_escape_count(z1, c, (n - 1) as nat)
        }
    }
}

/// The escape loop never counts more steps than its budget.
pub proof fn lemma_escape_count_le<T: ScalarOps>(z: MyComplex<T>, c: MyComplex<T>, n: nat)
    ensures
        spec_escape_count(z, c, n) <= n,
    decreases n,
{
    if n > 0 {
        let z1 = spec_mj_step(z, c);
        if !spec_escaped(z1) {
            lemma_escape_count_le(z1, c, (n - 1) as nat);
        }
    }
}

/// The first `j` factors `z - root` of the monic polynomial at `z`,
/// multiplied left to right starting from one.
pub open spec fn spec_poly_prefix<T: ScalarOps>(
    z: MyComplex<T>,
    roots: Seq<MyComplex<T>>,
    j: int,
) -> MyComplex<T>
    decreases j,
{
    if j <= 0 {
        spec_c_one::<T>()
    } else {
        spec_poly_prefix(z, roots, j - 1).spec_c_mul(z.spec_c_sub(roots[j - 1]))
    }
}

/// The product-rule term for root `skip`, built from the factors with index
/// below `k`, the `skip`th one left out, multiplied left to right.
pub open spec fn spec_partial_prefix<T: ScalarOps>(
    z: MyComplex<T>,
    roots: Seq<MyComplex<T>>,
    skip: int,
    k: int,
) -> MyComplex<T>
    decreases k,
{
    if k <= 0 {
        spec_c_one::<T>()
    } else if k - 1 == skip {
        spec_partial_prefix(z, roots, skip, k - 1)
    } else {
        spec_partial_prefix(z, roots, skip, k - 1).spec_c_mul(z.spec_c_sub(roots[k - 1]))
    }
}

/// The derivative estimate after the first `j` product-rule terms have been
/// summed left to right; each term runs over the whole root list.
pub open spec fn spec_deriv_prefix<T: ScalarOps>(
    z: MyComplex<T>,
    roots: Seq<MyComplex<T>>,
    j: int,
) -> MyComplex<T>
    decreases j,
{
    if j <= 0 {
        spec_c_zero::<T>()
    } else {
        spec_deriv_prefix(z, roots, j - 1).spec_c_add(
            spec_partial_prefix(z, roots, j - 1, roots.len() as int),
        )
    }
}

/// One step of Newton's method: subtract the polynomial over its derivative.
pub open spec fn spec_newton_step<T: ScalarOps>(
    z: MyComplex<T>,
    roots: Seq<MyComplex<T>>,
) -> MyComplex<T> {
    z.spec_c_sub(
        spec_poly_prefix(z, roots, roots.len() as int).spec_c_div(
            spec_deriv_prefix(z, roots, roots.len() as int),
        ),
    )
}

/// The state after `m` Newton steps from `z`.
pub open spec fn spec_newton_iter<T: ScalarOps>(
    z: MyComplex<T>,
    roots: Seq<MyComplex<T>>,
    m: nat,
) -> MyComplex<T>
    decreases m,
{
    if m == 0 {
        z
    } else {
        spec_newton_step(spec_newton_iter(z, roots, (m - 1) as nat), roots)
    }
}

/// The closest-root scan after the first `j` candidates: the index of the
/// smallest squared distance seen so far and that distance, ties kept at the
/// earliest index. The scan starts from root 0 as the running best.
pub open spec fn spec_closest_scan<T: ScalarOps>(
    z: MyComplex<T>,
    roots: Seq<MyComplex<T>>,
    j: int,
) -> (int, T)
    decreases j,
{
    if j <= 0 {
        (0int, z.spec_c_sub(roots[0]).spec_mag_sqr())
    } else {
        let prev = spec_closest_scan(z, roots, j - 1);
        let d = z.spec_c_sub(roots[j - 1]).spec_mag_sqr();
        if d.spec_lt(prev.1) {
            (j - 1, d)
        } else {
            prev
        }
    }
}

/// The index of the root closest to `z`, ties broken by the lowest index.
pub open spec fn spec_closest_root<T: ScalarOps>(
    z: MyComplex<T>,
    roots: Seq<MyComplex<T>>,
) -> int {
    spec_closest_scan(z, roots, roots.len() as int).0
}

/// The closest-root scan keeps its index inside the root list.
pub proof fn lemma_closest_scan_in_range<T: ScalarOps>(
    z: MyComplex<T>,
    roots: Seq<MyComplex<T>>,
    j: int,
)
    requires
        roots.len() >= 1,
        0 <= j <= roots.len(),
    ensures
        0 <= spec_closest_scan(z, roots, j).0 < roots.len(),
    decreases j,
{
    if j > 0 {
        lemma_closest_scan_in_range(z, roots, j - 1);
    }
}

impl<T: BasicOps> Fractal<T> {
    /// What every fractal value satisfies: a positive iteration budget, and,
    /// for Newton, a non-empty root list.
    pub open spec fn wf(self) -> bool {
        &&& self.max_iter >= 1
        &&& (self.kind matches FractalType::Newton(roots) ==> roots@.len() >= 1)
    }

    pub fn new(max_iter: u32, kind: FractalType<T>) -> (f: Self)
        requires
            max_iter >= 1,
            kind matches FractalType::Newton(roots) ==> roots@.len() >= 1,
        ensures
            f == (Fractal { max_iter, kind }),
            f.wf(),
    {
        Fractal { max_iter, kind }
    }

    pub fn set_max_iter(&mut self, val: u32)
        requires
            val >= 1,
        ensures
            final(self).max_iter == val,
            final(self).kind == old(self).kind,
            old(self).wf() ==> final(self).wf(),
    {
        self.max_iter = val;
    }

    pub fn set_kind(&mut self, val: FractalType<T>)
        requires
            val matches FractalType::Newton(roots) ==> roots@.len() >= 1,
        ensures
            final(self).kind == val,
            final(self).max_iter == old(self).max_iter,
            old(self).wf() ==> final(self).wf(),
    {
        self.kind = val;
    }
}

impl<T: ScalarOps> Fractal<T> {
    /// The classification of a point, as a function of the point and the
    /// fractal alone.
    pub open spec fn spec_classify(self, z_in: MyComplex<T>) -> FracOutput {
        match self.kind {
            FractalType::Mandelbrot() => FracOutput::MandelJulia {
                iters: spec_escape_count(spec_c_zero::<T>(), z_in, self.max_iter as nat) as u32,
                max_iters: self.max_iter,
            },
            FractalType::Julia(seed) => FracOutput::MandelJulia {
                iters: spec_escape_count(z_in, seed, self.max_iter as nat) as u32,
                max_iters: self.max_iter,
            },
            FractalType::Newton(roots) => FracOutput::Newton {
                closest: spec_closest_root(
                    spec_newton_iter(z_in, roots@, self.max_iter as nat),
                    roots@,
                ) as usize,
                roots: roots@.len() as usize,
            },
        }
    }

    /// Runs the fractal's iteration policy on one point.
    ///
    /// Mandelbrot and Julia run the escape loop and report the 1-indexed step
    /// at which the squared magnitude first exceeded four, or the whole
    /// budget if it never did. Newton runs the fixed number of steps with no
    /// early exit and reports the root closest to the final state, ties going
    /// to the lowest index.
    pub fn complex_to_frac_output(&self, z_in: MyComplex<T>) -> (res: FracOutput)
        requires
            self.wf(),
        ensures
            res == self.spec_classify(z_in),
            res.wf(),
            res matches FracOutput::MandelJulia { iters, max_iters } ==> max_iters
                == self.max_iter,
    {
        match &self.kind {
            FractalType::Mandelbrot() => {
                let zero = T::from_u32(0);
                let four = T::from_u32(4);
                let mut z: MyComplex<T> = MyComplex::new(zero, zero);
                let mut i: u32 = 0;
                let mut esc: bool = false;
                while i < self.max_iter && !esc
                    invariant
                        i <= self.max_iter,
                        four == T::spec_from_u32(4),
                        esc ==> 1 <= i && spec_escape_count(
                            spec_c_zero::<T>(),
                            z_in,
                            self.max_iter as nat,
                        ) == i,
                        !esc ==> spec_escape_count(spec_c_zero::<T>(), z_in, self.max_iter as nat)
                            == i + spec_escape_count(z, z_in, (self.max_iter - i) as nat),
                    decreases self.max_iter - i,
                {
                    let z_next = z.mul(z).add(z_in);
                    let esc_next = four.lt(z_next.mag_sqr());
                    proof {
                        assert(z_next == spec_mj_step(z, z_in));
                        assert(spec_escape_count(z, z_in, (self.max_iter - i) as nat) == (
                        if spec_escaped(z_next) {
                            1nat
                        } else {
                            1 + spec_escape_count(z_next, z_in, (self.max_iter - i - 1) as nat)
                        }));
                    }
                    z = z_next;
                    i = i + 1;
                    esc = esc_next;
                }
                FracOutput::MandelJulia { iters: i, max_iters: self.max_iter }
            },
            FractalType::Julia(seed) => {
                let four = T::from_u32(4);
                let mut z: MyComplex<T> = z_in;
                let mut i: u32 = 0;
                let mut esc: bool = false;
                while i < self.max_iter && !esc
                    invariant
                        i <= self.max_iter,
                        four == T::spec_from_u32(4),
                        esc ==> 1 <= i && spec_escape_count(z_in, *seed, self.max_iter as nat)
                            == i,
                        !esc ==> spec_escape_count(z_in, *seed, self.max_iter as nat) == i
                            + spec_escape_count(z, *seed, (self.max_iter - i) as nat),
                    decreases self.max_iter - i,
                {
                    let z_next = z.mul(z).add(*seed);
                    let esc_next = four.lt(z_next.mag_sqr());
                    proof {
                        assert(z_next == spec_mj_step(z, *seed));
                        assert(spec_escape_count(z, *seed, (self.max_iter - i) as nat) == (
                        if spec_escaped(z_next) {
                            1nat
                        } else {
                            1 + spec_escape_count(z_next, *seed, (self.max_iter - i - 1) as nat)
                        }));
                    }
                    z = z_next;
                    i = i + 1;
                    esc = esc_next;
                }
                FracOutput::MandelJulia { iters: i, max_iters: self.max_iter }
            },
            FractalType::Newton(roots) => {
                let num_of_roots: usize = roots.len();
                let mut z: MyComplex<T> = z_in;
                let mut it: u32 = 0;
                while it < self.max_iter
                    invariant
                        it <= self.max_iter,
                        num_of_roots == roots@.len(),
                        1 <= num_of_roots,
                        z == spec_newton_iter(z_in, roots@, it as nat),
                    decreases self.max_iter - it,
                {
                    let mut poly: MyComplex<T> = MyComplex::new(T::from_u32(1), T::from_u32(0));
                    let mut deriv: MyComplex<T> = MyComplex::new(T::from_u32(0), T::from_u32(0));
                    let mut j: usize = 0;
                    while j < num_of_roots
                        invariant
                            j <= num_of_roots,
                            num_of_roots == roots@.len(),
                            poly == spec_poly_prefix(z, roots@, j as int),
                            deriv == spec_deriv_prefix(z, roots@, j as int),
                        decreases num_of_roots - j,
                    {
                        let poly_term = z.sub(roots[j]);
                        poly = poly.mul(poly_term);
                        let mut partial: MyComplex<T> = MyComplex::new(
                            T::from_u32(1),
                            T::from_u32(0),
                        );
                        let mut k: usize = 0;
                        while k < num_of_roots
                            invariant
                                k <= num_of_roots,
                                j < num_of_roots,
                                num_of_roots == roots@.len(),
                                partial == spec_partial_prefix(z, roots@, j as int, k as int),
                            decreases num_of_roots - k,
                        {
                            if k != j {
                                partial = partial.mul(z.sub(roots[k]));
                            }
                            k = k + 1;
                        }
                        deriv = deriv.add(partial);
                        j = j + 1;
                    }
                    let z_next = z.sub(poly.div(deriv));
                    proof {
                        assert(z_next == spec_newton_step(z, roots@));
                        assert(spec_newton_iter(z_in, roots@, (it + 1) as nat) == spec_newton_step(
                            spec_newton_iter(z_in, roots@, it as nat),
                            roots@,
                        ));
                    }
                    z = z_next;
                    it = it + 1;
                }
                let mut closest_root: usize = 0;
                let mut smallest_diff: T = z.sub(roots[0]).mag_sqr();
                let mut j: usize = 0;
                while j < num_of_roots
                    invariant
                        j <= num_of_roots,
                        num_of_roots == roots@.len(),
                        1 <= num_of_roots,
                        closest_root < num_of_roots,
                        (closest_root as int, smallest_diff) == spec_closest_scan(
                            z,
                            roots@,
                            j as int,
                        ),
                    decreases num_of_roots - j,
                {
                    let diff = z.sub(roots[j]).mag_sqr();
                    if diff.lt(smallest_diff) {
                        smallest_diff = diff;
                        closest_root = j;
                    }
                    j = j + 1;
                }
                FracOutput::Newton { closest: closest_root, roots: num_of_roots }
            },
        }
    }
}

} // verus!

use fractal_bmp::fixed_point::Fixed;
use fractal_bmp::fractals::{FracOutput, Fractal, FractalType};
use fractal_bmp::my_complex::MyComplex;

fn c(rnum: i64, rden: i64, inum: i64, iden: i64) -> MyComplex<Fixed> {
    MyComplex::new(Fixed::from_ratio(rnum, rden), Fixed::from_ratio(inum, iden))
}

fn sample_points() -> [MyComplex<Fixed>; 5] {
    [c(0, 1, 0, 1), c(1, 1, 0, 1), c(-3, 10, -9, 1000), c(3, 4, -1, 10), c(26, 100, 0, 1)]
}

#[test]
fn test1() {}

// Check some known values on the Mandelbrot set, and make sure the
// divergence values make sense.
#[test]
fn mandelbrot_known_points() {
    let fractal_to_test = Fractal::new(1_000_u32, FractalType::Mandelbrot());

    let cmplx_in = sample_points();
    let known_vals: [u32; 5] = [1000, 3, 1000, 3, 30];
    let mut mandel_vals: [u32; 5] = [0; 5];
    let mut i: usize = 0;
    while i < 5 {
        if let FracOutput::MandelJulia { iters: num, max_iters: _ } =
            fractal_to_test.complex_to_frac_output(cmplx_in[i])
        {
            mandel_vals[i] = num;
        }
        i += 1;
    }

    assert_eq!(known_vals, mandel_vals);
}

// Check some known values on a Julia set.
#[test]
fn julia_test() {
    let fractal_to_test =
        Fractal::new(1_000_u32, FractalType::Julia(c(2, 10, -17, 100)));

    let cmplx_in = sample_points();
    let known_vals: [u32; 5] = [1000, 3, 1000, 1000, 1000];
    let mut julia_vals: [u32; 5] = [0; 5];
    let mut i: usize = 0;
    while i < 5 {
        if let FracOutput::MandelJulia { iters: num, max_iters: _ } =
            fractal_to_test.complex_to_frac_output(cmplx_in[i])
        {
            julia_vals[i] = num;
        }
        i += 1;
    }

    assert_eq!(known_vals, julia_vals);
}

// Check some known values on a Newton fractal. From (1, 0) the starting
// point sits exactly on the first root, so the iteration never leaves it;
// from (0, 0) one exact Newton step lands on (1, 0) as well.
#[test]
fn newton_known_points() {
    let test_roots: Vec<MyComplex<Fixed>> =
        vec![c(1, 1, 0, 1), c(1, 2, 1, 2), c(-1, 2, -1, 2)];
    let fractal_to_test = Fractal::new(1_000_u32, FractalType::Newton(test_roots));

    let cmplx_in = sample_points();
    let known_vals: [usize; 5] = [0, 0, 1, 0, 1];
    let mut newton_vals: [usize; 5] = [9; 5];
    let mut i: usize = 0;
    while i < 5 {
        if let FracOutput::Newton { closest: num, roots: count } =
            fractal_to_test.complex_to_frac_output(cmplx_in[i])
        {
            newton_vals[i] = num;
            assert_eq!(count, 3);
        }
        i += 1;
    }

    assert_eq!(known_vals, newton_vals);
}

// The same point and fractal always classify the same way.
#[test]
fn classification_is_deterministic() {
    let fractal = Fractal::new(100_u32, FractalType::Julia(c(2, 10, -17, 100)));
    let p = c(3, 4, -1, 10);
    assert_eq!(fractal.complex_to_frac_output(p), fractal.complex_to_frac_output(p));
}

// The iteration count never exceeds the budget, whatever the budget.
#[test]
fn iterations_within_budget() {
    let mut fractal = Fractal::new(1_u32, FractalType::Mandelbrot());
    let far = c(10, 1, 10, 1);
    let near = c(0, 1, 0, 1);
    for budget in [1_u32, 2, 7, 50] {
        fractal.set_max_iter(budget);
        for p in [far, near] {
            if let FracOutput::MandelJulia { iters, max_iters } =
                fractal.complex_to_frac_output(p)
            {
                assert!(iters <= max_iters);
                assert_eq!(max_iters, budget);
            } else {
                panic!("escape classification expected");
            }
        }
    }
}

// Replacing the kind keeps the budget, and the other way round.
#[test]
fn setters_replace_one_field() {
    let mut fractal = Fractal::new(5_u32, FractalType::Mandelbrot());
    fractal.set_kind(FractalType::Julia(c(1, 2, 0, 1)));
    fractal.set_max_iter(9);
    if let FracOutput::MandelJulia { iters: _, max_iters } =
        fractal.complex_to_frac_output(c(0, 1, 0, 1))
    {
        assert_eq!(max_iters, 9);
    } else {
        panic!("escape classification expected");
    }
}

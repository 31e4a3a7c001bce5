use fractal_bmp::fixed_point::Fixed;
use fractal_bmp::my_complex::MyComplex;

#[test]
fn complex_addition_f32() {
    assert_eq!(
        MyComplex::new(Fixed::from_ratio(89, 10), Fixed::from_ratio(52, 10))
            .add(MyComplex::new(Fixed::from_int(-4), Fixed::from_ratio(1, 10))),
        MyComplex::new(Fixed::from_ratio(49, 10), Fixed::from_ratio(53, 10))
    );
}

#[test]
fn complex_addition_i16() {
    assert_eq!(
        MyComplex::new(8_i16, 5_i16).add(MyComplex::new(-4_i16, 0_i16)),
        MyComplex::new(4_i16, 5_i16)
    );
}

#[test]
fn complex_subtraction() {
    assert_eq!(
        MyComplex::new(Fixed::from_ratio(1204, 10), Fixed::from_int(10))
            .sub(MyComplex::new(Fixed::from_int(-110), Fixed::from_int(4))),
        MyComplex::new(Fixed::from_ratio(2304, 10), Fixed::from_int(6))
    );
}

#[test]
fn complex_multiplication() {
    assert_eq!(
        MyComplex::new(Fixed::from_ratio(1204, 10), Fixed::from_int(10))
            .mul(MyComplex::new(Fixed::from_int(-110), Fixed::from_int(4))),
        MyComplex::new(Fixed::from_int(-13_284), Fixed::from_ratio(-6184, 10))
    );
}

#[test]
fn complex_division() {
    assert_eq!(
        MyComplex::new(Fixed::from_int(1), Fixed::from_int(0))
            .div(MyComplex::new(Fixed::from_int(2), Fixed::from_int(0))),
        MyComplex::new(Fixed::from_ratio(1, 2), Fixed::from_int(0))
    );
}

#[test]
fn complex_division_by_zero_saturates() {
    let zero = MyComplex::new(Fixed::from_int(0), Fixed::from_int(0));
    let q = MyComplex::new(Fixed::from_int(1), Fixed::from_int(0)).div(zero);
    assert_eq!(q.r().bits, i64::MAX);
    assert_eq!(q.i().bits, i64::MAX);
}

#[test]
fn getters_and_magnitude() {
    let z = MyComplex::new(Fixed::from_int(3), Fixed::from_int(-4));
    assert_eq!(z.r(), Fixed::from_int(3));
    assert_eq!(z.i(), Fixed::from_int(-4));
    assert_eq!(z.mag_sqr(), Fixed::from_int(25));
}

#[test]
fn fixed_from_ratio_truncates_toward_zero() {
    assert_eq!(Fixed::from_ratio(1, 2).bits, 500_000_000);
    assert_eq!(Fixed::from_ratio(-17, 100).bits, -170_000_000);
    assert_eq!(Fixed::from_ratio(1, 3).bits, 333_333_333);
    assert_eq!(Fixed::from_ratio(-1, 3).bits, -333_333_333);
}

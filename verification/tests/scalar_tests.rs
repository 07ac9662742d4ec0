use fractal_box::scalar::{ratio_of, Scalar};

#[derive(Clone, Copy, Debug, PartialEq)]
struct Real(f64);

impl Scalar for Real {
    fn from_u32(value: u32) -> Self {
        Real(f64::from(value))
    }
    fn add(self, rhs: Self) -> Self {
        Real(self.0 + rhs.0)
    }
    fn sub(self, rhs: Self) -> Self {
        Real(self.0 - rhs.0)
    }
    fn mul(self, rhs: Self) -> Self {
        Real(self.0 * rhs.0)
    }
    fn div(self, rhs: Self) -> Self {
        Real(self.0 / rhs.0)
    }
    fn neg(self) -> Self {
        Real(-self.0)
    }
    fn sqrt(self) -> Self {
        Real(self.0.sqrt())
    }
    fn le(self, rhs: Self) -> bool {
        self.0 <= rhs.0
    }
    fn to_i64(self) -> i64 {
        self.0 as i64
    }
}

#[test]
fn ratio_of_divides_the_converted_integers() {
    assert_eq!(ratio_of::<Real>(12, 10), Real(1.2));
    assert_eq!(ratio_of::<Real>(1, 2), Real(0.5));
    assert_eq!(ratio_of::<Real>(3, 2), Real(1.5));
    assert_eq!(ratio_of::<Real>(600, 800), Real(0.75));
    assert_eq!(ratio_of::<Real>(0, 800), Real(0.0));
}

#[test]
fn ratio_of_returns_for_a_zero_denominator() {
    assert_eq!(ratio_of::<Real>(1, 0), Real(f64::INFINITY));
    assert!(ratio_of::<Real>(0, 0).0.is_nan());
}

use fractal_box::escape::{is_in_mandelbrot_set, is_within_bound, step, Settings, DEFAULT_ESCAPE_TARGET, DEFAULT_MAX_ITERATIONS};
use fractal_box::plane::{convert_pixel_to_complex, Complex, Pixel};
use fractal_box::scalar::Scalar;
use fractal_box::viewport::Viewport;

#[derive(Clone, Copy, Debug, PartialEq)]
struct Real(f64);

impl Scalar for Real {
    fn from_u32(value: u32) -> Self {
        Real(f64::from(value))
    }
    fn add(self, rhs: Self) -> Self {
        Real(self.0 + rhs.0)
    }
    fn sub(self, rhs: Self) -> Self {
        Real(self.0 - rhs.0)
    }
    fn mul(self, rhs: Self) -> Self {
        Real(self.0 * rhs.0)
    }
    fn div(self, rhs: Self) -> Self {
        Real(self.0 / rhs.0)
    }
    fn neg(self) -> Self {
        Real(-self.0)
    }
    fn sqrt(self) -> Self {
        Real(self.0.sqrt())
    }
    fn le(self, rhs: Self) -> bool {
        self.0 <= rhs.0
    }
    fn to_i64(self) -> i64 {
        self.0 as i64
    }
}

fn point(real: f64, imaginary: f64) -> Complex<Real> {
    Complex { real: Real(real), imaginary: Real(imaginary) }
}

#[test]
fn zero_never_escapes() {
    for target in [0.0, 0.5, 1.0, 4.0, 1e300] {
        for budget in [1u32, 2, 10, 2000] {
            assert_eq!(is_in_mandelbrot_set(&point(0.0, 0.0), Real(target), budget), budget);
        }
    }
}

#[test]
fn three_escapes_on_the_first_iteration() {
    assert_eq!(is_in_mandelbrot_set(&point(3.0, 0.0), Real(4.0), 2000), 1);
    assert_eq!(is_in_mandelbrot_set(&point(3.0, 0.0), Real(4.0), 1), 1);
}

#[test]
fn escape_time_stays_within_the_budget() {
    let points = [(0.0, 0.0), (3.0, 0.0), (-2.0, 0.0), (0.3, 0.6), (1e200, 1e200), (f64::NAN, 0.0), (f64::INFINITY, 1.0)];
    for (real, imaginary) in points {
        for target in [0.0, 4.0, -1.0, f64::NAN, f64::INFINITY] {
            for budget in [0u32, 1, 5, 50] {
                assert!(is_in_mandelbrot_set(&point(real, imaginary), Real(target), budget) <= budget);
            }
        }
    }
}

#[test]
fn empty_budget_gives_zero() {
    assert_eq!(is_in_mandelbrot_set(&point(0.0, 0.0), Real(4.0), 0), 0);
    assert_eq!(is_in_mandelbrot_set(&point(3.0, 0.0), Real(4.0), 0), 0);
}

#[test]
fn known_escape_times() {
    assert_eq!(is_in_mandelbrot_set(&point(1.0, 0.0), Real(4.0), 2000), 3);
    assert_eq!(is_in_mandelbrot_set(&point(0.5, 0.5), Real(4.0), 2000), 5);
    assert_eq!(is_in_mandelbrot_set(&point(-2.1, 0.0), Real(4.0), 2000), 1);
    assert_eq!(is_in_mandelbrot_set(&point(0.3, 0.6), Real(4.0), 2000), 15);
    assert_eq!(is_in_mandelbrot_set(&point(2.0, 2.0), Real(4.0), 2000), 1);
    assert_eq!(is_in_mandelbrot_set(&point(0.26, 0.0), Real(4.0), 2000), 30);
    assert_eq!(is_in_mandelbrot_set(&point(-0.75, 0.1), Real(4.0), 2000), 33);
    assert_eq!(is_in_mandelbrot_set(&point(-2.0, 0.0), Real(4.0), 2000), 2000);
    assert_eq!(is_in_mandelbrot_set(&point(-2.0, 0.0), Real(4.0), 50), 50);
}

#[test]
fn escape_target_decides_when_a_point_has_escaped() {
    assert_eq!(is_in_mandelbrot_set(&point(1.0, 0.0), Real(0.0), 5), 1);
    assert_eq!(is_in_mandelbrot_set(&point(3.0, 0.0), Real(100.0), 5), 2);
    assert_eq!(is_in_mandelbrot_set(&point(0.0, 0.0), Real(-1.0), 5), 0);
}

#[test]
fn centre_pixel_of_the_default_frame_is_in_the_set() {
    let viewport: Viewport<Real> = Viewport::default_for(800, 600);
    let settings: Settings<Real> = Settings { max_iterations: 2000, escape_target: Real(4.0) };
    let c = convert_pixel_to_complex(Pixel { x: 400, y: 300 }, 800, 600, &viewport);
    assert_eq!(
        is_in_mandelbrot_set(&c, settings.escape_target, settings.max_iterations),
        settings.max_iterations
    );
}

#[test]
fn step_squares_and_adds() {
    let next = step(&point(1.0, 2.0), &point(0.5, -0.25));
    assert_eq!(next.real, Real(1.0 - 4.0 + 0.5));
    assert_eq!(next.imaginary, Real(2.0 * 1.0 * 2.0 - 0.25));
    let rest = step(&point(0.0, 0.0), &point(0.0, 0.0));
    assert_eq!(rest.real, Real(0.0));
    assert_eq!(rest.imaginary, Real(0.0));
}

#[test]
fn bound_is_inclusive() {
    assert!(is_within_bound(&point(2.0, 0.0), Real(4.0)));
    assert!(is_within_bound(&point(0.0, -2.0), Real(4.0)));
    assert!(!is_within_bound(&point(2.0, 0.1), Real(4.0)));
    assert!(!is_within_bound(&point(3.0, 0.0), Real(4.0)));
    assert!(!is_within_bound(&point(f64::NAN, 0.0), Real(4.0)));
}

#[test]
fn default_settings() {
    let settings: Settings<Real> = Settings::default();
    assert_eq!(settings.max_iterations, 2000);
    assert_eq!(settings.escape_target, Real(4.0));
    assert_eq!(DEFAULT_MAX_ITERATIONS, 2000);
    assert_eq!(DEFAULT_ESCAPE_TARGET, 4);
}

#[derive(Clone, Copy, Debug, PartialEq)]
struct Single(f32);

impl Scalar for Single {
    fn from_u32(value: u32) -> Self {
        Single(value as f32)
    }
    fn add(self, rhs: Self) -> Self {
        Single(self.0 + rhs.0)
    }
    fn sub(self, rhs: Self) -> Self {
        Single(self.0 - rhs.0)
    }
    fn mul(self, rhs: Self) -> Self {
        Single(self.0 * rhs.0)
    }
    fn div(self, rhs: Self) -> Self {
        Single(self.0 / rhs.0)
    }
    fn neg(self) -> Self {
        Single(-self.0)
    }
    fn sqrt(self) -> Self {
        Single(self.0.sqrt())
    }
    fn le(self, rhs: Self) -> bool {
        self.0 <= rhs.0
    }
    fn to_i64(self) -> i64 {
        self.0 as i64
    }
}

#[test]
fn single_precision_serves_as_well() {
    let zero = Complex { real: Single(0.0), imaginary: Single(0.0) };
    let three = Complex { real: Single(3.0), imaginary: Single(0.0) };
    let one = Complex { real: Single(1.0), imaginary: Single(0.0) };
    assert_eq!(is_in_mandelbrot_set(&zero, Single(4.0), 2000), 2000);
    assert_eq!(is_in_mandelbrot_set(&three, Single(4.0), 2000), 1);
    assert_eq!(is_in_mandelbrot_set(&one, Single(4.0), 2000), 3);
    let viewport: Viewport<Single> = Viewport::default_for(800, 600);
    let c = convert_pixel_to_complex(Pixel { x: 400, y: 300 }, 800, 600, &viewport);
    assert_eq!(c.real, Single(-0.5));
    assert_eq!(is_in_mandelbrot_set(&c, Single(4.0), 2000), 2000);
}

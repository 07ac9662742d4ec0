use fractal_box::color::{color_for, gradient, map_color, to_channel, wrap, Color, FULL, RED_SCALE};
use fractal_box::scalar::Scalar;

#[derive(Clone, Copy, Debug, PartialEq)]
struct Real(f64);

impl Scalar for Real {
    fn from_u32(value: u32) -> Self {
        Real(f64::from(value))
    }
    fn add(self, rhs: Self) -> Self {
        Real(self.0 + rhs.0)
    }
    fn sub(self, rhs: Self) -> Self {
        Real(self.0 - rhs.0)
    }
    fn mul(self, rhs: Self) -> Self {
        Real(self.0 * rhs.0)
    }
    fn div(self, rhs: Self) -> Self {
        Real(self.0 / rhs.0)
    }
    fn neg(self) -> Self {
        Real(-self.0)
    }
    fn sqrt(self) -> Self {
        Real(self.0.sqrt())
    }
    fn le(self, rhs: Self) -> bool {
        self.0 <= rhs.0
    }
    fn to_i64(self) -> i64 {
        self.0 as i64
    }
}

fn rgb(r: u8, g: u8, b: u8) -> Color {
    Color { r, g, b }
}

#[test]
fn points_of_the_set_are_black() {
    for budget in [0u32, 1, 7, 2000, u32::MAX] {
        assert_eq!(color_for::<Real>(budget, budget), rgb(0, 0, 0));
    }
    assert_eq!(Color::black(), rgb(0, 0, 0));
}

#[test]
fn immediate_escape_is_black_too() {
    for budget in [1u32, 2, 7, 2000, u32::MAX] {
        assert_eq!(color_for::<Real>(0, budget), rgb(0, 0, 0));
        assert_eq!(gradient::<Real>(0, budget), rgb(0, 0, 0));
    }
}

#[test]
fn gradient_levels() {
    assert_eq!(color_for::<Real>(1, 2000), rgb(0, 0, 5));
    assert_eq!(color_for::<Real>(10, 2000), rgb(0, 1, 18));
    assert_eq!(color_for::<Real>(100, 2000), rgb(6, 12, 57));
    assert_eq!(color_for::<Real>(500, 2000), rgb(159, 63, 127));
    assert_eq!(color_for::<Real>(632, 2000), rgb(254, 80, 143));
    assert_eq!(color_for::<Real>(3, 7), rgb(212, 109, 166));
}

#[test]
fn channels_are_truncated_not_rounded() {
    // brightness 63.75, blue 127.5
    assert_eq!(color_for::<Real>(500, 2000).g, 63);
    assert_eq!(color_for::<Real>(500, 2000).b, 127);
    // blue 169.99999999999997
    assert_eq!(color_for::<Real>(4, 9).b, 169);
}

#[test]
fn red_wraps_and_is_not_clamped() {
    // red level 255.45...
    assert_eq!(color_for::<Real>(633, 2000), rgb(255, 80, 143));
    // red level 637.54...
    assert_eq!(color_for::<Real>(1000, 2000), rgb(125, 127, 180));
    // red level 2547.64...
    assert_eq!(color_for::<Real>(1999, 2000), rgb(243, 254, 254));
    assert_eq!(color_for::<Real>(1, 2), rgb(125, 127, 180));
}

#[test]
fn wrap_keeps_the_low_eight_bits() {
    assert_eq!(wrap(0), 0);
    assert_eq!(wrap(255), 255);
    assert_eq!(wrap(256), 0);
    assert_eq!(wrap(637), 125);
    assert_eq!(wrap(2547), 243);
    assert_eq!(wrap(-1), 255);
    assert_eq!(wrap(-256), 0);
    assert_eq!(wrap(-257), 255);
    assert_eq!(wrap(i64::MAX), 255);
    assert_eq!(wrap(i64::MIN), 0);
}

#[test]
fn to_channel_drops_the_fraction() {
    assert_eq!(to_channel(Real(0.0)), 0);
    assert_eq!(to_channel(Real(0.999)), 0);
    assert_eq!(to_channel(Real(127.5)), 127);
    assert_eq!(to_channel(Real(255.999)), 255);
    assert_eq!(to_channel(Real(256.0)), 0);
    assert_eq!(to_channel(Real(637.5490233774224)), 125);
}

#[test]
fn map_color_follows_the_formula() {
    assert_eq!(map_color(Real(5.0), Real(0.0), Real(10.0), Real(0.0), Real(255.0)), Real(127.5));
    assert_eq!(map_color(Real(1.0), Real(0.0), Real(2000.0), Real(0.0), Real(255.0)), Real(0.1275));
    assert_eq!(map_color(Real(3.0), Real(1.0), Real(5.0), Real(10.0), Real(20.0)), Real(15.0));
    assert_eq!(map_color(Real(1.0), Real(1.0), Real(5.0), Real(10.0), Real(20.0)), Real(10.0));
    assert_eq!(map_color(Real(5.0), Real(1.0), Real(5.0), Real(10.0), Real(20.0)), Real(20.0));
    assert_eq!(
        map_color(Real(7.0), Real(0.0), Real(3.0), Real(0.0), Real(255.0)),
        Real(7.0 * 255.0 / 3.0)
    );
}

#[test]
fn gradient_constants() {
    assert_eq!(RED_SCALE, 6502);
    assert_eq!(FULL, 255);
}

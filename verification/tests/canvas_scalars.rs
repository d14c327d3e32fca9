use ray_tracer::{Canvas, Pixel, Scalar, Tuple};

fn sc(millionths: i64) -> Scalar {
    Scalar::from_millionths(millionths)
}

fn rgb(r: i64, g: i64, b: i64) -> Pixel {
    Pixel::rgb(sc(r), sc(g), sc(b))
}

#[test]
fn canvas_starts_black_and_remembers_writes() {
    let mut c = Canvas::with_dimesnions(10, 20);
    assert_eq!(c.width(), 10);
    assert_eq!(c.height(), 20);
    assert!(c.get(0, 0) == Pixel::black());
    assert!(c.get(9, 19) == Pixel::black());

    let red = Pixel::red();
    c.set(2, 3, red);
    assert!(c.get(2, 3) == red);
    assert!(c.get(3, 2) == Pixel::black());

    c.fill(Pixel::blue());
    assert!(c.get(2, 3) == Pixel::blue());
    assert!(c.get(9, 19) == Pixel::blue());
}

#[test]
fn pixel_channels_scale_to_bytes_with_clamping() {
    // In-range channels truncate; channels beyond the range saturate.
    assert_eq!(rgb(1_500_000, 0, 500_000).as_array_u8(), [255, 0, 127]);
    assert_eq!(rgb(-300_000, 1_000_000, 0).as_array_u8(), [0, 255, 0]);
}

#[test]
fn pixel_arithmetic() {
    let a = rgb(900_000, 600_000, 750_000);
    let b = rgb(700_000, 100_000, 250_000);
    assert!(a.add(b).approx_eq(&rgb(1_600_000, 700_000, 1_000_000)));
    assert!(a.mul(b).approx_eq(&rgb(630_000, 60_000, 187_500)));
    assert!(a.scale(sc(2_000_000)).approx_eq(&rgb(1_800_000, 1_200_000, 1_500_000)));
    let t = a.to_tuple();
    assert!(t.x == a.r && t.y == a.g && t.z == a.b);
    assert!(t.w == sc(-1_000_000));
}

#[test]
fn scalar_arithmetic_is_exact_on_round_values() {
    assert_eq!(Scalar::from_int(3).raw, 3_000_000);
    assert_eq!(sc(1_500_000).mul(sc(2_000_000)).raw, 3_000_000);
    assert_eq!(sc(3_000_000).div(sc(2_000_000)).raw, 1_500_000);
    assert_eq!(sc(2_250_000).sqrt().raw, 1_500_000);
    assert_eq!(sc(500_000).powi(3).raw, 125_000);
    assert_eq!(sc(-1_700_000).abs().raw, 1_700_000);
    assert_eq!(sc(0).sqrt().raw, 0);
    // Division by zero is total and yields zero.
    assert_eq!(sc(1_000_000).div(sc(0)).raw, 0);
}

#[test]
fn scalar_floor_rounds_toward_negative_infinity() {
    assert_eq!(sc(1_999_999).floor(), 1);
    assert_eq!(sc(-500_000).floor(), -1);
    assert_eq!(sc(-2_000_000).floor(), -2);
    assert_eq!(sc(0).floor(), 0);
}

#[test]
fn scalar_comparison_tolerance() {
    assert!(sc(1_000_000).approx_eq(sc(1_000_099)));
    assert!(!sc(1_000_000).approx_eq(sc(1_000_100)));
    assert!(sc(50).near_zero());
    assert!(!sc(-150).near_zero());
}

#[test]
fn tuple_kind_flags() {
    let p = Tuple::point(sc(0), sc(0), sc(0));
    let v = Tuple::vector(sc(0), sc(0), sc(0));
    assert!(p.is_point() && !p.is_vector());
    assert!(v.is_vector() && !v.is_point());
}

#[test]
fn zero_vector_normalizes_to_itself() {
    let z = Tuple::vector(sc(0), sc(0), sc(0));
    assert!(z.normalize() == z);
    assert_eq!(z.magnitude().raw, 0);
}

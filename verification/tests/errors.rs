use ray_tracer::{
    Light, Matrix4x4, Pixel, Ray, Scalar, Shape, TraceError, Tuple, World,
};

fn sc(millionths: i64) -> Scalar {
    Scalar::from_millionths(millionths)
}

fn point(x: i64, y: i64, z: i64) -> Tuple {
    Tuple::point(sc(x), sc(y), sc(z))
}

fn vector(x: i64, y: i64, z: i64) -> Tuple {
    Tuple::vector(sc(x), sc(y), sc(z))
}

#[test]
fn non_invertible_matrix_is_reported() {
    let zero = Matrix4x4::scaling(sc(0), sc(0), sc(0));
    assert!(!zero.invertible());
    assert_eq!(zero.inverse(), Err(TraceError::NotInvertible));
}

#[test]
fn non_invertible_shape_transform_fails_intersection() {
    let mut s = Shape::sphere();
    s.set_transform(Matrix4x4::scaling(sc(0), sc(0), sc(0)));
    let r = Ray::new(point(0, 0, -5_000_000), vector(0, 0, 1_000_000));
    assert_eq!(s.intersect(r), Err(TraceError::NotInvertible));
    assert_eq!(s.normal_at(point(0, 0, 1_000_000)), Err(TraceError::NotInvertible));

    let mut w = World::default();
    let mut objs = w.objects();
    objs.push(s);
    w.set_objects(objs);
    assert_eq!(w.intersect_world(r), Err(TraceError::NotInvertible));
    assert_eq!(w.color_at(r, 5), Err(TraceError::NotInvertible));
}

#[test]
fn world_without_light_cannot_shade() {
    let mut w = World::new();
    w.set_objects(vec![Shape::sphere()]);
    let r = Ray::new(point(0, 0, -5_000_000), vector(0, 0, 1_000_000));
    assert_eq!(w.is_shadowed(point(0, 0, 0)), Err(TraceError::MissingLight));
    assert_eq!(w.color_at(r, 5), Err(TraceError::MissingLight));
}

#[test]
fn world_without_light_still_sees_background() {
    // A ray that hits nothing resolves to black before any light is needed.
    let w = World::new();
    let r = Ray::new(point(0, 0, -5_000_000), vector(0, 1_000_000, 0));
    assert_eq!(w.color_at(r, 5), Ok(Pixel::black()));
}

#[test]
fn light_accessors() {
    let l = Light::point(point(1_000_000, 2_000_000, 3_000_000), Pixel::red());
    assert!(l.position() == point(1_000_000, 2_000_000, 3_000_000));
    assert!(l.intensity() == Pixel::red());
}

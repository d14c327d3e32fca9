use ray_tracer::{Matrix4x4, Scalar, TransformationBuilder, Tuple};

fn sc(millionths: i64) -> Scalar {
    Scalar::from_millionths(millionths)
}

fn point(x: i64, y: i64, z: i64) -> Tuple {
    Tuple::point(sc(x), sc(y), sc(z))
}

fn vector(x: i64, y: i64, z: i64) -> Tuple {
    Tuple::vector(sc(x), sc(y), sc(z))
}

// sin and cos of a quarter turn and of an eighth of a turn.
const SIN_PI_2: i64 = 1_000_000;
const COS_PI_2: i64 = 0;
const SIN_PI_4: i64 = 707_107;
const COS_PI_4: i64 = 707_107;

#[test]
fn translation() {
    {
        let transform = Matrix4x4::translation(sc(5_000_000), sc(-3_000_000), sc(2_000_000));
        let p = point(-3_000_000, 4_000_000, 5_000_000);
        assert!(transform.mul_tuple(&p).approx_eq(&point(2_000_000, 1_000_000, 7_000_000)));
    }

    {
        let transform = Matrix4x4::translation(sc(5_000_000), sc(-3_000_000), sc(2_000_000));
        let inv = transform.inverse().unwrap();
        let p = point(-3_000_000, 4_000_000, 5_000_000);
        assert!(inv.mul_tuple(&p).approx_eq(&point(-8_000_000, 7_000_000, 3_000_000)));
    }

    {
        let transform = Matrix4x4::translation(sc(5_000_000), sc(-3_000_000), sc(2_000_000));
        let v = vector(-3_000_000, 4_000_000, 5_000_000);
        assert!(transform.mul_tuple(&v).approx_eq(&v));
    }
}

#[test]
fn scaling() {
    {
        let transform = Matrix4x4::scaling(sc(2_000_000), sc(3_000_000), sc(4_000_000));
        let p = point(-4_000_000, 6_000_000, 8_000_000);
        assert!(transform.mul_tuple(&p).approx_eq(&point(-8_000_000, 18_000_000, 32_000_000)));
    }

    {
        let transform = Matrix4x4::scaling(sc(2_000_000), sc(3_000_000), sc(4_000_000));
        let v = vector(-4_000_000, 6_000_000, 8_000_000);
        assert!(transform.mul_tuple(&v).approx_eq(&vector(-8_000_000, 18_000_000, 32_000_000)));
    }

    {
        let transform = Matrix4x4::scaling(sc(2_000_000), sc(3_000_000), sc(4_000_000));
        let inv = transform.inverse().unwrap();
        let v = vector(-4_000_000, 6_000_000, 8_000_000);
        assert!(inv.mul_tuple(&v).approx_eq(&vector(-2_000_000, 2_000_000, 2_000_000)));
    }

    {
        let transform = Matrix4x4::scaling(sc(-1_000_000), sc(1_000_000), sc(1_000_000));
        let p = point(2_000_000, 3_000_000, 4_000_000);
        assert!(transform.mul_tuple(&p).approx_eq(&point(-2_000_000, 3_000_000, 4_000_000)));
    }
}

#[test]
fn rotation() {
    {
        let p = point(0, 1_000_000, 0);
        let half_quarter = Matrix4x4::rotation_x(sc(SIN_PI_4), sc(COS_PI_4));
        let full_quarter = Matrix4x4::rotation_x(sc(SIN_PI_2), sc(COS_PI_2));
        assert!(half_quarter.mul_tuple(&p).approx_eq(&point(0, 707_107, 707_107)));
        assert!(full_quarter.mul_tuple(&p).approx_eq(&point(0, 0, 1_000_000)));
    }

    {
        let p = point(0, 1_000_000, 0);
        let half_quarter = Matrix4x4::rotation_x(sc(SIN_PI_4), sc(COS_PI_4));
        let inv = half_quarter.inverse().unwrap();
        assert!(inv.mul_tuple(&p).approx_eq(&point(0, 707_107, -707_107)));
    }

    {
        let p = point(0, 0, 1_000_000);
        let half_quarter = Matrix4x4::rotation_y(sc(SIN_PI_4), sc(COS_PI_4));
        let full_quarter = Matrix4x4::rotation_y(sc(SIN_PI_2), sc(COS_PI_2));
        assert!(half_quarter.mul_tuple(&p).approx_eq(&point(707_107, 0, 707_107)));
        assert!(full_quarter.mul_tuple(&p).approx_eq(&point(1_000_000, 0, 0)));
    }

    {
        let p = point(0, 1_000_000, 0);
        let half_quarter = Matrix4x4::rotation_z(sc(SIN_PI_4), sc(COS_PI_4));
        let full_quarter = Matrix4x4::rotation_z(sc(SIN_PI_2), sc(COS_PI_2));
        assert!(half_quarter.mul_tuple(&p).approx_eq(&point(-707_107, 707_107, 0)));
        assert!(full_quarter.mul_tuple(&p).approx_eq(&point(-1_000_000, 0, 0)));
    }
}

#[test]
fn shearing() {
    let one = sc(1_000_000);
    let zero = sc(0);
    {
        let transform = Matrix4x4::shearing(one, zero, zero, zero, zero, zero);
        let p = point(2_000_000, 3_000_000, 4_000_000);
        assert!(transform.mul_tuple(&p).approx_eq(&point(5_000_000, 3_000_000, 4_000_000)));
    }

    {
        let transform = Matrix4x4::shearing(zero, one, zero, zero, zero, zero);
        let p = point(2_000_000, 3_000_000, 4_000_000);
        assert!(transform.mul_tuple(&p).approx_eq(&point(6_000_000, 3_000_000, 4_000_000)));
    }

    {
        let transform = Matrix4x4::shearing(zero, zero, one, zero, zero, zero);
        let p = point(2_000_000, 3_000_000, 4_000_000);
        assert!(transform.mul_tuple(&p).approx_eq(&point(2_000_000, 5_000_000, 4_000_000)));
    }

    {
        let transform = Matrix4x4::shearing(zero, zero, zero, one, zero, zero);
        let p = point(2_000_000, 3_000_000, 4_000_000);
        assert!(transform.mul_tuple(&p).approx_eq(&point(2_000_000, 7_000_000, 4_000_000)));
    }

    {
        let transform = Matrix4x4::shearing(zero, zero, zero, zero, one, zero);
        let p = point(2_000_000, 3_000_000, 4_000_000);
        assert!(transform.mul_tuple(&p).approx_eq(&point(2_000_000, 3_000_000, 6_000_000)));
    }

    {
        let transform = Matrix4x4::shearing(zero, zero, zero, zero, zero, one);
        let p = point(2_000_000, 3_000_000, 4_000_000);
        assert!(transform.mul_tuple(&p).approx_eq(&point(2_000_000, 3_000_000, 7_000_000)));
    }
}

#[test]
fn shaining() {
    {
        let p = point(1_000_000, 0, 1_000_000);
        let a = Matrix4x4::rotation_x(sc(SIN_PI_2), sc(COS_PI_2));
        let b = Matrix4x4::scaling(sc(5_000_000), sc(5_000_000), sc(5_000_000));
        let c = Matrix4x4::translation(sc(10_000_000), sc(5_000_000), sc(7_000_000));

        let p2 = a.mul_tuple(&p);
        assert!(p2.approx_eq(&point(1_000_000, -1_000_000, 0)));

        let p3 = b.mul_tuple(&p2);
        assert!(p3.approx_eq(&point(5_000_000, -5_000_000, 0)));

        let p4 = c.mul_tuple(&p3);
        assert!(p4.approx_eq(&point(15_000_000, 0, 7_000_000)));

        let t = c.mul(&b).mul(&a);
        assert!(t.mul_tuple(&p).approx_eq(&point(15_000_000, 0, 7_000_000)));
    }

    {
        let t = TransformationBuilder::new()
            .rotate_x(sc(SIN_PI_2), sc(COS_PI_2))
            .scale(sc(5_000_000), sc(5_000_000), sc(5_000_000))
            .translate(sc(10_000_000), sc(5_000_000), sc(7_000_000))
            .build();
        let p = point(1_000_000, 0, 1_000_000);
        assert!(t.mul_tuple(&p).approx_eq(&point(15_000_000, 0, 7_000_000)));
    }
}

use ray_tracer::{Scalar, Tuple};

fn sc(millionths: i64) -> Scalar {
    Scalar::from_millionths(millionths)
}

fn point(x: i64, y: i64, z: i64) -> Tuple {
    Tuple::point(sc(x), sc(y), sc(z))
}

fn vector(x: i64, y: i64, z: i64) -> Tuple {
    Tuple::vector(sc(x), sc(y), sc(z))
}

fn tuple(x: i64, y: i64, z: i64, w: i64) -> Tuple {
    Tuple::new(sc(x), sc(y), sc(z), sc(w))
}

#[test]
fn adding() {
    let a1 = tuple(3_000_000, -2_000_000, 5_000_000, 1_000_000);
    let a2 = tuple(-2_000_000, 3_000_000, 1_000_000, 0);
    let res = a1.add(a2);
    assert!(res.approx_eq(&tuple(1_000_000, 1_000_000, 6_000_000, 1_000_000)));
}

#[test]
fn subtracting() {
    let a1 = point(3_000_000, 2_000_000, 1_000_000);
    let a2 = point(5_000_000, 6_000_000, 7_000_000);
    let res = a1.sub(a2);
    assert!(res.approx_eq(&vector(-2_000_000, -4_000_000, -6_000_000)));

    {
        let p = point(3_000_000, 2_000_000, 1_000_000);
        let v = vector(5_000_000, 6_000_000, 7_000_000);
        assert!(p.sub(v).approx_eq(&point(-2_000_000, -4_000_000, -6_000_000)));
    }

    {
        let v1 = vector(3_000_000, 2_000_000, 1_000_000);
        let v2 = vector(5_000_000, 6_000_000, 7_000_000);
        assert!(v1.sub(v2).approx_eq(&vector(-2_000_000, -4_000_000, -6_000_000)));
    }

    {
        let zero = vector(0, 0, 0);
        let v = vector(1_000_000, -2_000_000, 3_000_000);
        assert!(zero.sub(v).approx_eq(&vector(-1_000_000, 2_000_000, -3_000_000)));
    }

    {
        let a = tuple(1_000_000, -2_000_000, 3_000_000, -4_000_000);
        assert!(a.neg().approx_eq(&tuple(-1_000_000, 2_000_000, -3_000_000, 4_000_000)));
    }
}

#[test]
fn mul() {
    {
        let a = tuple(1_000_000, -2_000_000, 3_000_000, -4_000_000);
        assert!(a.scale(sc(3_500_000)).approx_eq(&tuple(
            3_500_000,
            -7_000_000,
            10_500_000,
            -14_000_000
        )));
    }

    {
        let a = tuple(1_000_000, -2_000_000, 3_000_000, -4_000_000);
        assert!(a.scale(sc(500_000)).approx_eq(&tuple(
            500_000,
            -1_000_000,
            1_500_000,
            -2_000_000
        )));
    }

    {
        let a = tuple(1_000_000, -2_000_000, 3_000_000, -4_000_000);
        assert!(a.div_scalar(sc(2_000_000)).approx_eq(&tuple(
            500_000,
            -1_000_000,
            1_500_000,
            -2_000_000
        )));
    }
}

#[test]
fn magnitude() {
    {
        let v = vector(1_000_000, 0, 0);
        assert!(v.magnitude().approx_eq(sc(1_000_000)));
    }

    {
        let v = vector(0, 1_000_000, 0);
        assert!(v.magnitude().approx_eq(sc(1_000_000)));
    }

    {
        let v = vector(0, 0, 1_000_000);
        assert!(v.magnitude().approx_eq(sc(1_000_000)));
    }

    {
        // The square root of 14.
        let v = vector(1_000_000, 2_000_000, 3_000_000);
        assert!(v.magnitude().approx_eq(sc(3_741_657)));
    }

    {
        let v = vector(-1_000_000, -2_000_000, -3_000_000);
        assert!(v.magnitude().approx_eq(sc(3_741_657)));
    }
}

#[test]
fn normalize() {
    {
        let v = vector(4_000_000, 0, 0);
        assert!(v.normalize().approx_eq(&vector(1_000_000, 0, 0)));
    }

    {
        let v = vector(1_000_000, 2_000_000, 3_000_000);
        assert!(v.normalize().approx_eq(&vector(267_260, 534_520, 801_780)));
    }

    {
        let v = vector(1_000_000, 2_000_000, 3_000_000);
        let norm = v.normalize();
        assert!(norm.magnitude().approx_eq(sc(1_000_000)));
    }
}

#[test]
fn dot() {
    let a = vector(1_000_000, 2_000_000, 3_000_000);
    let b = vector(2_000_000, 3_000_000, 4_000_000);
    assert!(a.dot(&b).approx_eq(sc(20_000_000)));
}

#[test]
fn cross() {
    let a = vector(1_000_000, 2_000_000, 3_000_000);
    let b = vector(2_000_000, 3_000_000, 4_000_000);

    assert!(a.cross(&b).approx_eq(&vector(-1_000_000, 2_000_000, -1_000_000)));
    assert!(b.cross(&a).approx_eq(&vector(1_000_000, -2_000_000, 1_000_000)));
}

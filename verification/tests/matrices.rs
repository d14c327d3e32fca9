use ray_tracer::{Matrix2x2, Matrix3x3, Matrix4x4, Scalar, Tuple};

fn sc(millionths: i64) -> Scalar {
    Scalar::from_millionths(millionths)
}

fn m4(data: [i64; 16]) -> Matrix4x4 {
    Matrix4x4::new(data.map(sc))
}

fn m3(data: [i64; 9]) -> Matrix3x3 {
    Matrix3x3::new(data.map(sc))
}

fn m2(data: [i64; 4]) -> Matrix2x2 {
    Matrix2x2::new(data.map(sc))
}

fn tuple(x: i64, y: i64, z: i64, w: i64) -> Tuple {
    Tuple::new(sc(x), sc(y), sc(z), sc(w))
}

#[test]
fn creating4x4() {
    let m = m4([
        1_000_000, 2_000_000, 3_000_000, 4_000_000, 5_500_000, 6_500_000, 7_500_000, 8_500_000,
        9_000_000, 10_000_000, 11_000_000, 12_000_000, 13_500_000, 14_500_000, 15_500_000,
        16_500_000,
    ]);
    assert!(m.at(0, 0).approx_eq(sc(1_000_000)));
    assert!(m.at(0, 3).approx_eq(sc(4_000_000)));
    assert!(m.at(1, 0).approx_eq(sc(5_500_000)));
    assert!(m.at(1, 2).approx_eq(sc(7_500_000)));
    assert!(m.at(2, 2).approx_eq(sc(11_000_000)));
    assert!(m.at(3, 0).approx_eq(sc(13_500_000)));
    assert!(m.at(3, 2).approx_eq(sc(15_500_000)));
}

#[test]
fn creating2x2() {
    let m = m2([-3_000_000, 5_000_000, 1_000_000, -2_000_000]);
    assert!(m.at(0, 0).approx_eq(sc(-3_000_000)));
    assert!(m.at(0, 1).approx_eq(sc(5_000_000)));
    assert!(m.at(1, 0).approx_eq(sc(1_000_000)));
    assert!(m.at(1, 1).approx_eq(sc(-2_000_000)));
}

#[test]
fn creating3x3() {
    let m = m3([
        -3_000_000, 5_000_000, 0, 1_000_000, -2_000_000, -7_000_000, 0, 1_000_000, 1_000_000,
    ]);
    assert!(m.at(0, 0).approx_eq(sc(-3_000_000)));
    assert!(m.at(1, 1).approx_eq(sc(-2_000_000)));
    assert!(m.at(2, 2).approx_eq(sc(1_000_000)));
}

#[test]
fn matrices() {
    {
        let a = m4([
            1_000_000, 2_000_000, 3_000_000, 4_000_000, 5_000_000, 6_000_000, 7_000_000, 8_000_000,
            9_000_000, 8_000_000, 7_000_000, 6_000_000, 5_000_000, 4_000_000, 3_000_000, 2_000_000,
        ]);
        let b = m4([
            1_000_000, 2_000_000, 3_000_000, 4_000_000, 5_000_000, 6_000_000, 7_000_000, 8_000_000,
            9_000_000, 8_000_000, 7_000_000, 6_000_000, 5_000_000, 4_000_000, 3_000_000, 2_000_000,
        ]);
        assert!(a == b);
    }

    {
        let a = m4([
            1_000_000, 2_000_000, 3_000_000, 4_000_000, 5_000_000, 6_000_000, 7_000_000, 8_000_000,
            9_000_000, 8_000_000, 7_000_000, 6_000_000, 5_000_000, 4_000_000, 3_000_000, 2_000_000,
        ]);
        let b = m4([
            2_000_000, 3_000_000, 4_000_000, 5_000_000, 6_000_000, 7_000_000, 8_000_000, 9_000_000,
            8_000_000, 7_000_000, 6_000_000, 5_000_000, 4_000_000, 3_000_000, 2_000_000, 1_000_000,
        ]);
        assert!(a != b);
    }

    {
        let a = m4([
            1_000_000, 2_000_000, 3_000_000, 4_000_000, 5_000_000, 6_000_000, 7_000_000, 8_000_000,
            9_000_000, 8_000_000, 7_000_000, 6_000_000, 5_000_000, 4_000_000, 3_000_000, 2_000_000,
        ]);
        let b = m4([
            -2_000_000, 1_000_000, 2_000_000, 3_000_000, 3_000_000, 2_000_000, 1_000_000,
            -1_000_000, 4_000_000, 3_000_000, 6_000_000, 5_000_000, 1_000_000, 2_000_000,
            7_000_000, 8_000_000,
        ]);
        assert!(a.mul(&b).approx_eq(&m4([
            20_000_000, 22_000_000, 50_000_000, 48_000_000, 44_000_000, 54_000_000, 114_000_000,
            108_000_000, 40_000_000, 58_000_000, 110_000_000, 102_000_000, 16_000_000, 26_000_000,
            46_000_000, 42_000_000,
        ])));
    }

    {
        let a = m4([
            1_000_000, 2_000_000, 3_000_000, 4_000_000, 2_000_000, 4_000_000, 4_000_000, 2_000_000,
            8_000_000, 6_000_000, 4_000_000, 1_000_000, 0, 0, 0, 1_000_000,
        ]);
        let b = tuple(1_000_000, 2_000_000, 3_000_000, 1_000_000);
        assert!(a.mul_tuple(&b).approx_eq(&tuple(18_000_000, 24_000_000, 33_000_000, 1_000_000)));
    }

    {
        let a = m4([
            0, 1_000_000, 2_000_000, 4_000_000, 1_000_000, 2_000_000, 4_000_000, 8_000_000,
            2_000_000, 4_000_000, 8_000_000, 16_000_000, 4_000_000, 8_000_000, 16_000_000,
            32_000_000,
        ]);
        assert!(a.mul(&Matrix4x4::identity()).approx_eq(&a));
    }

    {
        let a = tuple(1_000_000, 2_000_000, 3_000_000, 4_000_000);
        assert!(Matrix4x4::identity().mul_tuple(&a) == a);
    }

    {
        let a = m4([
            0, 9_000_000, 3_000_000, 0, 9_000_000, 8_000_000, 0, 8_000_000, 1_000_000, 8_000_000,
            5_000_000, 3_000_000, 0, 0, 5_000_000, 8_000_000,
        ]);
        assert!(
            a.transpose() == m4([
                0, 9_000_000, 1_000_000, 0, 9_000_000, 8_000_000, 8_000_000, 0, 3_000_000, 0,
                5_000_000, 5_000_000, 0, 8_000_000, 3_000_000, 8_000_000,
            ])
        );
    }

    {
        let a = Matrix4x4::identity();
        assert!(a.transpose() == a);
    }
}

#[test]
fn inverse() {
    {
        let a = m2([1_000_000, 5_000_000, -3_000_000, 2_000_000]);
        assert!(a.determinant().approx_eq(sc(17_000_000)));
    }

    {
        let a = m3([
            1_000_000, 5_000_000, 0, -3_000_000, 2_000_000, 7_000_000, 0, 6_000_000, -3_000_000,
        ]);
        assert!(a.submatrix(0, 2) == m2([-3_000_000, 2_000_000, 0, 6_000_000]));
    }

    {
        let a = m4([
            -6_000_000, 1_000_000, 1_000_000, 6_000_000, -8_000_000, 5_000_000, 8_000_000,
            6_000_000, -1_000_000, 0, 8_000_000, 2_000_000, -7_000_000, 1_000_000, -1_000_000,
            1_000_000,
        ]);
        assert!(
            a.submatrix(2, 1) == m3([
                -6_000_000, 1_000_000, 6_000_000, -8_000_000, 8_000_000, 6_000_000, -7_000_000,
                -1_000_000, 1_000_000,
            ])
        );
    }

    {
        let a = m3([
            3_000_000, 5_000_000, 0, 2_000_000, -1_000_000, -7_000_000, 6_000_000, -1_000_000,
            5_000_000,
        ]);
        let b = a.submatrix(1, 0);
        assert!(b.determinant().approx_eq(sc(25_000_000)));
        assert!(a.minor(1, 0).approx_eq(sc(25_000_000)));
    }

    {
        let a = m3([
            3_000_000, 5_000_000, 0, 2_000_000, -1_000_000, -7_000_000, 6_000_000, -1_000_000,
            5_000_000,
        ]);
        assert!(a.minor(0, 0).approx_eq(sc(-12_000_000)));
        assert!(a.cofactor(0, 0).approx_eq(sc(-12_000_000)));
        assert!(a.minor(1, 0).approx_eq(sc(25_000_000)));
        assert!(a.cofactor(1, 0).approx_eq(sc(-25_000_000)));
    }

    {
        let a = m3([
            1_000_000, 2_000_000, 6_000_000, -5_000_000, 8_000_000, -4_000_000, 2_000_000,
            6_000_000, 4_000_000,
        ]);
        assert!(a.cofactor(0, 0).approx_eq(sc(56_000_000)));
        assert!(a.cofactor(0, 1).approx_eq(sc(12_000_000)));
        assert!(a.cofactor(0, 2).approx_eq(sc(-46_000_000)));
        assert!(a.determinant().approx_eq(sc(-196_000_000)));
    }

    {
        let a = m4([
            -2_000_000, -8_000_000, 3_000_000, 5_000_000, -3_000_000, 1_000_000, 7_000_000,
            3_000_000, 1_000_000, 2_000_000, -9_000_000, 6_000_000, -6_000_000, 7_000_000,
            7_000_000, -9_000_000,
        ]);
        assert!(a.cofactor(0, 0).approx_eq(sc(690_000_000)));
        assert!(a.cofactor(0, 1).approx_eq(sc(447_000_000)));
        assert!(a.cofactor(0, 2).approx_eq(sc(210_000_000)));
        assert!(a.cofactor(0, 3).approx_eq(sc(51_000_000)));
        assert!(a.determinant().approx_eq(sc(-4_071_000_000)));
    }

    {
        let a = m4([
            6_000_000, 4_000_000, 4_000_000, 4_000_000, 5_000_000, 5_000_000, 7_000_000, 6_000_000,
            4_000_000, -9_000_000, 3_000_000, -7_000_000, 9_000_000, 1_000_000, 7_000_000,
            -6_000_000,
        ]);
        assert!(a.determinant().approx_eq(sc(-2_120_000_000)));
        assert!(a.invertible());
    }

    {
        let a = m4([
            -4_000_000, 2_000_000, -2_000_000, -3_000_000, 9_000_000, 6_000_000, 2_000_000,
            6_000_000, 0, -5_000_000, 1_000_000, -5_000_000, 0, 0, 0, 0,
        ]);
        assert!(a.determinant().approx_eq(sc(0)));
        assert!(!a.invertible());
    }

    {
        let a = m4([
            -5_000_000, 2_000_000, 6_000_000, -8_000_000, 1_000_000, -5_000_000, 1_000_000,
            8_000_000, 7_000_000, 7_000_000, -6_000_000, -7_000_000, 1_000_000, -3_000_000,
            7_000_000, 4_000_000,
        ]);
        let b = a.inverse().unwrap();
        assert!(a.determinant().approx_eq(sc(532_000_000)));
        assert!(a.cofactor(2, 3).approx_eq(sc(-160_000_000)));
        // -160 / 532
        assert!(b.at(3, 2).approx_eq(sc(-300_752)));
        assert!(a.cofactor(3, 2).approx_eq(sc(105_000_000)));
        // 105 / 532
        assert!(b.at(2, 3).approx_eq(sc(197_368)));
        assert!(b.approx_eq(&m4([
            218_050, 451_130, 240_600, -45_110, -808_270, -1_456_770, -443_610, 520_680, -78_950,
            -223_680, -52_630, 197_370, -522_560, -813_910, -300_750, 306_390,
        ])));
    }

    {
        let a = m4([
            8_000_000, -5_000_000, 9_000_000, 2_000_000, 7_000_000, 5_000_000, 6_000_000,
            1_000_000, -6_000_000, 0, 9_000_000, 6_000_000, -3_000_000, 0, -9_000_000, -4_000_000,
        ]);
        assert!(a.inverse().unwrap().approx_eq(&m4([
            -153_850, -153_850, -282_050, -538_460, -76_920, 123_080, 25_640, 30_770, 358_970,
            358_970, 435_900, 923_080, -692_310, -692_310, -769_230, -1_923_080,
        ])));
    }

    {
        let a = m4([
            9_000_000, 3_000_000, 0, 9_000_000, -5_000_000, -2_000_000, -6_000_000, -3_000_000,
            -4_000_000, 9_000_000, 6_000_000, 4_000_000, -7_000_000, 6_000_000, 6_000_000,
            2_000_000,
        ]);
        assert!(a.inverse().unwrap().approx_eq(&m4([
            -40_740, -77_780, 144_440, -222_220, -77_780, 33_330, 366_670, -333_330, -29_010,
            -146_300, -109_260, 129_630, 177_780, 66_670, -266_670, 333_330,
        ])));
    }

    {
        // The round trip: multiplying by a matrix and then by its inverse
        // returns to the start, within the tolerance.
        let a = m4([
            3_000_000, -9_000_000, 7_000_000, 3_000_000, 3_000_000, -8_000_000, 2_000_000,
            -9_000_000, -4_000_000, 4_000_000, 4_000_000, 1_000_000, -6_000_000, 5_000_000,
            -1_000_000, 1_000_000,
        ]);
        let b = m4([
            8_000_000, 2_000_000, 2_000_000, 2_000_000, 3_000_000, -1_000_000, 7_000_000, 0,
            7_000_000, 0, 5_000_000, 4_000_000, 6_000_000, -2_000_000, 0, 5_000_000,
        ]);
        let c = a.mul(&b);
        assert!(c.mul(&b.inverse().unwrap()).approx_eq(&a));
    }
}

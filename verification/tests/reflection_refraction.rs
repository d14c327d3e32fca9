use ray_tracer::{
    Intersection, Light, Matrix4x4, Pattern, Pixel, Ray, Scalar, Shape, Tuple, World,
};

fn sc(millionths: i64) -> Scalar {
    Scalar::from_millionths(millionths)
}

fn point(x: i64, y: i64, z: i64) -> Tuple {
    Tuple::point(sc(x), sc(y), sc(z))
}

fn vector(x: i64, y: i64, z: i64) -> Tuple {
    Tuple::vector(sc(x), sc(y), sc(z))
}

fn rgb(r: i64, g: i64, b: i64) -> Pixel {
    Pixel::rgb(sc(r), sc(g), sc(b))
}

fn glass_sphere() -> Shape {
    let mut shape = Shape::sphere();
    let mut mat = shape.material();
    mat.set_transparency(sc(1_000_000));
    mat.set_refractive_index(sc(1_500_000));
    shape.set_material(mat);
    shape
}

const SQ2: i64 = 1_414_214;
const SQ2_2: i64 = 707_107;

#[test]
fn reflection() {
    {
        let m = ray_tracer::Material::default();
        assert!(m.reflective().approx_eq(sc(0)));
    }

    {
        let shape = Shape::plane();
        let r = Ray::new(point(0, 1_000_000, -1_000_000), vector(0, -SQ2_2, SQ2_2));
        let i = Intersection::new(sc(SQ2), shape);
        let comps = i.prepare_computations(r, vec![i]).unwrap();
        assert!(comps.reflectv().approx_eq(&vector(0, SQ2_2, SQ2_2)));
    }

    {
        let w = World::default();
        let r = Ray::new(point(0, 0, 0), vector(0, 0, 1_000_000));
        let mut shape = w.objects()[1];
        let mut shape_mat = shape.material();
        shape_mat.set_ambient(sc(1_000_000));
        shape.set_material(shape_mat);
        let i = Intersection::new(sc(1_000_000), shape);
        let comps = i.prepare_computations(r, vec![i]).unwrap();
        let color = w.reflected_color(comps, 5).unwrap();
        assert!(color.approx_eq(&Pixel::black()));
    }

    {
        let mut w = World::default();
        let mut objs = w.objects();
        let mut shape = Shape::plane();
        let mut shape_mat = shape.material();
        shape_mat.set_reflective(sc(500_000));
        shape.set_material(shape_mat);
        shape.set_transform(Matrix4x4::translation(sc(0), sc(-1_000_000), sc(0)));
        objs.push(shape);
        w.set_objects(objs);

        let r = Ray::new(point(0, 0, -3_000_000), vector(0, -SQ2_2, SQ2_2));
        let i = Intersection::new(sc(SQ2), shape);
        let comps = i.prepare_computations(r, vec![i]).unwrap();
        let color = w.reflected_color(comps, 5).unwrap();
        assert!(color.approx_eq(&rgb(190_320, 237_900, 142_740)));
    }

    {
        let mut w = World::default();
        let mut objs = w.objects();
        let mut shape = Shape::plane();
        let mut shape_mat = shape.material();
        shape_mat.set_reflective(sc(500_000));
        shape.set_material(shape_mat);
        shape.set_transform(Matrix4x4::translation(sc(0), sc(-1_000_000), sc(0)));
        objs.push(shape);
        w.set_objects(objs);

        let r = Ray::new(point(0, 0, -3_000_000), vector(0, -SQ2_2, SQ2_2));
        let i = Intersection::new(sc(SQ2), shape);
        let comps = i.prepare_computations(r, vec![i]).unwrap();
        let color = w.shade_hit(comps, 5).unwrap();
        assert!(color.approx_eq(&rgb(876_770, 924_360, 829_180)));
    }

    {
        // Two parallel fully reflective planes: the recursion budget still
        // makes color_at terminate.
        let mut w = World::new();
        w.set_light(Light::point(point(0, 0, 0), Pixel::white()));
        let mut lower = Shape::plane();
        let mut shape_mat = lower.material();
        shape_mat.set_reflective(sc(1_000_000));
        lower.set_material(shape_mat);
        lower.set_transform(Matrix4x4::translation(sc(0), sc(-1_000_000), sc(0)));
        let mut upper = Shape::plane();
        upper.set_material(shape_mat);
        upper.set_transform(Matrix4x4::translation(sc(0), sc(1_000_000), sc(0)));
        w.set_objects(vec![upper, lower]);

        let r = Ray::new(point(0, 0, 0), vector(0, 1_000_000, 0));
        let _ = w.color_at(r, 5).unwrap();
    }

    {
        let mut w = World::default();
        let mut objs = w.objects();
        let mut shape = Shape::plane();
        let mut shape_mat = shape.material();
        shape_mat.set_reflective(sc(500_000));
        shape.set_material(shape_mat);
        shape.set_transform(Matrix4x4::translation(sc(0), sc(-1_000_000), sc(0)));
        objs.push(shape);
        w.set_objects(objs);

        let r = Ray::new(point(0, 0, -3_000_000), vector(0, -SQ2_2, SQ2_2));
        let i = Intersection::new(sc(SQ2), shape);
        let comps = i.prepare_computations(r, vec![i]).unwrap();
        let color = w.reflected_color(comps, 0).unwrap();
        assert!(color.approx_eq(&Pixel::black()));
    }
}

#[test]
fn transparency_and_refraction() {
    {
        let m = ray_tracer::Material::default();
        assert!(m.transparency().approx_eq(sc(0)));
        assert!(m.refractive_index().approx_eq(sc(1_000_000)));
    }

    {
        let s = glass_sphere();
        assert!(s.transform() == Matrix4x4::identity());
        assert!(s.material().transparency().approx_eq(sc(1_000_000)));
        assert!(s.material().refractive_index().approx_eq(sc(1_500_000)));
    }

    {
        let mut a = glass_sphere();
        a.set_transform(Matrix4x4::scaling(sc(2_000_000), sc(2_000_000), sc(2_000_000)));
        let mut a_mat = a.material();
        a_mat.set_refractive_index(sc(1_500_000));
        a.set_material(a_mat);

        let mut b = glass_sphere();
        b.set_transform(Matrix4x4::translation(sc(0), sc(0), sc(-250_000)));
        let mut b_mat = b.material();
        b_mat.set_refractive_index(sc(2_000_000));
        b.set_material(b_mat);

        let mut c = glass_sphere();
        c.set_transform(Matrix4x4::translation(sc(0), sc(0), sc(250_000)));
        let mut c_mat = c.material();
        c_mat.set_refractive_index(sc(2_500_000));
        c.set_material(c_mat);

        let r = Ray::new(point(0, 0, -4_000_000), vector(0, 0, 1_000_000));
        let xs = vec![
            Intersection::new(sc(2_000_000), a),
            Intersection::new(sc(2_750_000), b),
            Intersection::new(sc(3_250_000), c),
            Intersection::new(sc(4_750_000), b),
            Intersection::new(sc(5_250_000), c),
            Intersection::new(sc(6_000_000), a),
        ];

        let expected: Vec<(i64, i64)> = vec![
            (1_000_000, 1_500_000),
            (1_500_000, 2_000_000),
            (2_000_000, 2_500_000),
            (2_500_000, 2_500_000),
            (2_500_000, 1_500_000),
            (1_500_000, 1_000_000),
        ];

        for (k, x) in xs.clone().into_iter().enumerate() {
            let comps = x.prepare_computations(r, xs.clone()).unwrap();
            assert!(comps.n1().approx_eq(sc(expected[k].0)));
            assert!(comps.n2().approx_eq(sc(expected[k].1)));
        }
    }

    {
        let r = Ray::new(point(0, 0, -5_000_000), vector(0, 0, 1_000_000));
        let mut shape = glass_sphere();
        shape.set_transform(Matrix4x4::translation(sc(0), sc(0), sc(1_000_000)));
        let i = Intersection::new(sc(5_000_000), shape);
        let xs = vec![i];
        let comps = i.prepare_computations(r, xs).unwrap();
        // Half the tolerance, in raw units.
        assert!(comps.under_point().get_z().raw > 50);
        assert!(comps.point().get_z().raw < comps.under_point().get_z().raw);
    }

    {
        let w = World::default();
        let shape = w.objects()[0];

        let r = Ray::new(point(0, 0, -5_000_000), vector(0, 0, 1_000_000));
        let xs = vec![
            Intersection::new(sc(4_000_000), shape),
            Intersection::new(sc(6_000_000), shape),
        ];
        let comps = xs[0].clone().prepare_computations(r, xs).unwrap();
        let c = w.refracted_color(comps, 5).unwrap();
        assert!(c.approx_eq(&Pixel::black()));
    }

    {
        let mut w = World::default();
        let mut objs = w.objects();
        let mut mat = objs[0].material();
        mat.set_transparency(sc(1_000_000));
        mat.set_refractive_index(sc(1_500_000));
        objs[0].set_material(mat);
        w.set_objects(objs.clone());

        let r = Ray::new(point(0, 0, -5_000_000), vector(0, 0, 1_000_000));
        let xs = vec![
            Intersection::new(sc(4_000_000), objs[0]),
            Intersection::new(sc(6_000_000), objs[0]),
        ];
        let comps = xs[0].clone().prepare_computations(r, xs).unwrap();
        let c = w.refracted_color(comps, 0).unwrap();
        assert!(c.approx_eq(&Pixel::black()));
    }

    {
        let mut w = World::default();
        let mut objs = w.objects();
        let mut mat = objs[0].material();
        mat.set_transparency(sc(1_000_000));
        mat.set_refractive_index(sc(1_500_000));
        objs[0].set_material(mat);
        w.set_objects(objs.clone());

        let r = Ray::new(point(0, 0, SQ2_2), vector(0, 1_000_000, 0));
        let xs = vec![
            Intersection::new(sc(-SQ2_2), objs[0]),
            Intersection::new(sc(SQ2_2), objs[0]),
        ];

        let comps = xs[1].clone().prepare_computations(r, xs).unwrap();
        let c = w.refracted_color(comps, 5).unwrap();
        assert!(c.approx_eq(&Pixel::black()));
    }

    {
        let mut w = World::default();
        let mut objs = w.objects();
        let mut mat_a = objs[0].material();
        mat_a.set_ambient(sc(1_000_000));
        mat_a.set_pattern(Pattern::test());
        objs[0].set_material(mat_a);

        let mut mat_b = objs[1].material();
        mat_b.set_transparency(sc(1_000_000));
        mat_b.set_refractive_index(sc(1_500_000));
        objs[1].set_material(mat_b);

        w.set_objects(objs.clone());

        let r = Ray::new(point(0, 0, 100_000), vector(0, 1_000_000, 0));
        let xs = vec![
            Intersection::new(sc(-989_900), objs[0].clone()),
            Intersection::new(sc(-489_900), objs[1].clone()),
            Intersection::new(sc(489_900), objs[1].clone()),
            Intersection::new(sc(989_900), objs[0].clone()),
        ];
        let comps = xs[2].clone().prepare_computations(r, xs).unwrap();
        let c = w.refracted_color(comps, 5).unwrap();
        assert!(c.approx_eq(&rgb(0, 998_880, 47_250)));
    }

    {
        let mut w = World::default();
        let mut objs = w.objects();

        let mut floor = Shape::plane();
        floor.set_transform(Matrix4x4::translation(sc(0), sc(-1_000_000), sc(0)));
        let mut floor_mat = floor.material();
        floor_mat.set_transparency(sc(500_000));
        floor_mat.set_refractive_index(sc(1_500_000));
        floor.set_material(floor_mat);
        objs.push(floor);

        let mut ball = Shape::sphere();
        let mut ball_mat = ball.material();
        ball_mat.set_color(Pixel::red());
        ball_mat.set_ambient(sc(500_000));
        ball.set_material(ball_mat);
        ball.set_transform(Matrix4x4::translation(sc(0), sc(-3_500_000), sc(-500_000)));
        objs.push(ball);

        w.set_objects(objs);

        let r = Ray::new(point(0, 0, -3_000_000), vector(0, -SQ2_2, SQ2_2));
        let xs = vec![Intersection::new(sc(SQ2), floor)];
        let comps = xs[0].clone().prepare_computations(r, xs).unwrap();
        let color = w.shade_hit(comps, 5).unwrap();
        assert!(color.approx_eq(&rgb(936_420, 686_420, 686_420)));
    }
}

#[test]
fn frenel_effect() {
    {
        let shape = glass_sphere();
        let r = Ray::new(point(0, 0, SQ2_2), vector(0, 1_000_000, 0));
        let xs = vec![
            Intersection::new(sc(-SQ2_2), shape),
            Intersection::new(sc(SQ2_2), shape),
        ];
        let comps = xs[1].clone().prepare_computations(r, xs).unwrap();
        let reflectance = comps.schlick();
        assert!(reflectance.approx_eq(sc(1_000_000)));
    }

    {
        let shape = glass_sphere();
        let r = Ray::new(point(0, 0, 0), vector(0, 1_000_000, 0));
        let xs = vec![
            Intersection::new(sc(-1_000_000), shape),
            Intersection::new(sc(1_000_000), shape),
        ];
        let comps = xs[1].clone().prepare_computations(r, xs).unwrap();
        let reflectance = comps.schlick();
        assert!(reflectance.approx_eq(sc(40_000)));
    }

    {
        let shape = glass_sphere();
        let r = Ray::new(point(0, 990_000, -2_000_000), vector(0, 0, 1_000_000));
        let xs = vec![Intersection::new(sc(1_858_900), shape)];
        let comps = xs[0].clone().prepare_computations(r, xs).unwrap();
        let reflectance = comps.schlick();
        assert!(reflectance.approx_eq(sc(488_730)));
    }

    {
        let mut w = World::default();
        let r = Ray::new(point(0, 0, -3_000_000), vector(0, -SQ2_2, SQ2_2));

        let mut floor = Shape::plane();
        floor.set_transform(Matrix4x4::translation(sc(0), sc(-1_000_000), sc(0)));
        let mut floor_mat = floor.material();
        floor_mat.set_reflective(sc(500_000));
        floor_mat.set_transparency(sc(500_000));
        floor_mat.set_refractive_index(sc(1_500_000));
        floor.set_material(floor_mat);

        let mut ball = Shape::sphere();
        ball.set_transform(Matrix4x4::translation(sc(0), sc(-3_500_000), sc(-500_000)));
        let mut ball_mat = ball.material();
        ball_mat.set_color(Pixel::red());
        ball_mat.set_ambient(sc(500_000));
        ball.set_material(ball_mat);

        let mut objs = w.objects();
        objs.append(&mut vec![floor, ball]);
        w.set_objects(objs);

        let xs = vec![Intersection::new(sc(SQ2), floor)];
        let comps = xs[0].clone().prepare_computations(r, xs).unwrap();
        let color = w.shade_hit(comps, 5).unwrap();
        assert!(color.approx_eq(&rgb(933_910, 696_430, 692_430)));
    }
}

use ray_tracer::{Line, LineKind, Point2, Rgba, Scalar, ShaderInputs, ShaderLine, Vec4};

fn point(x: f32, y: f32) -> Point2 {
    Point2::from_bits(x.to_bits(), y.to_bits())
}

fn rgba(r: f32, g: f32, b: f32, a: f32) -> Rgba {
    Rgba::from_bits(r.to_bits(), g.to_bits(), b.to_bits(), a.to_bits())
}

#[test]
fn solid_line_projects_to_zero_colour_and_flag_zero() {
    let line = Line::new(point(-100.0, 100.0), point(-150.0, 200.0), LineKind::Solid);
    let gpu = line.to_gpu();
    assert_eq!(
        gpu,
        ShaderLine {
            a: point(-100.0, 100.0),
            b: point(-150.0, 200.0),
            color: Vec4::zero(),
            mirror: 0,
        }
    );
    assert_eq!(gpu.color.x.to_bits(), 0);
    assert_eq!(gpu.color.y.to_bits(), 0);
    assert_eq!(gpu.color.z.to_bits(), 0);
    assert_eq!(gpu.color.w.to_bits(), 0);
}

#[test]
fn mirror_line_projects_to_its_colour_and_flag_one() {
    let red = rgba(1.0, 0.0, 0.0, 1.0);
    let line = Line::new(point(100.0, 100.0), point(150.0, 200.0), LineKind::Mirror(red));
    let gpu = line.to_gpu();
    assert_eq!(gpu.a, point(100.0, 100.0));
    assert_eq!(gpu.b, point(150.0, 200.0));
    assert_eq!(gpu.mirror, 1);
    assert_eq!(gpu.color, red.to_vec4());
    assert_eq!(f32::from_bits(gpu.color.x.to_bits()), 1.0);
    assert_eq!(f32::from_bits(gpu.color.y.to_bits()), 0.0);
    assert_eq!(f32::from_bits(gpu.color.z.to_bits()), 0.0);
    assert_eq!(f32::from_bits(gpu.color.w.to_bits()), 1.0);
}

#[test]
fn colour_is_packed_red_green_blue_alpha() {
    let c = rgba(0.25, 0.5, 0.75, 1.0);
    let v = c.to_vec4();
    assert_eq!(v.x, c.r);
    assert_eq!(v.y, c.g);
    assert_eq!(v.z, c.b);
    assert_eq!(v.w, c.a);
    assert_eq!(v.x.to_bits(), 0x3e80_0000);
    assert_eq!(v.y.to_bits(), 0x3f00_0000);
    assert_eq!(v.z.to_bits(), 0x3f40_0000);
    assert_eq!(v.w.to_bits(), 0x3f80_0000);
}

#[test]
fn black_transparent_mirror_differs_from_solid() {
    let a = point(0.0, 0.0);
    let b = point(1.0, 1.0);
    let solid = Line::new(a, b, LineKind::Solid).to_gpu();
    let mirror = Line::new(a, b, LineKind::Mirror(rgba(0.0, 0.0, 0.0, 0.0))).to_gpu();
    assert_eq!(solid.color, mirror.color);
    assert_eq!(solid.mirror, 0);
    assert_eq!(mirror.mirror, 1);
    assert_ne!(solid, mirror);
}

#[test]
fn projection_keeps_every_bit_of_the_end_points() {
    let nan = 0x7fc0_1234u32;
    let negative_zero = 0x8000_0000u32;
    let line = Line::new(
        Point2::from_bits(nan, negative_zero),
        Point2::from_bits(u32::MAX, 1),
        LineKind::Solid,
    );
    let gpu = line.to_gpu();
    assert_eq!(gpu.a.x.to_bits(), nan);
    assert_eq!(gpu.a.y.to_bits(), negative_zero);
    assert_eq!(gpu.b.x.to_bits(), u32::MAX);
    assert_eq!(gpu.b.y.to_bits(), 1);
}

#[test]
fn default_line_kind_is_solid() {
    assert_eq!(LineKind::default(), LineKind::Solid);
}

#[test]
fn default_shader_inputs_put_the_player_at_the_origin() {
    let inputs = ShaderInputs::default();
    assert_eq!(inputs.player, Point2::origin());
    assert_eq!(f32::from_bits(inputs.player.x.to_bits()), 0.0);
    assert_eq!(f32::from_bits(inputs.player.y.to_bits()), 0.0);
}

#[test]
fn scalars_round_trip_through_their_bits() {
    let s = Scalar::from_bits((-150.0f32).to_bits());
    assert_eq!(f32::from_bits(s.to_bits()), -150.0);
    assert_eq!(Scalar::zero().to_bits(), 0);
    assert_eq!(Point2::new(s, Scalar::zero()), point(-150.0, 0.0));
    let c = Rgba::new(s, s, Scalar::zero(), s);
    assert_eq!(c, rgba(-150.0, -150.0, 0.0, -150.0));
}

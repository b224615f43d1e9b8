use drawcore::{Rectangle, TessMode, Tessellation, Defaults};
use notan_graphics::color::Color;
use notan_graphics::pipeline::BlendMode;
use notan_math::Mat3;

fn defaults() -> Defaults<f32> {
    Defaults { zero: 0.0, one: 1.0, tolerance: 0.1, color: Color::WHITE }
}

fn red() -> Color {
    Color::new(1.0, 0.0, 0.0, 0.5)
}

#[test]
fn plain_fill_is_a_quad_with_corner_colors_in_order() {
    let c = [
        Color::new(1.0, 0.0, 0.0, 1.0),
        Color::new(0.0, 1.0, 0.0, 1.0),
        Color::new(0.0, 0.0, 1.0, 1.0),
        Color::new(0.5, 0.5, 0.5, 1.0),
    ];
    let mut r = Rectangle::new((1.0, 2.0), (3.0, 4.0), defaults());
    r.color_vertex(c[0], c[1], c[2], c[3]).alpha(0.5);
    let job = r.draw_process();
    assert_eq!(job.alpha, 0.5);
    assert!(job.transform.is_none());
    assert!(job.blend_mode.is_none());
    match job.tessellation {
        Tessellation::Quad { x, y, width, height, colors } => {
            assert_eq!((x, y, width, height), (1.0, 2.0, 3.0, 4.0));
            assert_eq!(colors, c);
        }
        _ => panic!("expected the quad"),
    }
}

#[test]
fn new_rectangle_is_white_and_opaque() {
    let job = Rectangle::new((0.0, 0.0), (1.0, 1.0), defaults()).draw_process();
    assert_eq!(job.alpha, 1.0);
    match job.tessellation {
        Tessellation::Quad { colors, .. } => assert_eq!(colors, [Color::WHITE; 4]),
        _ => panic!("expected the quad"),
    }
}

#[test]
fn top_left_radius_is_written_back() {
    let mut r = Rectangle::new((0.0, 0.0), (20.0, 10.0), defaults());
    r.top_left_radius(5.0);
    match r.draw_process().tessellation {
        Tessellation::RoundedFill { radii, .. } => assert_eq!(radii, [5.0, 0.0, 0.0, 0.0]),
        _ => panic!("expected the rounded fill"),
    }
}

#[test]
fn each_corner_setter_keeps_the_others() {
    let mut r = Rectangle::new((0.0, 0.0), (20.0, 10.0), defaults());
    r.top_right_radius(1.0).bottom_left_radius(2.0).bottom_right_radius(3.0).top_left_radius(4.0);
    match r.draw_process().tessellation {
        Tessellation::RoundedFill { radii, .. } => assert_eq!(radii, [4.0, 1.0, 2.0, 3.0]),
        _ => panic!("expected the rounded fill"),
    }
}

#[test]
fn zero_radii_still_take_the_rounded_path() {
    let mut r = Rectangle::new((0.0, 0.0), (20.0, 10.0), defaults());
    r.corner_radius(0.0).corner_tolerance(0.01).color(red());
    match r.draw_process().tessellation {
        Tessellation::RoundedFill { radii, tolerance, color, .. } => {
            assert_eq!(radii, [0.0; 4]);
            assert_eq!(tolerance, 0.01);
            assert_eq!(color, red());
        }
        _ => panic!("expected the rounded fill"),
    }
}

#[test]
fn stroke_uses_first_color_and_width() {
    let mut r = Rectangle::new((1.0, 1.0), (5.0, 6.0), defaults());
    r.color_vertex(red(), Color::WHITE, Color::WHITE, Color::WHITE).stroke(3.0).alpha(0.25);
    let job = r.draw_process();
    assert_eq!(job.alpha, 0.25);
    match job.tessellation {
        Tessellation::Stroke { x, y, width, height, corners, line_width, tolerance, color } => {
            assert_eq!((x, y, width, height), (1.0, 1.0, 5.0, 6.0));
            assert_eq!(corners, None);
            assert_eq!(line_width, 3.0);
            assert_eq!(tolerance, 0.1);
            assert_eq!(color, red());
        }
        _ => panic!("expected the stroke"),
    }
}

#[test]
fn rounded_stroke_keeps_radii_and_fill_switches_back() {
    let mut r = Rectangle::new((0.0, 0.0), (8.0, 8.0), defaults());
    r.corner_radius(2.0).stroke(1.5);
    match r.draw_process().tessellation {
        Tessellation::Stroke { corners, line_width, .. } => {
            assert_eq!(corners, Some([2.0; 4]));
            assert_eq!(line_width, 1.5);
        }
        _ => panic!("expected the stroke"),
    }
    let mut q = Rectangle::new((0.0, 0.0), (8.0, 8.0), defaults());
    q.stroke(2.0).fill();
    assert!(matches!(q.draw_process().tessellation, Tessellation::Quad { .. }));
}

#[test]
fn blend_mode_and_matrix_are_carried() {
    let mut r = Rectangle::new((0.0, 0.0), (8.0, 8.0), defaults());
    r.blend_mode(BlendMode::ADD);
    *r.matrix() = Some(Mat3::IDENTITY);
    let job = r.draw_process();
    assert_eq!(job.blend_mode, Some(BlendMode::ADD));
    assert_eq!(job.transform, Some(Mat3::IDENTITY));
}

#[test]
fn tess_mode_compares() {
    assert_ne!(TessMode::Fill, TessMode::Stroke);
}

#[test]
fn new_rectangle_takes_the_default_color_on_every_corner() {
    let d = Defaults { zero: 0.0, one: 1.0, tolerance: 0.1, color: red() };
    match Rectangle::new((0.0, 0.0), (2.0, 2.0), d).draw_process().tessellation {
        Tessellation::Quad { colors, .. } => assert_eq!(colors, [red(); 4]),
        _ => panic!("expected the quad"),
    }
}

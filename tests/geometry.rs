use lyon::math::{point, rect};
use lyon::tessellation::basic_shapes::{fill_circle, fill_rectangle};
use lyon::tessellation::{BuffersBuilder, FillOptions, FillVertex, VertexBuffers};
use shape_geometry::{lyon_vbuff_to_vertex, GeomTypes, Geometry, LyonVertex, PathOp};

type Color = [f32; 4];
const RED: Color = [1.0, 0.0, 0.0, 1.0];
const BLUE: Color = [0.0, 0.0, 1.0, 1.0];

fn lyon_fill(shapes: Vec<GeomTypes<f32>>) -> Result<Vec<(f32, f32)>, String> {
    let mut output: VertexBuffers<(f32, f32), u16> = VertexBuffers::new();
    {
        let mut builder =
            BuffersBuilder::new(&mut output, |v: FillVertex| (v.position.x, v.position.y));
        let opts = FillOptions::tolerance(0.01);
        for g in shapes.iter() {
            let res = match g {
                GeomTypes::Circle { x, y, radius } => {
                    fill_circle(point(*x, *y), *radius, &opts, &mut builder)
                }
                GeomTypes::Rect { x, y, width, height } => {
                    fill_rectangle(&rect(*x, *y, *width, *height), &opts, &mut builder)
                }
                _ => return Err("unsupported shape".to_string()),
            };
            res.map_err(|e| format!("{:?}", e))?;
        }
    }
    Ok(lyon_vbuff_to_vertex(&output.vertices, &output.indices))
}

/// Fills with a tessellator that records the shapes it was handed and emits
/// one triangle per shape.
fn capture(g: &mut Geometry<f32, Color>, color: Color) -> Vec<GeomTypes<f32>> {
    let mut seen = Vec::new();
    let r: Result<(), String> = g.fill(color, |q: Vec<GeomTypes<f32>>| {
        let n = q.len();
        seen = q;
        Ok(vec![(0.0, 0.0); 3 * n])
    });
    assert!(r.is_ok());
    seen
}

fn path_ops(s: &GeomTypes<f32>) -> Vec<PathOp<f32>> {
    match s {
        GeomTypes::Path(ops) => ops.clone(),
        _ => panic!("not a path"),
    }
}

fn bbox(p: &[(f32, f32)]) -> (f32, f32, f32, f32) {
    let mut b = (f32::MAX, f32::MAX, f32::MIN, f32::MIN);
    for &(x, y) in p {
        b.0 = b.0.min(x);
        b.1 = b.1.min(y);
        b.2 = b.2.max(x);
        b.3 = b.3.max(y);
    }
    b
}

#[test]
fn new_geometry_is_empty() {
    let g: Geometry<f32, Color> = Geometry::new();
    let (p, c) = g.vertices();
    assert!(p.is_empty());
    assert!(c.is_empty());
}

#[test]
fn move_to_starts_a_path() {
    let mut g: Geometry<f32, Color> = Geometry::new();
    g.move_to(1.0, 2.0);
    g.line_to(3.0, 4.0);
    let q = capture(&mut g, RED);
    assert_eq!(q.len(), 1);
    let ops = path_ops(&q[0]);
    assert_eq!(ops.len(), 2);
    assert!(matches!(ops[0], PathOp::MoveTo(x, y) if x == 1.0 && y == 2.0));
    assert!(matches!(ops[1], PathOp::LineTo(x, y) if x == 3.0 && y == 4.0));
}

#[test]
fn second_move_to_queues_first_path() {
    let mut g: Geometry<f32, Color> = Geometry::new();
    g.move_to(0.0, 0.0);
    g.line_to(1.0, 0.0);
    g.move_to(5.0, 5.0);
    let q = capture(&mut g, RED);
    assert_eq!(q.len(), 2);
    assert_eq!(path_ops(&q[0]).len(), 2);
    let second = path_ops(&q[1]);
    assert_eq!(second.len(), 1);
    assert!(matches!(second[0], PathOp::MoveTo(x, y) if x == 5.0 && y == 5.0));
}

#[test]
fn line_to_without_path_starts_there() {
    let mut a: Geometry<f32, Color> = Geometry::new();
    a.line_to(3.0, 4.0);
    let qa = capture(&mut a, RED);
    let mut b: Geometry<f32, Color> = Geometry::new();
    b.move_to(3.0, 4.0);
    let qb = capture(&mut b, RED);
    assert_eq!(qa.len(), 1);
    assert_eq!(qb.len(), 1);
    let (oa, ob) = (path_ops(&qa[0]), path_ops(&qb[0]));
    assert_eq!(oa.len(), ob.len());
    assert!(matches!(oa[0], PathOp::MoveTo(x, y) if x == 3.0 && y == 4.0));
}

#[test]
fn curves_without_path_start_at_first_control_point() {
    let mut g: Geometry<f32, Color> = Geometry::new();
    g.cubic_bezier_to(1.0, 2.0, 3.0, 4.0, 5.0, 6.0);
    g.quadratic_bezier_to(7.0, 8.0, 9.0, 10.0);
    let q = capture(&mut g, RED);
    let ops = path_ops(&q[0]);
    assert_eq!(ops.len(), 3);
    assert!(matches!(ops[0], PathOp::MoveTo(x, y) if x == 1.0 && y == 2.0));
    assert!(matches!(ops[1], PathOp::CubicBezierTo(_, _, _, _, x, y) if x == 5.0 && y == 6.0));
    assert!(matches!(ops[2], PathOp::QuadraticBezierTo(_, _, x, y) if x == 9.0 && y == 10.0));

    let mut h: Geometry<f32, Color> = Geometry::new();
    h.quadratic_bezier_to(7.0, 8.0, 9.0, 10.0);
    let q = capture(&mut h, RED);
    let ops = path_ops(&q[0]);
    assert_eq!(ops.len(), 2);
    assert!(matches!(ops[0], PathOp::MoveTo(x, y) if x == 7.0 && y == 8.0));
}

#[test]
fn close_path_appends_close_and_keeps_path_open() {
    let mut g: Geometry<f32, Color> = Geometry::new();
    g.close_path();
    assert!(capture(&mut g, RED).is_empty());
    g.move_to(0.0, 0.0);
    g.line_to(1.0, 1.0);
    g.close_path();
    g.line_to(2.0, 0.0);
    let q = capture(&mut g, RED);
    let ops = path_ops(&q[0]);
    assert_eq!(ops.len(), 4);
    assert!(matches!(ops[2], PathOp::Close));
}

#[test]
fn arc_to_emits_no_curve() {
    let mut g: Geometry<f32, Color> = Geometry::new();
    g.arc_to(2.0, 3.0, 0.0, 1.0, 5.0);
    g.arc_to(9.0, 9.0, 0.0, 1.0, 5.0);
    let q = capture(&mut g, RED);
    assert_eq!(q.len(), 1);
    let ops = path_ops(&q[0]);
    assert_eq!(ops.len(), 1);
    assert!(matches!(ops[0], PathOp::MoveTo(x, y) if x == 2.0 && y == 3.0));
}

#[test]
fn shapes_queue_in_call_order_after_open_path() {
    let mut g: Geometry<f32, Color> = Geometry::new();
    g.move_to(0.0, 0.0);
    g.circle(1.0, 2.0, 3.0);
    g.rect(0.0, 0.0, 4.0, 5.0);
    g.rounded_rect(1.0, 1.0, 6.0, 7.0, 0.5);
    g.triangle(0.0, 0.0, 1.0, 0.0, 0.0, 1.0);
    let q = capture(&mut g, RED);
    assert_eq!(q.len(), 5);
    assert!(matches!(q[0], GeomTypes::Path(_)));
    assert!(matches!(q[1], GeomTypes::Circle { radius, .. } if radius == 3.0));
    assert!(matches!(q[2], GeomTypes::Rect { width, height, .. } if width == 4.0 && height == 5.0));
    assert!(matches!(q[3], GeomTypes::RoundedRect { corner_radius, .. } if corner_radius == 0.5));
    assert!(matches!(q[4], GeomTypes::Triangle { p2, .. } if p2 == (1.0, 0.0)));
}

#[test]
fn fills_and_strokes_keep_one_color_per_position() {
    let mut g: Geometry<f32, Color> = Geometry::new();
    g.circle(0.0, 0.0, 1.0);
    capture(&mut g, RED);
    g.rect(0.0, 0.0, 1.0, 1.0);
    g.triangle(0.0, 0.0, 1.0, 0.0, 0.0, 1.0);
    let r: Result<(), String> =
        g.stroke(BLUE, 2.0, |q: Vec<GeomTypes<f32>>, w: f32| Ok(vec![(w, w); 6 * q.len()]));
    assert!(r.is_ok());
    let (p, c) = g.vertices();
    assert_eq!(p.len(), 15);
    assert_eq!(c.len(), p.len());
    assert!(c[..3].iter().all(|x| *x == RED));
    assert!(c[3..].iter().all(|x| *x == BLUE));
    assert!(p[3..].iter().all(|x| *x == (2.0, 2.0)));
}

#[test]
fn stroke_hands_width_and_queue_to_tessellator() {
    let mut g: Geometry<f32, Color> = Geometry::new();
    g.move_to(0.0, 0.0);
    g.line_to(4.0, 0.0);
    let mut got = (0usize, 0.0f32);
    let r: Result<(), String> = g.stroke(RED, 3.5, |q: Vec<GeomTypes<f32>>, w: f32| {
        got = (q.len(), w);
        Ok(vec![(0.0, 0.0); 6])
    });
    assert!(r.is_ok());
    assert_eq!(got, (1, 3.5));
    assert_eq!(g.vertices().0.len(), 6);
}

#[test]
fn failed_tessellation_appends_nothing_and_drains_queue() {
    let mut g: Geometry<f32, Color> = Geometry::new();
    g.rect(0.0, 0.0, 1.0, 1.0);
    capture(&mut g, RED);
    g.circle(0.0, 0.0, 1.0);
    g.move_to(1.0, 1.0);
    let r: Result<(), String> = g.fill(BLUE, |_q: Vec<GeomTypes<f32>>| Err("degenerate".to_string()));
    assert_eq!(r, Err("degenerate".to_string()));
    assert_eq!(g.vertices().0.len(), 3);
    assert_eq!(g.vertices().1.len(), 3);
    assert!(capture(&mut g, RED).is_empty());
}

#[test]
fn clear_resets_everything() {
    let mut g: Geometry<f32, Color> = Geometry::new();
    g.circle(0.0, 0.0, 1.0);
    capture(&mut g, RED);
    g.rect(0.0, 0.0, 1.0, 1.0);
    g.move_to(3.0, 3.0);
    g.clear();
    let (p, c) = g.vertices();
    assert!(p.is_empty());
    assert!(c.is_empty());
    assert!(capture(&mut g, RED).is_empty());
}

#[test]
fn unit_circle_and_square_fill_to_triangles_within_bounds() {
    let tol = 0.01;
    let mut g: Geometry<f32, Color> = Geometry::new();
    g.circle(0.0, 0.0, 1.0);
    assert!(g.fill(RED, lyon_fill).is_ok());
    let n = g.vertices().0.len();
    assert!(n > 0 && n % 3 == 0);
    let b = bbox(g.vertices().0);
    for (got, want) in [(b.0, -1.0), (b.1, -1.0), (b.2, 1.0), (b.3, 1.0)] {
        assert!((got - want).abs() <= tol, "{} vs {}", got, want);
    }

    let mut s: Geometry<f32, Color> = Geometry::new();
    s.rect(0.0, 0.0, 1.0, 1.0);
    assert!(s.fill(RED, lyon_fill).is_ok());
    let n = s.vertices().0.len();
    assert!(n > 0 && n % 3 == 0);
    let b = bbox(s.vertices().0);
    for (got, want) in [(b.0, 0.0), (b.1, 0.0), (b.2, 1.0), (b.3, 1.0)] {
        assert!((got - want).abs() <= tol, "{} vs {}", got, want);
    }
}

#[test]
fn rect_then_circle_fill_runs_then_clear() {
    let mut g: Geometry<f32, Color> = Geometry::new();
    g.rect(0.0, 0.0, 10.0, 10.0);
    assert!(g.fill(RED, lyon_fill).is_ok());
    let red_len = g.vertices().0.len();
    g.circle(5.0, 5.0, 3.0);
    assert!(g.fill(BLUE, lyon_fill).is_ok());
    let (p, c) = g.vertices();
    let blue_len = p.len() - red_len;
    assert_eq!(c.len(), p.len());
    assert!(red_len > 0 && red_len % 3 == 0);
    assert!(blue_len > 0 && blue_len % 3 == 0);
    assert!(c[..red_len].iter().all(|x| *x == RED));
    assert!(c[red_len..].iter().all(|x| *x == BLUE));
    g.clear();
    assert_eq!(g.vertices().0.len(), 0);
    assert_eq!(g.vertices().1.len(), 0);
}

#[test]
fn flattening_copies_one_vertex_per_index() {
    let vertices = vec![(0.0f32, 0.0f32), (1.0, 0.0), (1.0, 1.0), (0.0, 1.0)];
    let indices: Vec<u16> = vec![0, 1, 2, 0, 2, 3];
    let flat = lyon_vbuff_to_vertex(&vertices, &indices);
    assert_eq!(
        flat,
        vec![(0.0, 0.0), (1.0, 0.0), (1.0, 1.0), (0.0, 0.0), (1.0, 1.0), (0.0, 1.0)]
    );
    assert!(lyon_vbuff_to_vertex(&vertices, &Vec::new()).is_empty());
}

#[test]
fn vertex_constructor_keeps_position() {
    let mut c = LyonVertex;
    assert_eq!(c.new_vertex((2.5f32, -1.0f32)), (2.5, -1.0));
}

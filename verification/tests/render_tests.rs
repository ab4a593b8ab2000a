use skeleton::Color;
use skeleton::Mesh;
use skeleton::Primitive;
use skeleton::Region;
use skeleton::RenderOutput;
use skeleton::Skeleton;
use skeleton::SkeletonError;
use skeleton::SkeletonShapeType;
use skeleton::render::shimmer_phase;

fn region(left: i32, top: i32, right: i32, bottom: i32) -> Region {
    Region { left, top, right, bottom }
}

fn mesh_of(out: &RenderOutput) -> &Mesh {
    assert_eq!(out.primitives.len(), 1);
    match &out.primitives[0] {
        Primitive::Mesh(m) => m,
        other => panic!("expected a mesh, got {:?}", other),
    }
}

#[test]
fn default_configuration() {
    let s = Skeleton::new();
    assert_eq!(s.base_color, Color { r: 200, g: 200, b: 200, a: 255 });
    assert_eq!(s.highlight_color, Color { r: 230, g: 230, b: 230, a: 255 });
    assert_eq!(s.animation_period_ms, 1500);
    assert!(matches!(s.shape_type, SkeletonShapeType::Rectangle));
    assert_eq!(s, Skeleton::default());
}

#[test]
fn phase_stays_in_unit_interval() {
    for &(t, p) in &[(0u64, 1500u32), (750, 1500), (1500, 1500), (3750, 1500), (u64::MAX, 7)] {
        let tm = shimmer_phase(t, p);
        assert!(tm < p as u64);
        let phi = tm as f64 / p as f64;
        assert!((0.0..1.0).contains(&phi));
    }
    assert_eq!(shimmer_phase(750, 1500), 750);
    assert_eq!(shimmer_phase(3750, 1500), 750);
    let phi = shimmer_phase(750, 1500) as f64 / 1500.0;
    assert_eq!(phi, 0.5);
}

#[test]
fn shimmer_example_cut_lines() {
    // Width 100, height 20, a 1.5 s period sampled at 0.75 s: the phase is
    // one half, the band is 20 wide, and the cut lines fall at 0, 40, 60,
    // 100 with the middle segment highlighted.
    let s = Skeleton::new();
    let out = s.render(region(0, 0, 100, 20), 750).unwrap();
    let m = mesh_of(&out);
    let base = s.base_color;
    let hi = s.highlight_color;
    let xs: Vec<i32> = m.vertices.iter().map(|v| v.x).collect();
    assert_eq!(xs, vec![0, 40, 60, 100, 0, 40, 60, 100]);
    let ys: Vec<i32> = m.vertices.iter().map(|v| v.y).collect();
    assert_eq!(ys, vec![0, 0, 0, 0, 20, 20, 20, 20]);
    let colors: Vec<Color> = m.vertices.iter().map(|v| v.color).collect();
    assert_eq!(colors, vec![base, hi, hi, base, base, hi, hi, base]);
    assert_eq!(m.indices, vec![0, 1, 5, 0, 5, 4, 1, 2, 6, 1, 6, 5, 2, 3, 7, 2, 7, 6]);
    assert_eq!(out.claim, region(0, 0, 100, 20));
}

#[test]
fn circle_example() {
    // A 40 by 40 region with the circle shape: radius 20, centered, one
    // primitive, and no animation whatever the time sample.
    let s = Skeleton { shape_type: SkeletonShapeType::Circle, ..Skeleton::new() };
    let out = s.render(region(0, 0, 40, 40), 0).unwrap();
    assert_eq!(out.primitives.len(), 1);
    match &out.primitives[0] {
        Primitive::Circle(c) => {
            assert_eq!(c.center_x, 20);
            assert_eq!(c.center_y, 20);
            assert_eq!(c.radius, 20);
            assert_eq!(c.fill, s.base_color);
        }
        other => panic!("expected a circle, got {:?}", other),
    }
    let later = s.render(region(0, 0, 40, 40), 987654).unwrap();
    assert_eq!(out, later);
}

#[test]
fn square_is_centered() {
    let s = Skeleton { shape_type: SkeletonShapeType::Square, ..Skeleton::new() };
    let out = s.render(region(0, 0, 10, 20), 42).unwrap();
    assert_eq!(out.primitives.len(), 1);
    match &out.primitives[0] {
        Primitive::RoundedRect(r) => {
            assert_eq!(r.rect, region(0, 5, 10, 15));
            assert_eq!(r.corner_radius, 2);
            assert_eq!(r.fill, s.base_color);
        }
        other => panic!("expected a rounded rectangle, got {:?}", other),
    }
}

#[test]
fn zero_period_is_rejected() {
    for shape in [
        SkeletonShapeType::Rectangle,
        SkeletonShapeType::Square,
        SkeletonShapeType::Circle,
    ] {
        let s = Skeleton { animation_period_ms: 0, shape_type: shape, ..Skeleton::new() };
        assert_eq!(s.render(region(0, 0, 10, 10), 5), Err(SkeletonError::InvalidConfig));
    }
}

#[test]
fn degenerate_region_renders_empty() {
    let s = Skeleton::new();
    let out = s.render(region(5, 5, 5, 10), 100).unwrap();
    assert!(out.primitives.is_empty());
    assert_eq!(out.claim, region(5, 5, 5, 5));
    let out = s.render(region(3, 7, 9, 7), 100).unwrap();
    assert!(out.primitives.is_empty());
    assert_eq!(out.claim, region(3, 7, 3, 7));
}

#[test]
fn tiny_circle_is_not_emitted() {
    // A one-unit region makes the circle radius round down to zero; no
    // zero-extent primitive is emitted, but the region is still claimed.
    let s = Skeleton { shape_type: SkeletonShapeType::Circle, ..Skeleton::new() };
    let out = s.render(region(0, 0, 1, 1), 0).unwrap();
    assert!(out.primitives.is_empty());
    assert_eq!(out.claim, region(0, 0, 1, 1));
}

#[test]
fn identical_inputs_identical_outputs() {
    let s = Skeleton::new();
    let r = region(-7, -3, 93, 17);
    let a = s.render(r, 123456).unwrap();
    let b = s.render(r, 123456).unwrap();
    assert_eq!(a, b);
}

#[test]
fn whole_periods_leave_geometry_unchanged() {
    let s = Skeleton::new();
    let r = region(0, 0, 64, 16);
    for t in [0u64, 333, 749, 1499] {
        let now = s.render(r, t).unwrap();
        for k in 1u64..4 {
            let shifted = s.render(r, t + k * 1500).unwrap();
            assert_eq!(now, shifted);
        }
    }
}

#[test]
fn vertices_stay_inside_region() {
    let s = Skeleton::new();
    let r = region(-7, -3, 13, 11);
    for t in (0u64..3000).step_by(37) {
        let out = s.render(r, t).unwrap();
        let m = mesh_of(&out);
        for v in m.vertices.iter() {
            assert!(r.left <= v.x && v.x <= r.right);
            assert!(r.top <= v.y && v.y <= r.bottom);
        }
    }
}

#[test]
fn band_moves_continuously_across_the_wrap() {
    // Width 100, period 1500: the sweep covers 120 units per cycle, under
    // one unit per millisecond. The visible band edges never jump by more
    // than one unit per step, and the band shrinks away before the wrap.
    let s = Skeleton::new();
    let r = region(0, 0, 100, 20);
    let band = |t: u64| -> (i32, i32) {
        let out = s.render(r, t).unwrap();
        let m = mesh_of(&out);
        (m.vertices[1].x, m.vertices[2].x)
    };
    for t in 0u64..1499 {
        let (x1, x2) = band(t);
        let (nx1, nx2) = band(t + 1);
        if t + 1 < 1500 {
            assert!(nx1 - x1 >= 0 && nx1 - x1 <= 1);
            assert!(nx2 - x2 >= 0 && nx2 - x2 <= 1);
        }
    }
    let (x1, x2) = band(1499);
    assert!(x2 - x1 <= 1);
    let (x1, x2) = band(1500);
    assert_eq!((x1, x2), (0, 0));
}

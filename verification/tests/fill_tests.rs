use skeleton::fill::skeleton_fill;
use skeleton::Color;
use skeleton::HasSkeleton;
use skeleton::Primitive;
use skeleton::Region;

fn region(left: i32, top: i32, right: i32, bottom: i32) -> Region {
    Region { left, top, right, bottom }
}

fn line_count(height: i32) -> usize {
    skeleton_fill(region(0, 0, 50, height)).primitives.len()
}

#[test]
fn line_count_follows_the_tiling_formula() {
    // floor((height + gap) / (line_height + gap)) with height 16, gap 4.
    assert_eq!(line_count(15), 0);
    assert_eq!(line_count(16), 1);
    assert_eq!(line_count(20), 1);
    assert_eq!(line_count(35), 1);
    assert_eq!(line_count(36), 2);
    assert_eq!(line_count(39), 2);
    assert_eq!(line_count(100), 5);
    assert_eq!(line_count(1000), 50);
}

#[test]
fn lines_are_tiled_from_the_top() {
    let r = region(3, 10, 43, 110);
    let out = skeleton_fill(r);
    assert_eq!(out.primitives.len(), 5);
    for (i, p) in out.primitives.iter().enumerate() {
        match p {
            Primitive::RoundedRect(line) => {
                assert_eq!(line.rect.left, 3);
                assert_eq!(line.rect.right, 43);
                assert_eq!(line.rect.top, 10 + 20 * i as i32);
                assert_eq!(line.rect.bottom, line.rect.top + 16);
                assert!(line.rect.bottom <= r.bottom);
                assert_eq!(line.corner_radius, 2);
                assert_eq!(line.fill, Color { r: 220, g: 220, b: 220, a: 255 });
            }
            other => panic!("expected a rounded rectangle, got {:?}", other),
        }
    }
    assert_eq!(out.claim, r);
}

#[test]
fn degenerate_region_fills_empty() {
    let out = skeleton_fill(region(5, 5, 5, 50));
    assert!(out.primitives.is_empty());
    assert_eq!(out.claim, region(5, 5, 5, 50));
    let out = skeleton_fill(region(0, 9, 8, 3));
    assert!(out.primitives.is_empty());
}

#[test]
fn capability_default_matches_the_free_fill() {
    struct Surface;
    impl HasSkeleton for Surface {}
    let r = region(-4, -4, 60, 60);
    assert_eq!(Surface.fill_output(r), skeleton_fill(r));
    assert_eq!(Surface.fill_output(r).primitives.len(), 3);
}

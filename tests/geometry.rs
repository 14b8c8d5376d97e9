use watershot::{monitor_area, Extents, Rect};

fn ext(start_x: i32, start_y: i32, end_x: i32, end_y: i32) -> Extents {
    Extents { start_x, start_y, end_x, end_y }
}

#[test]
fn to_rect_forward_drag() {
    assert_eq!(ext(100, 100, 300, 250).to_rect(), Rect::new(100, 100, 200, 150));
}

#[test]
fn to_rect_is_same_from_either_corner() {
    let a = ext(300, 250, 100, 100).to_rect();
    let b = ext(100, 100, 300, 250).to_rect();
    let c = ext(300, 100, 100, 250).to_rect();
    assert_eq!(a, b);
    assert_eq!(a, c);
    assert!(a.width >= 0 && a.height >= 0);
}

#[test]
fn to_rect_of_a_point_is_empty() {
    assert_eq!(ext(7, -3, 7, -3).to_rect(), Rect::new(7, -3, 0, 0));
}

#[test]
fn to_rect_clamped_moves_inside_area() {
    let area = Rect::new(0, 0, 1920, 1080);
    let r = ext(-50, -20, 50, 80).to_rect_clamped(&area);
    assert_eq!(r, Rect::new(0, 0, 100, 100));
    let r = ext(1900, 1000, 2000, 1100).to_rect_clamped(&area);
    assert_eq!(r, Rect::new(1820, 980, 100, 100));
}

#[test]
fn to_rect_clamped_keeps_a_rect_already_inside() {
    let area = Rect::new(-1920, 0, 3840, 1080);
    let r = ext(-100, 10, 100, 20).to_rect_clamped(&area);
    assert_eq!(r, Rect::new(-100, 10, 200, 10));
}

#[test]
fn to_extents_goes_to_far_corner() {
    let e = Rect::new(50, 60, 400, 300).to_extents();
    assert_eq!(e, ext(50, 60, 450, 360));
}

#[test]
fn extend_replaces_default_rect() {
    let mut r: Rect<i32> = Rect::default();
    r.extend(&Rect::new(10, 20, 30, 40));
    assert_eq!(r, Rect::new(10, 20, 30, 40));
}

#[test]
fn extend_grows_to_union() {
    let mut r = Rect::new(0, 0, 1920, 1080);
    r.extend(&Rect::new(1920, -200, 1280, 1024));
    assert_eq!(r, Rect::new(0, -200, 3200, 1280));
}

#[test]
fn extend_is_commutative_and_associative() {
    let a = Rect::new(0, 0, 100, 100);
    let b = Rect::new(-50, 20, 10, 300);
    let c = Rect::new(400, -10, 5, 5);
    let mut ab = a;
    ab.extend(&b);
    let mut ba = b;
    ba.extend(&a);
    assert_eq!(ab, ba);
    let mut ab_c = ab;
    ab_c.extend(&c);
    let mut bc = b;
    bc.extend(&c);
    let mut a_bc = a;
    a_bc.extend(&bc);
    assert_eq!(ab_c, a_bc);
}

#[test]
fn monitor_area_does_not_depend_on_order() {
    let ms = vec![
        Rect::new(0, 0, 1920, 1080),
        Rect::new(1920, 0, 1280, 1024),
        Rect::new(-1080, -400, 1080, 1920),
    ];
    let mut rev = ms.clone();
    rev.reverse();
    let a = monitor_area(&ms);
    assert_eq!(a, Rect::new(-1080, -400, 4280, 1920));
    assert_eq!(monitor_area(&rev), a);
}

#[test]
fn monitor_area_of_no_monitors_is_default() {
    assert_eq!(monitor_area(&vec![]), Rect::default());
}

#[test]
fn intersects_is_symmetric_and_strict() {
    let a = Rect::new(0, 0, 100, 100);
    let b = Rect::new(50, 50, 100, 100);
    let touching = Rect::new(100, 0, 10, 10);
    assert!(a.intersects(&b));
    assert!(b.intersects(&a));
    assert!(!a.intersects(&touching));
    assert!(!touching.intersects(&a));
}

#[test]
fn constrain_clips_to_area() {
    let area = Rect::new(0, 0, 1920, 1080);
    let r = Rect::new(-100, 1000, 500, 200);
    assert_eq!(r.constrain(&area), Some(Rect::new(0, 1000, 400, 80)));
    let wide = Rect::new(100, 10, 5000, 20);
    assert_eq!(wide.constrain(&area), Some(Rect::new(100, 10, 1820, 20)));
}

#[test]
fn constrain_without_overlap_is_none() {
    let area = Rect::new(0, 0, 1920, 1080);
    assert_eq!(Rect::new(1920, 0, 10, 10).constrain(&area), None);
    assert_eq!(Rect::new(-20, -20, 10, 10).constrain(&area), None);
}

#[test]
fn translation_keeps_size() {
    let e = ext(300, 250, 100, 100);
    let (dx, dy) = (-37, 512);
    let moved = ext(e.start_x + dx, e.start_y + dy, e.end_x + dx, e.end_y + dy);
    let a = e.to_rect();
    let b = moved.to_rect();
    assert_eq!((a.width, a.height), (b.width, b.height));
    assert_eq!((b.x, b.y), (a.x + dx, a.y + dy));
}

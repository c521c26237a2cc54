use td_core::emath::{grid_pos_to_pos, i_to_xy, map_range, pos_to_grid_pos, xy_to_i};
use td_core::rect::Rect;

#[test]
fn collide_same() {
    let a = Rect::new(0, 0, 10, 10);
    let b = a;
    let result = a.intersecting(&b);
    assert_eq!(result, true);
}

#[test]
fn collide_overlap() {
    let a = Rect::new(0, 0, 10, 10);
    let b = Rect::new(5, 5, 15, 15);
    let result = a.intersecting(&b);
    assert_eq!(result, true);
}

#[test]
fn collide_touching_side() {
    let a = Rect::new(0, 0, 10, 10);
    let b = Rect::new(10, 0, 20, 20);
    let result = a.intersecting(&b);
    assert_eq!(result, true);
}

#[test]
fn collide_touching_top() {
    let a = Rect::new(0, 0, 10, 10);
    let b = Rect::new(0, 10, 20, 20);
    let result = a.intersecting(&b);
    assert_eq!(result, true);
}

#[test]
fn collide_not_overlap() {
    let a = Rect::new(0, 0, 10, 10);
    let b = Rect::new(15, 15, 25, 25);
    let result = a.intersecting(&b);
    assert_eq!(result, false);
}

#[test]
fn collide_not_overlap_reverse() {
    let a = Rect::new(480, 224, 512, 288);
    let b = Rect::new(33, 32, 33, 34);
    let result = a.intersecting(&b);
    assert_eq!(result, false);
}

#[test]
fn intersecting_is_symmetric_on_samples() {
    let rects = [
        Rect::new(0, 0, 10, 10),
        Rect::new(10, 0, 20, 20),
        Rect::new(5, 5, 15, 15),
        Rect::new(15, 15, 25, 25),
        Rect::new(480, 224, 512, 288),
    ];
    for a in rects.iter() {
        for b in rects.iter() {
            assert_eq!(a.intersecting(b), b.intersecting(a));
        }
    }
}

#[test]
fn rect_accessors() {
    let a = Rect::new(3, 12, 27, 32);
    assert_eq!(a.tl(), (3, 12));
    assert_eq!(a.br(), (27, 32));
    assert_eq!(a.rect(), ((3, 12), (27, 32)));
    assert_eq!(a.width(), 24);
    assert_eq!(a.height(), 20);
}

#[test]
fn map_range_midpoint() {
    assert_eq!(map_range((0, 10), (0, 100), 5), 50);
}

#[test]
fn map_range_offset_ranges() {
    assert_eq!(map_range((10, 20), (100, 200), 15), 150);
}

#[test]
fn grid_index_round_trip() {
    assert_eq!(xy_to_i(7, 3, 2), 17);
    assert_eq!(i_to_xy(7, 17), (3, 2));
    assert_eq!(pos_to_grid_pos(&(95, 64)), (2, 2));
    assert_eq!(grid_pos_to_pos(&(2, 2)), (64, 64));
}

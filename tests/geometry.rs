use trezor_ui::geometry::{screen, Offset, Point, Rect};

#[test]
fn hsplit_negative_offset_from_bottom() {
    let (top, bottom) = screen().hsplit(-11);
    assert_eq!(top, Rect { x0: 0, y0: 0, x1: 128, y1: 53 });
    assert_eq!(bottom, Rect { x0: 0, y0: 53, x1: 128, y1: 64 });
}

#[test]
fn hsplit_positive_offset_from_top() {
    let (top, bottom) = screen().hsplit(13);
    assert_eq!(top.y1, 13);
    assert_eq!(bottom.y0, 13);
    assert_eq!(top.height() + bottom.height(), 64);
}

#[test]
fn vsplit_halves() {
    let r = Rect { x0: 0, y0: 53, x1: 128, y1: 64 };
    let (l, rr) = r.vsplit(r.width() / 2);
    assert_eq!(l, Rect { x0: 0, y0: 53, x1: 64, y1: 64 });
    assert_eq!(rr, Rect { x0: 64, y0: 53, x1: 128, y1: 64 });
}

#[test]
fn split_offset_out_of_range_is_clamped() {
    let (top, bottom) = screen().hsplit(100);
    assert_eq!(top, screen());
    assert_eq!(bottom.y0, 64);
    assert_eq!(bottom.height(), 0);
    let (l, r) = screen().vsplit(-200);
    assert_eq!(l.width(), 0);
    assert_eq!(r, screen());
}

#[test]
fn split_partitions_every_pixel() {
    let r = Rect { x0: -3, y0: 2, x1: 9, y1: 11 };
    for off in -15..15 {
        let (a, b) = r.hsplit(off);
        let (c, d) = r.vsplit(off);
        for x in -5..12 {
            for y in 0..13 {
                let inside = |q: &Rect| q.x0 <= x && x < q.x1 && q.y0 <= y && y < q.y1;
                assert_eq!(inside(&r), inside(&a) || inside(&b));
                assert!(!(inside(&a) && inside(&b)));
                assert_eq!(inside(&r), inside(&c) || inside(&d));
                assert!(!(inside(&c) && inside(&d)));
            }
        }
    }
}

#[test]
fn rect_from_top_left_and_size() {
    let r = Rect::from_top_left_and_size(Point::new(2, 3), Offset::new(10, 4));
    assert_eq!(r, Rect { x0: 2, y0: 3, x1: 12, y1: 7 });
    assert_eq!(Rect::new(Point::new(1, 1), Point::new(5, 6)).width(), 4);
}

use walk_the_dog::geometry::{Point, Rect};

#[test]
fn two_rects_that_intersects_on_the_left() {
    let rect1 = Rect {
        position: Point { x: 10, y: 10 },
        height: 100,
        width: 100,
    };
    let rect2 = Rect {
        position: Point { x: 0, y: 10 },
        height: 100,
        width: 100,
    };
    assert_eq!(rect2.intersects(&rect1), true);
}

#[test]
fn two_rects_that_intersects_on_the_top() {
    let rect1 = Rect {
        position: Point { x: 10, y: -10 },
        height: 100,
        width: 100,
    };
    let rect2 = Rect {
        position: Point { x: 0, y: 0 },
        height: 100,
        width: 100,
    };
    assert_eq!(rect2.intersects(&rect1), true);
}

#[test]
fn two_rects_that_intersects_on_the_bottom() {
    let rect1 = Rect {
        position: Point { x: 0, y: 10 },
        height: 100,
        width: 100,
    };
    let rect2 = Rect {
        position: Point { x: 0, y: 10 },
        height: 100,
        width: 100,
    };
    assert_eq!(rect2.intersects(&rect1), true);
}

#[test]
fn two_rects_that_intersects_on_the_right() {
    let rect1 = Rect {
        position: Point { x: 10, y: 10 },
        height: 100,
        width: 100,
    };
    let rect2 = Rect {
        position: Point { x: 20, y: 10 },
        height: 100,
        width: 100,
    };
    assert_eq!(rect2.intersects(&rect1), true);
}

#[test]
fn two_rects_that_do_not_intersects() {
    let rect1 = Rect {
        position: Point { x: 10, y: 10 },
        height: 100,
        width: 100,
    };
    let rect2 = Rect {
        position: Point { x: 200, y: 200 },
        height: 100,
        width: 100,
    };
    assert_eq!(rect2.intersects(&rect1), false);
}

#[test]
fn intersection_is_symmetric_on_concrete_rects() {
    let a = Rect::new_from_x_y(0, 0, 50, 50);
    let b = Rect::new_from_x_y(25, 25, 50, 50);
    let c = Rect::new_from_x_y(500, 500, 10, 10);
    assert_eq!(a.intersects(&b), b.intersects(&a));
    assert_eq!(a.intersects(&c), c.intersects(&a));
    assert!(a.intersects(&b));
    assert!(!a.intersects(&c));
}

#[test]
fn touching_edges_do_not_intersect() {
    let a = Rect::new_from_x_y(0, 0, 100, 100);
    // sharing a vertical edge: a.right() == b.x()
    let right_neighbor = Rect::new_from_x_y(100, 0, 100, 100);
    // sharing a horizontal edge: a.bottom() == b.y()
    let bottom_neighbor = Rect::new_from_x_y(0, 100, 100, 100);
    assert!(!a.intersects(&right_neighbor));
    assert!(!right_neighbor.intersects(&a));
    assert!(!a.intersects(&bottom_neighbor));
    assert!(!bottom_neighbor.intersects(&a));
}

#[test]
fn rect_edges_and_setters() {
    let mut r = Rect::new(Point { x: 3, y: 4 }, 10, 20);
    assert_eq!(r.x(), 3);
    assert_eq!(r.y(), 4);
    assert_eq!(r.right(), 13);
    assert_eq!(r.bottom(), 24);
    r.set_x(-5);
    r.set_y(7);
    assert_eq!(r.right(), 5);
    assert_eq!(r.bottom(), 27);
}

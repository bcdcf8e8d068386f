use kcshot::data::{Colour, Rectangle};
use kcshot::display_server::{window_of, FrameExtents, RawWindow};

#[test]
fn normalise_both_extents_negative() {
    let mut r = Rectangle { x: 10, y: 10, w: -5, h: -5 };
    r.normalise();
    assert_eq!(r, Rectangle { x: 5, y: 5, w: 5, h: 5 });
}

#[test]
fn normalise_height_only_negative() {
    let mut r = Rectangle { x: 0, y: 0, w: 5, h: -3 };
    r.normalise();
    assert_eq!(r, Rectangle { x: 0, y: -3, w: 5, h: 3 });
}

#[test]
fn normalise_width_only_negative() {
    let mut r = Rectangle { x: -2, y: 7, w: -8, h: 1 };
    r.normalise();
    assert_eq!(r, Rectangle { x: -10, y: 7, w: 8, h: 1 });
}

#[test]
fn normalise_keeps_normalised_rectangle() {
    let mut r = Rectangle { x: 3, y: 4, w: 5, h: 6 };
    r.normalise();
    assert_eq!(r, Rectangle { x: 3, y: 4, w: 5, h: 6 });
}

#[test]
fn normalise_covers_same_region() {
    // The box dragged from (10, 10) to (5, 5) covers the same cells as the
    // box dragged from (5, 5) to (10, 10).
    let mut dragged_up_left = Rectangle { x: 10, y: 10, w: -5, h: -5 };
    dragged_up_left.normalise();
    let mut dragged_down_right = Rectangle { x: 5, y: 5, w: 5, h: 5 };
    dragged_down_right.normalise();
    assert_eq!(dragged_up_left, dragged_down_right);
}

#[test]
fn default_colour_is_opaque_black() {
    let c = Colour::black();
    assert_eq!(c, Colour { red: 0, green: 0, blue: 0, alpha: 255 });
}

#[test]
fn window_rects_from_shape_and_frame_extents() {
    let raw = RawWindow {
        viewable: true,
        x: 100,
        y: 50,
        width: 300,
        height: 200,
        frame: FrameExtents { left: 5, right: 5, top: 20, bottom: 5 },
    };
    let w = window_of(&raw);
    assert_eq!(w.content_rect, Rectangle { x: 100, y: 50, w: 300, h: 200 });
    assert_eq!(w.outer_rect, Rectangle { x: 95, y: 30, w: 310, h: 225 });
}

#[test]
fn outer_rect_encloses_content_rect() {
    let raw = RawWindow {
        viewable: true,
        x: -30,
        y: 12,
        width: 640,
        height: 480,
        frame: FrameExtents { left: 0, right: 3, top: 25, bottom: 0 },
    };
    let w = window_of(&raw);
    assert!(w.outer_rect.w >= w.content_rect.w);
    assert!(w.outer_rect.h >= w.content_rect.h);
    assert!(w.outer_rect.x <= w.content_rect.x);
    assert!(w.outer_rect.y <= w.content_rect.y);
    assert!(w.outer_rect.x + w.outer_rect.w >= w.content_rect.x + w.content_rect.w);
    assert!(w.outer_rect.y + w.outer_rect.h >= w.content_rect.y + w.content_rect.h);
}

#[test]
fn window_with_no_decorations() {
    let raw = RawWindow {
        viewable: true,
        x: 0,
        y: 0,
        width: 1920,
        height: 1080,
        frame: FrameExtents { left: 0, right: 0, top: 0, bottom: 0 },
    };
    let w = window_of(&raw);
    assert_eq!(w.outer_rect, w.content_rect);
}

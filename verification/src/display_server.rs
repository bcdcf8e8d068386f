//! Decision logic of the display gateway.
//!
//! The gateway talks the windowing protocol's wire format: it opens a
//! connection, queries every root screen, and captures or enumerates from the
//! screen that owns the pointer. The round-trips themselves are blocking I/O
//! and live in the surrounding application; this module holds everything that
//! is decided from the replies, over plain models of them: which screen is
//! selected, which native visual format matches a visual id, which windows
//! are kept, and how a window's decorated and content rectangles are derived
//! from its shape extents and frame extents.

use vstd::prelude::*;

use crate::data::Rectangle;

verus! {

/// Failure kinds of the display gateway.
///
/// The first five stand for errors of the underlying connection and image
/// libraries, with their payloads dropped: `XcbConnection` is a failure to
/// establish a protocol session, `XcbProtocol` a rejected request or
/// malformed reply, `Cairo` and `TempFile` failures of the capture
/// materialization step, and `Io` a failure to read or write the transient
/// capture file. The remaining four report that a required resource was
/// unavailable.
#[derive(Clone, Copy, Debug, PartialEq, Eq, Structural)]
pub enum Error {
    Cairo,
    Io,
    XcbConnection,
    XcbProtocol,
    TempFile,
    FailedToTakeScreenshot,
    FailedToGetScreenResolution,
    WmDoesNotSupportEwmh,
    FailedToGetWindows,
}

/// An on-screen window's geometry, in root-window coordinates.
#[derive(Clone, Copy, Debug, PartialEq, Eq, Structural)]
pub struct Window {
    /// The rect of the window that also encompasses window decorations.
    pub outer_rect: Rectangle,
    /// The rect of the window that **only** encompasses the content.
    pub content_rect: Rectangle,
}

/// A native visual format, identified by its visual id.
#[derive(Clone, Copy, Debug, PartialEq, Eq, Structural)]
pub struct VisualType {
    pub visual_id: u32,
}

/// The visual formats allowed at one depth of a screen.
pub struct Depth {
    pub visuals: Vec<VisualType>,
}

/// What the gateway learns about one root screen: whether the pointer query
/// reported the pointer on it, the root window's geometry, the root visual
/// id, and the allowed depths with their visuals.
pub struct ScreenInfo {
    pub pointer_on_screen: bool,
    pub width: u16,
    pub height: u16,
    pub root_visual: u32,
    pub depths: Vec<Depth>,
}

/// Whether `screen` offers a visual with id `visual_id` at any depth.
pub open spec fn screen_has_visual(screen: ScreenInfo, visual_id: u32) -> bool {
    exists|d: int, v: int|
        0 <= d < screen.depths@.len() && 0 <= v < screen.depths@[d].visuals@.len()
            && (#[trigger] screen.depths@[d].visuals@[v]).visual_id == visual_id
}

/// Whether any screen of the display offers a visual with id `visual_id`.
pub open spec fn visual_available(screens: Seq<ScreenInfo>, visual_id: u32) -> bool {
    exists|s: int| 0 <= s < screens.len() && screen_has_visual(#[trigger] screens[s], visual_id)
}

/// Resolve a visual id to its visual format by linear search across all
/// screens, depths and visuals.
#[verifier::loop_isolation(false)]
pub fn find_xcb_visualtype(screens: &Vec<ScreenInfo>, visual_id: u32) -> (r: Option<VisualType>)
    ensures
        match r {
            Some(v) => v.visual_id == visual_id && visual_available(screens@, visual_id),
            None => !visual_available(screens@, visual_id),
        },
{
    let n = screens.len();
    for s in 0..n
        invariant
            n == screens@.len(),
            forall|j: int| 0 <= j < s ==> !screen_has_visual(#[trigger] screens@[j], visual_id),
    {
        let screen = &screens[s];
        let nd = screen.depths.len();
        for d in 0..nd
            invariant
                nd == screen.depths@.len(),
                forall|d0: int, v0: int|
                    0 <= d0 < d && 0 <= v0 < screen.depths@[d0].visuals@.len()
                        ==> (#[trigger] screen.depths@[d0].visuals@[v0]).visual_id != visual_id,
        {
            let depth = &screen.depths[d];
            let nv = depth.visuals.len();
            for v in 0..nv
                invariant
                    nv == depth.visuals@.len(),
                    forall|v0: int|
                        0 <= v0 < v
                            ==> (#[trigger] depth.visuals@[v0]).visual_id != visual_id,
            {
                if depth.visuals[v].visual_id == visual_id {
                    proof {
                        assert(screen.depths@[d as int].visuals@[v as int].visual_id
                            == visual_id);
                        assert(screen_has_visual(screens@[s as int], visual_id));
                    }
                    return Some(depth.visuals[v]);
                }
            }
        }
        proof {
            assert forall|d0: int, v0: int|
                0 <= d0 < screen.depths@.len() && 0 <= v0 < screen.depths@[d0].visuals@.len()
                    implies (#[trigger] screen.depths@[d0].visuals@[v0]).visual_id
                    != visual_id by {}
            assert(!screen_has_visual(screens@[s as int], visual_id));
        }
    }
    None
}

/// Whether no screen before index `i` reported the pointer on it.
pub open spec fn no_pointer_before(screens: Seq<ScreenInfo>, i: int) -> bool {
    forall|j: int| 0 <= j < i ==> !(#[trigger] screens[j]).pointer_on_screen
}

/// Select the screen that owns the pointer: the first root screen whose
/// pointer query reported "pointer is on this screen". Multi-monitor setups
/// are modeled as independent root screens sharing one pointer.
pub fn select_pointer_screen(screens: &Vec<ScreenInfo>) -> (r: Option<usize>)
    ensures
        match r {
            Some(i) => i < screens@.len() && screens@[i as int].pointer_on_screen
                && no_pointer_before(screens@, i as int),
            None => no_pointer_before(screens@, screens@.len() as int),
        },
{
    let n = screens.len();
    for s in 0..n
        invariant
            n == screens@.len(),
            no_pointer_before(screens@, s as int),
    {
        if screens[s].pointer_on_screen {
            return Some(s);
        }
    }
    None
}

/// Report the pointer-owning screen's geometry as `(width, height)`, or
/// `FailedToGetScreenResolution` when no screen owns the pointer.
pub fn get_screen_resolution(screens: &Vec<ScreenInfo>) -> (r: Result<(i32, i32), Error>)
    ensures
        match r {
            Ok(res) => exists|i: int|
                0 <= i < screens@.len() && (#[trigger] screens@[i]).pointer_on_screen
                    && no_pointer_before(screens@, i) && res.0 == screens@[i].width as i32
                    && res.1 == screens@[i].height as i32,
            Err(e) => e == Error::FailedToGetScreenResolution
                && no_pointer_before(screens@, screens@.len() as int),
        },
{
    match select_pointer_screen(screens) {
        Some(i) => Ok((screens[i].width as i32, screens[i].height as i32)),
        None => Err(Error::FailedToGetScreenResolution),
    }
}

/// What a screenshot capture needs once the protocol replies are in: the
/// selected screen, its geometry, and the resolved visual format.
#[derive(Clone, Copy, Debug, PartialEq, Eq, Structural)]
pub struct CapturePlan {
    pub screen_index: usize,
    pub width: u16,
    pub height: u16,
    pub visual: VisualType,
}

/// Whether screen `i` can be captured: it owns the pointer and its root
/// visual resolves to a visual format somewhere on the display.
pub open spec fn screen_capturable(screens: Seq<ScreenInfo>, i: int) -> bool {
    screens[i].pointer_on_screen && visual_available(screens, screens[i].root_visual)
}

/// Choose the screen a screenshot is taken of: the first pointer-owning
/// screen whose root visual can be resolved. A pointer-owning screen whose
/// visual cannot be resolved is skipped; when no screen qualifies the capture
/// fails with `FailedToTakeScreenshot`, independent of visual resolution on
/// the screens before the pointer-owning ones.
pub fn plan_screenshot(screens: &Vec<ScreenInfo>) -> (r: Result<CapturePlan, Error>)
    ensures
        match r {
            Ok(plan) => {
                let i = plan.screen_index as int;
                &&& 0 <= i < screens@.len()
                &&& screen_capturable(screens@, i)
                &&& forall|j: int| 0 <= j < i ==> !screen_capturable(screens@, j)
                &&& plan.width == screens@[i].width
                &&& plan.height == screens@[i].height
                &&& plan.visual.visual_id == screens@[i].root_visual
            },
            Err(e) => e == Error::FailedToTakeScreenshot
                && forall|j: int| 0 <= j < screens@.len() ==> !screen_capturable(screens@, j),
        },
{
    let n = screens.len();
    for s in 0..n
        invariant
            n == screens@.len(),
            forall|j: int| 0 <= j < s ==> !screen_capturable(screens@, j),
    {
        if screens[s].pointer_on_screen {
            match find_xcb_visualtype(screens, screens[s].root_visual) {
                Some(visual) => {
                    return Ok(
                        CapturePlan {
                            screen_index: s,
                            width: screens[s].width,
                            height: screens[s].height,
                            visual,
                        },
                    );
                },
                None => {
                    proof {
                        assert(!screen_capturable(screens@, s as int));
                    }
                },
            }
        }
    }
    Err(Error::FailedToTakeScreenshot)
}

/// Check that the window manager exposes both required extended hints: the
/// stacking-order client list and the frame-extents atoms. An atom value of
/// zero means the atom does not exist.
pub fn check_ewmh_support(wm_client_list_atom: u32, frame_extents_atom: u32) -> (r: Result<
    (),
    Error,
>)
    ensures
        r is Ok <==> wm_client_list_atom != 0 && frame_extents_atom != 0,
        r is Err ==> r->Err_0 == Error::WmDoesNotSupportEwmh,
{
    if wm_client_list_atom == 0 {
        return Err(Error::WmDoesNotSupportEwmh);
    }
    if frame_extents_atom == 0 {
        return Err(Error::WmDoesNotSupportEwmh);
    }
    Ok(())
}

/// The window manager's decoration padding around a window's content area.
#[derive(Clone, Copy, Debug, PartialEq, Eq, Structural)]
pub struct FrameExtents {
    pub left: u32,
    pub right: u32,
    pub top: u32,
    pub bottom: u32,
}

/// What the per-window queries report about one window on the selected
/// screen: whether its attributes say it is currently mapped and viewable,
/// its shape bounding box origin translated into root-window coordinates,
/// the bounding box extents, and its decoration frame extents.
#[derive(Clone, Copy, Debug, PartialEq, Eq, Structural)]
pub struct RawWindow {
    pub viewable: bool,
    pub x: i16,
    pub y: i16,
    pub width: u16,
    pub height: u16,
    pub frame: FrameExtents,
}

/// The window geometry derived from one window's replies: the content rect
/// starts at the translated origin with the shape extents, and the outer rect
/// has the left/top padding subtracted from the origin and the padding of
/// both sides added back into the width and height.
pub open spec fn spec_window_of(raw: RawWindow) -> Window {
    Window {
        outer_rect: Rectangle {
            x: (raw.x - raw.frame.left) as i64,
            y: (raw.y - raw.frame.top) as i64,
            w: (raw.width + raw.frame.left + raw.frame.right) as i64,
            h: (raw.height + raw.frame.top + raw.frame.bottom) as i64,
        },
        content_rect: Rectangle {
            x: raw.x as i64,
            y: raw.y as i64,
            w: raw.width as i64,
            h: raw.height as i64,
        },
    }
}

/// Compute a window's decorated and content rectangles from its replies.
///
/// The frame extents are non-negative, so the outer rect always encloses the
/// content rect: it starts no further right or down, and is at least as wide
/// and as tall.
pub fn window_of(raw: &RawWindow) -> (w: Window)
    ensures
        w == spec_window_of(*raw),
        w.outer_rect.normalised(),
        w.content_rect.normalised(),
        w.outer_rect.x <= w.content_rect.x,
        w.outer_rect.y <= w.content_rect.y,
        w.outer_rect.w >= w.content_rect.w,
        w.outer_rect.h >= w.content_rect.h,
        w.outer_rect.x + w.outer_rect.w >= w.content_rect.x + w.content_rect.w,
        w.outer_rect.y + w.outer_rect.h >= w.content_rect.y + w.content_rect.h,
{
    let outer_rect = Rectangle {
        x: raw.x as i64 - raw.frame.left as i64,
        y: raw.y as i64 - raw.frame.top as i64,
        w: raw.width as i64 + raw.frame.left as i64 + raw.frame.right as i64,
        h: raw.height as i64 + raw.frame.top as i64 + raw.frame.bottom as i64,
    };
    let content_rect = Rectangle {
        x: raw.x as i64,
        y: raw.y as i64,
        w: raw.width as i64,
        h: raw.height as i64,
    };
    Window { outer_rect, content_rect }
}

/// The windows kept from a list of per-window replies: those reported mapped
/// and viewable, in the order they were listed, each with its derived
/// geometry.
pub open spec fn spec_visible_windows(raws: Seq<RawWindow>) -> Seq<Window> {
    raws.filter_map(
        |raw: RawWindow|
            if raw.viewable {
                Some(spec_window_of(raw))
            } else {
                None
            },
    )
}

/// Turn the per-window replies into the window list: a window whose
/// attributes report it as not currently mapped and viewable is skipped, and
/// every other window contributes its derived geometry, in stacking order.
#[verifier::loop_isolation(false)]
pub fn visible_windows(raws: &Vec<RawWindow>) -> (ws: Vec<Window>)
    ensures
        ws@ == spec_visible_windows(raws@),
{
    let ghost f = |raw: RawWindow|
        if raw.viewable {
            Some(spec_window_of(raw))
        } else {
            None
        };
    let mut ws: Vec<Window> = Vec::new();
    let n = raws.len();
    proof {
        assert(raws@.take(0int).filter_map(f) =~= Seq::<Window>::empty());
    }
    for i in 0..n
        invariant
            n == raws@.len(),
            ws@ == raws@.take(i as int).filter_map(f),
    {
        proof {
            raws@.lemma_filter_map_take_succ(f, i as int);
        }
        if raws[i].viewable {
            let w = window_of(&raws[i]);
            ws.push(w);
        }
        proof {
            assert(ws@ =~= raws@.take(i as int + 1).filter_map(f));
        }
    }
    proof {
        assert(raws@.take(n as int) =~= raws@);
    }
    ws
}

/// No window in the enumerated list came from a reply that reported it
/// unmapped: every entry derives from some viewable reply.
pub proof fn lemma_windows_only_viewable(raws: Seq<RawWindow>, k: int)
    requires
        0 <= k < spec_visible_windows(raws).len(),
    ensures
        exists|j: int|
            0 <= j < raws.len() && (#[trigger] raws[j]).viewable
                && spec_visible_windows(raws)[k] == spec_window_of(raws[j]),
{
    let f = |raw: RawWindow|
        if raw.viewable {
            Some(spec_window_of(raw))
        } else {
            None
        };
    let ws = spec_visible_windows(raws);
    assert(ws.contains(ws[k]));
    raws.lemma_filter_map_contains(f, ws[k]);
    let t = choose|t: RawWindow| #[trigger] raws.contains(t) && f(t) == Some(ws[k]);
    let j = choose|j: int| 0 <= j < raws.len() && raws[j] == t;
    assert(raws[j].viewable && spec_visible_windows(raws)[k] == spec_window_of(raws[j]));
}

} // verus!

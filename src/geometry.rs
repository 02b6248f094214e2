use vstd::prelude::*;

use crate::error::CaptureError;

verus! {

/// An axis-aligned rectangle in the physical pixel space shared by all
/// displays: its origin may be negative (a display left of the primary one).
#[derive(Clone, Copy, Debug, PartialEq, Eq, Structural)]
pub struct Rect {
    pub x: i32,
    pub y: i32,
    pub width: u32,
    pub height: u32,
}

/// A region of a captured frame, relative to the frame's top-left corner.
#[derive(Clone, Copy, Debug, PartialEq, Eq, Structural)]
pub struct CropRect {
    pub x: u32,
    pub y: u32,
    pub width: u32,
    pub height: u32,
}

pub open spec fn min_int(a: int, b: int) -> int {
    if a <= b { a } else { b }
}

pub open spec fn max_int(a: int, b: int) -> int {
    if a >= b { a } else { b }
}

impl Rect {
    pub open spec fn right(self) -> int {
        self.x + self.width
    }

    pub open spec fn bottom(self) -> int {
        self.y + self.height
    }

    /// The half-open rectangle holds the point.
    pub open spec fn holds(self, px: int, py: int) -> bool {
        self.x <= px < self.right() && self.y <= py < self.bottom()
    }

    /// The two rectangles share at least one pixel.
    pub open spec fn overlaps(self, other: Rect) -> bool {
        max_int(self.x as int, other.x as int) < min_int(self.right(), other.right())
            && max_int(self.y as int, other.y as int) < min_int(self.bottom(), other.bottom())
    }

    /// `other` lies entirely within `self`.
    pub open spec fn encloses(self, other: Rect) -> bool {
        self.x <= other.x && other.right() <= self.right() && self.y <= other.y
            && other.bottom() <= self.bottom()
    }

    pub open spec fn center_x(self) -> int {
        self.x + self.width as int / 2
    }

    pub open spec fn center_y(self) -> int {
        self.y + self.height as int / 2
    }

    /// Whether the rectangle holds the point `(px, py)`.
    pub fn contains_point(&self, px: i64, py: i64) -> (r: bool)
        ensures
            r == self.holds(px as int, py as int),
    {
        let right = self.x as i64 + self.width as i64;
        let bottom = self.y as i64 + self.height as i64;
        self.x as i64 <= px && px < right && self.y as i64 <= py && py < bottom
    }

    /// The center point, rounded toward the origin of the rectangle.
    pub fn center(&self) -> (r: (i64, i64))
        ensures
            r.0 == self.center_x(),
            r.1 == self.center_y(),
    {
        (self.x as i64 + (self.width / 2) as i64, self.y as i64 + (self.height / 2) as i64)
    }
}

/// Returns the index of the first display whose rectangle holds the point
/// `(px, py)`, or `None` when no display does.
pub fn display_containing(px: i64, py: i64, displays: &Vec<Rect>) -> (r: Option<usize>)
    ensures
        match r {
            Some(i) => i < displays@.len() && displays@[i as int].holds(px as int, py as int)
                && forall|k: int| 0 <= k < i ==> !displays@[k].holds(px as int, py as int),
            None => forall|k: int|
                0 <= k < displays@.len() ==> !displays@[k].holds(px as int, py as int),
        },
{
    let mut i: usize = 0;
    while i < displays.len()
        invariant
            i <= displays@.len(),
            forall|k: int| 0 <= k < i ==> !displays@[k].holds(px as int, py as int),
        decreases displays@.len() - i,
    {
        if displays[i].contains_point(px, py) {
            return Some(i);
        }
        i = i + 1;
    }
    None
}

/// Chooses the display to capture for `target`: the first display that
/// holds the target's center point, or else the first display.
pub fn select_display(target: &Rect, displays: &Vec<Rect>) -> (r: Result<usize, CaptureError>)
    ensures
        displays@.len() == 0 <==> r == Err::<usize, CaptureError>(CaptureError::NoMonitor),
        match r {
            Ok(i) => i < displays@.len() && (if displays@[i as int].holds(
                target.center_x(),
                target.center_y(),
            ) {
                forall|k: int|
                    0 <= k < i ==> !displays@[k].holds(target.center_x(), target.center_y())
            } else {
                i == 0 && forall|k: int|
                    0 <= k < displays@.len() ==> !displays@[k].holds(
                        target.center_x(),
                        target.center_y(),
                    )
            }),
            Err(e) => e == CaptureError::NoMonitor,
        },
{
    if displays.len() == 0 {
        return Err(CaptureError::NoMonitor);
    }
    let (cx, cy) = target.center();
    match display_containing(cx, cy, displays) {
        Some(i) => Ok(i),
        None => Ok(0),
    }
}

/// The bounds to capture: the window's bounds when a window is targeted,
/// else the full bounds of the first display.
pub fn resolve_target(window: Option<Rect>, displays: &Vec<Rect>) -> (r: Result<Rect, CaptureError>)
    ensures
        r == (match window {
            Some(w) => Ok(w),
            None => if displays@.len() == 0 {
                Err(CaptureError::NoMonitor)
            } else {
                Ok(displays@[0])
            },
        }),
{
    match window {
        Some(w) => Ok(w),
        None => {
            if displays.len() == 0 {
                Err(CaptureError::NoMonitor)
            } else {
                Ok(displays[0])
            }
        },
    }
}

/// The part of `target` that a frame of `frame_width` by `frame_height`
/// pixels captured from `display` shows, in frame coordinates: the
/// intersection of the target with the display, clamped to the frame's
/// extent. `None` when that part is empty.
pub open spec fn crop_spec(target: Rect, display: Rect, frame_width: int, frame_height: int) -> Option<CropRect> {
    let lo_x = max_int(target.x as int, display.x as int) - display.x;
    let lo_y = max_int(target.y as int, display.y as int) - display.y;
    let hi_x = min_int(min_int(target.right(), display.right()) - display.x, frame_width);
    let hi_y = min_int(min_int(target.bottom(), display.bottom()) - display.y, frame_height);
    if lo_x < hi_x && lo_y < hi_y {
        Some(CropRect {
            x: lo_x as u32,
            y: lo_y as u32,
            width: (hi_x - lo_x) as u32,
            height: (hi_y - lo_y) as u32,
        })
    } else {
        None
    }
}

/// Computes the region of a frame captured from `display` that shows
/// `target`; fails with `OutsideVisibleArea` when that region is empty.
pub fn crop_region(target: &Rect, display: &Rect, frame_width: u32, frame_height: u32) -> (r: Result<CropRect, CaptureError>)
    ensures
        r == (match crop_spec(*target, *display, frame_width as int, frame_height as int) {
            Some(c) => Ok(c),
            None => Err(CaptureError::OutsideVisibleArea),
        }),
{
    let tx = target.x as i64;
    let ty = target.y as i64;
    let dx = display.x as i64;
    let dy = display.y as i64;
    let lo_x = if tx >= dx { tx } else { dx } - dx;
    let lo_y = if ty >= dy { ty } else { dy } - dy;
    let t_right = tx + target.width as i64;
    let d_right = dx + display.width as i64;
    let t_bottom = ty + target.height as i64;
    let d_bottom = dy + display.height as i64;
    let right = if t_right <= d_right { t_right } else { d_right } - dx;
    let bottom = if t_bottom <= d_bottom { t_bottom } else { d_bottom } - dy;
    let hi_x = if right <= frame_width as i64 { right } else { frame_width as i64 };
    let hi_y = if bottom <= frame_height as i64 { bottom } else { frame_height as i64 };
    if lo_x < hi_x && lo_y < hi_y {
        Ok(CropRect {
            x: lo_x as u32,
            y: lo_y as u32,
            width: (hi_x - lo_x) as u32,
            height: (hi_y - lo_y) as u32,
        })
    } else {
        Err(CaptureError::OutsideVisibleArea)
    }
}

/// A window that lies wholly within a display, captured in a frame of the
/// display's own size, is cropped to exactly the window's size, at the
/// window's offset from the display's origin.
pub proof fn lemma_enclosed_target_keeps_size(target: Rect, display: Rect)
    requires
        display.encloses(target),
        target.width > 0,
        target.height > 0,
    ensures
        crop_spec(target, display, display.width as int, display.height as int) == Some(
            CropRect {
                x: (target.x - display.x) as u32,
                y: (target.y - display.y) as u32,
                width: target.width,
                height: target.height,
            },
        ),
{
}

/// A crop never reaches past the frame's extent nor exceeds the target's
/// size, and it spans exactly the part of the target that both the display
/// and the frame show.
pub proof fn lemma_crop_is_clamped(target: Rect, display: Rect, frame_width: u32, frame_height: u32)
    ensures
        match crop_spec(target, display, frame_width as int, frame_height as int) {
            Some(c) => {
                &&& c.width > 0 && c.height > 0
                &&& c.x + c.width <= frame_width
                &&& c.y + c.height <= frame_height
                &&& c.width <= target.width
                &&& c.height <= target.height
                &&& display.x + c.x == max_int(target.x as int, display.x as int)
                &&& display.y + c.y == max_int(target.y as int, display.y as int)
                &&& display.x + c.x + c.width == min_int(
                    min_int(target.right(), display.right()),
                    display.x + frame_width,
                )
                &&& display.y + c.y + c.height == min_int(
                    min_int(target.bottom(), display.bottom()),
                    display.y + frame_height,
                )
            },
            None => true,
        },
{
}

/// A target that overlaps no display yields no crop from whichever display
/// is selected for it.
pub proof fn lemma_target_off_screen_fails(
    target: Rect,
    displays: Seq<Rect>,
    chosen: int,
    frame_width: u32,
    frame_height: u32,
)
    requires
        0 <= chosen < displays.len(),
        forall|k: int| 0 <= k < displays.len() ==> !target.overlaps(#[trigger] displays[k]),
    ensures
        crop_spec(target, displays[chosen], frame_width as int, frame_height as int) is None,
{
    assert(!target.overlaps(displays[chosen]));
}

} // verus!

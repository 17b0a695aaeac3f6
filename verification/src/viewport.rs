//! Viewport arithmetic for drawing a frame: shifting the viewport after a
//! terminal resize, and fitting it to the screen with a scroll when it would
//! reach past the bottom.

use vstd::prelude::*;

verus! {

/// A rectangle on the terminal grid.
#[derive(Clone, Copy, Debug, PartialEq, Eq, Structural)]
pub struct Rect {
    pub x: u16,
    pub y: u16,
    pub width: u16,
    pub height: u16,
}

/// The viewport moved vertically by the cursor's displacement after a
/// resize, clamped to the grid.
pub fn shift_viewport(area: Rect, cursor_y: u16, last_cursor_y: u16) -> (r: Rect)
    ensures
        r.x == area.x,
        r.width == area.width,
        r.height == area.height,
        r.y as int == if area.y + cursor_y - last_cursor_y < 0 {
            0
        } else if area.y + cursor_y - last_cursor_y > u16::MAX as int {
            u16::MAX as int
        } else {
            area.y + cursor_y - last_cursor_y
        },
{
    let shifted: i64 = area.y as i64 + cursor_y as i64 - last_cursor_y as i64;
    let y: u16 = if shifted < 0 {
        0
    } else if shifted > u16::MAX as i64 {
        u16::MAX
    } else {
        shifted as u16
    };
    Rect { x: area.x, y, width: area.width, height: area.height }
}

/// The viewport fitted to the screen: full width, the desired height capped
/// by the screen, and, when its bottom would reach past the screen, the
/// number of lines to scroll the region up and the viewport pinned to the
/// bottom.
pub fn fit_viewport(viewport: Rect, screen_width: u16, screen_height: u16, desired_height: u16) -> (r: (
    Rect,
    u16,
))
    ensures
        r.0.x == viewport.x,
        r.0.width == screen_width,
        r.0.height == if desired_height < screen_height {
            desired_height
        } else {
            screen_height
        },
        viewport.y + r.0.height > screen_height ==> {
            &&& r.1 == viewport.y + r.0.height - screen_height
            &&& r.0.y == screen_height - r.0.height
        },
        viewport.y + r.0.height <= screen_height ==> (r.1 == 0 && r.0.y == viewport.y),
{
    let height: u16 = if desired_height < screen_height {
        desired_height
    } else {
        screen_height
    };
    let mut area = Rect { x: viewport.x, y: viewport.y, width: screen_width, height };
    let bottom: u32 = area.y as u32 + height as u32;
    if bottom > screen_height as u32 {
        let scroll: u16 = (bottom - screen_height as u32) as u16;
        area.y = screen_height - height;
        (area, scroll)
    } else {
        (area, 0)
    }
}

} // verus!

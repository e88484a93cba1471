//! The difficulty-selection screen's decision logic: which of the three
//! fixed buttons, laid out from the screen width, a click lands on.

use vstd::prelude::*;

verus! {

pub const BUTTON_WIDTH: i32 = 200;
pub const BUTTON_HEIGHT: i32 = 60;
pub const EASY_BUTTON_Y: i32 = 250;
pub const MEDIUM_BUTTON_Y: i32 = 330;
pub const HARD_BUTTON_Y: i32 = 410;

/// True iff (px, py) lies in the button rectangle with top-left corner
/// (x, y), boundary included on all four edges.
pub open spec fn in_button(x: int, y: int, width: int, height: int, px: int, py: int) -> bool {
    x <= px <= x + width && y <= py <= y + height
}

/// The horizontal position all three buttons share: centered on a screen of
/// the given width.
pub open spec fn spec_button_x(screen_width: int) -> int {
    screen_width / 2 - BUTTON_WIDTH as int / 2
}

/// The difficulty a click at (px, py) selects on a screen of the given
/// width, if any: the three buttons are scanned top to bottom and the first
/// one containing the point wins (they do not overlap, but the contract
/// fixes the order regardless).
pub open spec fn spec_selection(screen_width: int, px: int, py: int) -> Option<u8> {
    let bx = spec_button_x(screen_width);
    if in_button(bx, EASY_BUTTON_Y as int, BUTTON_WIDTH as int, BUTTON_HEIGHT as int, px, py) {
        Some(1u8)
    } else if in_button(
        bx,
        MEDIUM_BUTTON_Y as int,
        BUTTON_WIDTH as int,
        BUTTON_HEIGHT as int,
        px,
        py,
    ) {
        Some(2u8)
    } else if in_button(
        bx,
        HARD_BUTTON_Y as int,
        BUTTON_WIDTH as int,
        BUTTON_HEIGHT as int,
        px,
        py,
    ) {
        Some(3u8)
    } else {
        None
    }
}

/// Rectangle containment test for a button, boundary included.
pub fn is_button_clicked(x: i32, y: i32, width: i32, height: i32, mouse_x: i32, mouse_y: i32) -> (r:
    bool)
    ensures
        r == in_button(
            x as int,
            y as int,
            width as int,
            height as int,
            mouse_x as int,
            mouse_y as int,
        ),
{
    let x = x as i64;
    let y = y as i64;
    let width = width as i64;
    let height = height as i64;
    let mouse_x = mouse_x as i64;
    let mouse_y = mouse_y as i64;
    mouse_x >= x && mouse_x <= x + width && mouse_y >= y && mouse_y <= y + height
}

/// The difficulty (1, 2 or 3) a click selects, or None if it misses all
/// three buttons. Pure: only the click position and the screen width enter.
pub fn menu_selection(screen_width: i32, mouse_x: i32, mouse_y: i32) -> (r: Option<u8>)
    requires
        0 <= screen_width,
    ensures
        r == spec_selection(screen_width as int, mouse_x as int, mouse_y as int),
{
    let button_x = screen_width / 2 - BUTTON_WIDTH / 2;
    if is_button_clicked(button_x, EASY_BUTTON_Y, BUTTON_WIDTH, BUTTON_HEIGHT, mouse_x, mouse_y) {
        Some(1)
    } else if is_button_clicked(
        button_x,
        MEDIUM_BUTTON_Y,
        BUTTON_WIDTH,
        BUTTON_HEIGHT,
        mouse_x,
        mouse_y,
    ) {
        Some(2)
    } else if is_button_clicked(
        button_x,
        HARD_BUTTON_Y,
        BUTTON_WIDTH,
        BUTTON_HEIGHT,
        mouse_x,
        mouse_y,
    ) {
        Some(3)
    } else {
        None
    }
}

} // verus!

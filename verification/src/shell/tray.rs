//! The notification-area icon, drawn as owned RGBA pixels.

use vstd::prelude::*;

verus! {

pub const TRAY_ICON_SIDE: u32 = 32;

/// A square RGBA image, four bytes per pixel, rows top to bottom.
#[derive(Debug, Clone)]
pub struct TrayIconRgba {
    pub rgba: Vec<u8>,
    pub width: u32,
    pub height: u32,
}

/// Whether pixel `(x, y)` belongs to the icon's frame.
pub open spec fn tray_border(x: int, y: int) -> bool {
    x == 3 || x == 28 || y == 2 || y == 29
}

/// Whether pixel `(x, y)` is one of the three ink bars (the middle one
/// spanning the whole width, the outer ones split in two).
pub open spec fn tray_ink(x: int, y: int) -> bool {
    7 <= x <= 24 && ((6 <= y <= 9) || (14 <= y <= 17) || (23 <= y <= 26)) && (x <= 12 || x >= 19
        || (14 <= y <= 17))
}

/// Channel `c` of pixel `(x, y)`: transparent outside the note, then frame,
/// ink or paper, all opaque.
pub open spec fn tray_channel(x: int, y: int, c: int) -> u8 {
    if !(3 <= x < 29 && 2 <= y < 30) {
        0
    } else if tray_border(x, y) {
        if c == 0 {
            120
        } else if c == 1 {
            96
        } else if c == 2 {
            38
        } else {
            255
        }
    } else if tray_ink(x, y) {
        if c == 0 {
            54
        } else if c == 1 {
            48
        } else if c == 2 {
            36
        } else {
            255
        }
    } else {
        if c == 0 {
            250
        } else if c == 1 {
            238
        } else if c == 2 {
            188
        } else {
            255
        }
    }
}

fn pixel_channel(x: usize, y: usize, c: usize) -> (r: u8)
    requires
        c < 4,
    ensures
        r == tray_channel(x as int, y as int, c as int),
{
    if !(3 <= x && x < 29 && 2 <= y && y < 30) {
        return 0;
    }
    let border = x == 3 || x == 28 || y == 2 || y == 29;
    let ink = 7 <= x && x <= 24 && ((6 <= y && y <= 9) || (14 <= y && y <= 17) || (23 <= y && y
        <= 26)) && (x <= 12 || x >= 19 || (14 <= y && y <= 17));
    let color: [u8; 4] = if border {
        [120, 96, 38, 255]
    } else if ink {
        [54, 48, 36, 255]
    } else {
        [250, 238, 188, 255]
    };
    color[c]
}

/// The 32 × 32 icon: byte `4 * (32 * y + x) + c` is channel `c` of pixel
/// `(x, y)`.
pub fn tray_icon() -> (r: TrayIconRgba)
    ensures
        r.width == 32 && r.height == 32,
        r.rgba@.len() == 4096,
        forall|p: int, c: int|
            0 <= p < 1024 && 0 <= c < 4 ==> #[trigger] r.rgba@[4 * p + c] == tray_channel(
                p % 32,
                p / 32,
                c,
            ),
{
    let mut rgba: Vec<u8> = Vec::new();
    let mut p: usize = 0;
    while p < 1024
        invariant
            p <= 1024,
            rgba@.len() == 4 * p,
            forall|q: int, c: int|
                0 <= q < p && 0 <= c < 4 ==> #[trigger] rgba@[4 * q + c] == tray_channel(
                    q % 32,
                    q / 32,
                    c,
                ),
        decreases 1024 - p,
    {
        let x = p % 32;
        let y = p / 32;
        let mut c: usize = 0;
        while c < 4
            invariant
                p < 1024,
                x == p % 32,
                y == p / 32,
                c <= 4,
                rgba@.len() == 4 * p + c,
                forall|q: int, d: int|
                    0 <= q < p && 0 <= d < 4 ==> #[trigger] rgba@[4 * q + d] == tray_channel(
                        q % 32,
                        q / 32,
                        d,
                    ),
                forall|d: int| 0 <= d < c ==> #[trigger] rgba@[4 * p + d] == tray_channel(
                    p as int % 32,
                    p as int / 32,
                    d,
                ),
            decreases 4 - c,
        {
            rgba.push(pixel_channel(x, y, c));
            c += 1;
        }
        proof {
            assert forall|q: int, d: int| 0 <= q < p + 1 && 0 <= d < 4 implies #[trigger] rgba@[4
                * q + d] == tray_channel(q % 32, q / 32, d) by {
                if q == p as int {
                    assert(rgba@[4 * p + d] == tray_channel(p as int % 32, p as int / 32, d));
                }
            }
        }
        p += 1;
    }
    TrayIconRgba { rgba, width: 32, height: 32 }
}

} // verus!

//! Where things go on the screen, in terminal cells.

use vstd::prelude::*;

verus! {

/// A rectangle of terminal cells.
#[derive(Clone, Copy, PartialEq, Eq, Structural, Debug)]
pub struct Area {
    pub x: u16,
    pub y: u16,
    pub width: u16,
    pub height: u16,
}

/// The banner is three rows high, five cells in from each side, its middle
/// row at the screen's middle. A screen narrower than ten cells or lower
/// than two rows has no room for it: the box's position or width would fall
/// below zero, so there is no area and no banner is drawn.
pub fn banner_area(screen: Area) -> (r: Option<Area>)
    ensures
        r == (if screen.width >= 10 && screen.height >= 2 {
            Some(
                Area {
                    x: 5,
                    y: (screen.height / 2 - 1) as u16,
                    width: (screen.width - 10) as u16,
                    height: 3,
                },
            )
        } else {
            None
        }),
{
    if screen.width >= 10 && screen.height >= 2 {
        Some(Area { x: 5, y: screen.height / 2 - 1, width: screen.width - 10, height: 3 })
    } else {
        None
    }
}

/// The quit hint sits on the top row, its right end one cell in from the
/// screen's right edge. Where it does not fit its column would fall below
/// zero, so there is no area and the hint is not drawn.
pub fn quit_hint_area(screen_width: u16, hint_width: u16) -> (r: Option<Area>)
    ensures
        r == (if hint_width + 1 <= screen_width {
            Some(
                Area { x: (screen_width - 1 - hint_width) as u16, y: 0, width: hint_width, height: 1 },
            )
        } else {
            None
        }),
{
    if screen_width >= 1 && hint_width <= screen_width - 1 {
        Some(Area { x: screen_width - 1 - hint_width, y: 0, width: hint_width, height: 1 })
    } else {
        None
    }
}

/// A box of the given size in the middle of the screen, as far as it fits.
pub fn centered_area(screen: Area, width: u16, height: u16) -> (r: Area)
    ensures
        r.x == (if screen.width >= width {
            (screen.width - width) / 2
        } else {
            0
        }),
        r.y == (if screen.height >= height {
            (screen.height - height) / 2
        } else {
            0
        }),
        r.width == width,
        r.height == height,
{
    let x = screen.width.saturating_sub(width) / 2;
    let y = screen.height.saturating_sub(height) / 2;
    Area { x, y, width, height }
}

/// The room one control takes, ` [key] ` then `label `, measured in bytes.
pub open spec fn control_len(c: (&str, &str)) -> int {
    c.0.len() as int + 4 + c.1.len() as int + 1
}

/// The room the first `k` controls take, in bytes.
pub open spec fn controls_len(cs: Seq<(&str, &str)>, k: int) -> int
    decreases k,
{
    if k <= 0 {
        0
    } else {
        controls_len(cs, k - 1) + control_len(cs[k - 1])
    }
}

/// Which controls the controls bar shows, from the first on.
#[derive(Clone, Copy, PartialEq, Eq, Structural, Debug)]
pub struct ControlsFit {
    /// How many controls are shown.
    pub shown: usize,
    /// Whether `...` follows them.
    pub ellipsis: bool,
}

/// Fills the bar from the first control on while strictly more than four
/// cells stay free, each control counted by the bytes of its text, and marks with `...` a bar that ran out of room with
/// cells to spare below zero.
pub fn fit_controls(inner_width: u16, controls: &Vec<(&str, &str)>) -> (r: ControlsFit)
    ensures
        r.shown <= controls@.len(),
        forall|k: int|
            1 <= k <= r.shown ==> inner_width - 4 - controls_len(controls@, k) > 0,
        r.shown < controls@.len() ==> inner_width - 4 - controls_len(controls@, r.shown + 1)
            <= 0,
        r.ellipsis == (inner_width - 4 - controls_len(
            controls@,
            if r.shown < controls@.len() {
                r.shown + 1
            } else {
                r.shown as int
            },
        ) < 0),
{
    let mut remaining: i128 = inner_width as i128 - 4;
    let mut i: usize = 0;
    while i < controls.len()
        invariant
            i <= controls@.len(),
            remaining == inner_width - 4 - controls_len(controls@, i as int),
            i > 0 ==> remaining > 0,
            forall|k: int| 1 <= k <= i ==> inner_width - 4 - controls_len(controls@, k) > 0,
            remaining <= 65535,
        decreases controls@.len() - i,
    {
        let (a, b) = controls[i];
        let l: usize = a.len();
        let m: usize = b.len();
        proof {
            assert(remaining > -5);
        }
        remaining = remaining - (l as i128 + 4 + m as i128 + 1);
        if remaining <= 0 {
            return ControlsFit { shown: i, ellipsis: remaining < 0 };
        }
        i = i + 1;
    }
    ControlsFit { shown: i, ellipsis: remaining < 0 }
}

/// The column where a line of the given width starts when centred in a
/// space of the given width (halves rounded down); at the left edge when
/// it is wider.
pub fn centered_x(space_width: u16, line_width: u16) -> (r: u16)
    ensures
        r == (if space_width / 2 >= line_width / 2 {
            space_width / 2 - line_width / 2
        } else {
            0
        }),
{
    if space_width / 2 >= line_width / 2 {
        space_width / 2 - line_width / 2
    } else {
        0
    }
}

/// The key and label of each control while browsing.
pub fn browse_controls() -> (r: Vec<(&'static str, &'static str)>)
    ensures
        r@.len() == 7,
        r@[0].0@ == "jk"@ && r@[0].1@ == "Select"@,
        r@[1].0@ == "c"@ && r@[1].1@ == "Connect"@,
        r@[2].0@ == "p"@ && r@[2].1@ == "Pair"@,
        r@[3].0@ == "d"@ && r@[3].1@ == "Disconnect"@,
        r@[4].0@ == "r"@ && r@[4].1@ == "Remove"@,
        r@[5].0@ == "h"@ && r@[5].1@ == "Show/Hide Unammed"@,
        r@[6].0@ == "i"@ && r@[6].1@ == "Inspect device"@,
{
    vec![
        ("jk", "Select"),
        ("c", "Connect"),
        ("p", "Pair"),
        ("d", "Disconnect"),
        ("r", "Remove"),
        ("h", "Show/Hide Unammed"),
        ("i", "Inspect device"),
    ]
}

/// The key and label of each control while inspecting.
pub fn inspect_controls() -> (r: Vec<(&'static str, &'static str)>)
    ensures
        r@.len() == 1,
        r@[0].0@ == "ESC"@ && r@[0].1@ == "Return"@,
{
    vec![("ESC", "Return")]
}

} // verus!

//! Buttons: where they can be hit and how they answer the pointer.

use vstd::prelude::*;
use crate::fixed::lemma_mul_bound;
use crate::geom::{Rect, Vec2};

verus! {

/// Marks a button.
#[derive(Clone, Copy, Debug, PartialEq, Eq, Structural)]
pub struct Button;

/// The part of a button that answers the pointer, relative to the button.
#[derive(Debug)]
pub enum ButtonHotspot {
    /// No part.
    Empty,
    /// Any of some rectangles.
    Rects(Vec<Rect>),
    /// The inside of a polygon.
    Polygon(Vec<Vec2>),
}

/// What the pointer does to a button.
#[derive(Clone, Copy, Debug, PartialEq, Eq, Structural)]
pub enum ButtonInteraction {
    /// Nothing.
    Idle,
    /// It is over the button.
    Hover,
    /// It holds the button down.
    Pressed,
    /// It has let the button go over the button. This lasts one tick.
    Click,
    /// It has left the button while holding it down.
    Cancel,
}

/// Whether a button answers at all.
#[derive(Clone, Copy, Debug, PartialEq, Eq, Structural)]
pub enum ButtonEnabled {
    Enabled,
    Disabled,
}

/// The picture that a button shows.
#[derive(Clone, Copy, Debug, PartialEq, Eq, Structural)]
pub enum ButtonBackground {
    Normal,
    Hover,
    Pressed,
    Disabled,
}

impl Default for ButtonInteraction {
    /// Nothing.
    fn default() -> (r: ButtonInteraction)
        ensures
            r == ButtonInteraction::Idle,
    {
        ButtonInteraction::Idle
    }
}

impl Default for ButtonEnabled {
    /// Enabled.
    fn default() -> (r: ButtonEnabled)
        ensures
            r == ButtonEnabled::Enabled,
    {
        ButtonEnabled::Enabled
    }
}

/// Whether the edge from `a` to `b` crosses the ray that leaves `p` to the
/// right: the edge passes the height of `p`, and does so to the right of `p`.
pub open spec fn crosses(a: Vec2, b: Vec2, p: Vec2) -> bool {
    let rise = b.y as int - a.y as int;
    let left = (p.x as int - a.x as int) * rise;
    let right = (b.x as int - a.x as int) * (p.y as int - a.y as int);
    ((a.y > p.y) != (b.y > p.y)) && if rise > 0 {
        left < right
    } else {
        left > right
    }
}

/// The corner before corner `i` of a closed polygon.
pub open spec fn corner_before(polygon: Seq<Vec2>, i: int) -> Vec2 {
    if i == 0 {
        polygon[polygon.len() - 1]
    } else {
        polygon[i - 1]
    }
}

/// Whether an odd number of the first `n` edges cross the ray that leaves
/// `p` to the right.
pub open spec fn odd_crossings(polygon: Seq<Vec2>, p: Vec2, n: int) -> bool
    decreases n,
{
    if n <= 0 {
        false
    } else {
        odd_crossings(polygon, p, n - 1) != crosses(polygon[n - 1], corner_before(polygon, n - 1), p)
    }
}

/// Whether any of the rectangles holds `p`.
pub open spec fn any_rect(rects: Seq<Rect>, p: Vec2) -> bool {
    exists|i: int| 0 <= i < rects.len() && (#[trigger] rects[i]).spec_contains(p)
}

impl ButtonHotspot {
    /// Whether the hotspot holds `point`: never for the empty one; for
    /// rectangles when one of them does; for a polygon when the ray that
    /// leaves `point` to the right crosses an odd number of its edges.
    pub open spec fn spec_contains(&self, point: Vec2) -> bool {
        match self {
            ButtonHotspot::Empty => false,
            ButtonHotspot::Rects(rects) => any_rect(rects@, point),
            ButtonHotspot::Polygon(polygon) => odd_crossings(polygon@, point, polygon@.len() as int),
        }
    }

    /// Whether the hotspot holds `point`.
    pub fn contains(&self, point: Vec2) -> (r: bool)
        ensures
            r == self.spec_contains(point),
    {
        match self {
            ButtonHotspot::Empty => false,
            ButtonHotspot::Rects(rects) => {
                let mut i: usize = 0;
                while i < rects.len()
                    invariant
                        i <= rects.len(),
                        self matches ButtonHotspot::Rects(held) && held@ == rects@,
                        forall|j: int| 0 <= j < i ==> !(#[trigger] rects@[j]).spec_contains(point),
                    decreases rects.len() - i,
                {
                    if rects[i].contains(point) {
                        assert(rects@[i as int].spec_contains(point));
                        return true;
                    }
                    i += 1;
                }
                false
            },
            ButtonHotspot::Polygon(polygon) => {
                let n: usize = polygon.len();
                if n == 0 {
                    return false;
                }
                let mut inside = false;
                let mut j: usize = n - 1;
                let mut i: usize = 0;
                while i < n
                    invariant
                        i <= n,
                        n == polygon@.len(),
                        n > 0,
                        j < n,
                        polygon@[j as int] == corner_before(polygon@, i as int) || i == n,
                        inside == odd_crossings(polygon@, point, i as int),
                    decreases n - i,
                {
                    let a: Vec2 = polygon[i];
                    let b: Vec2 = polygon[j];
                    if edge_crosses(a, b, point) {
                        inside = !inside;
                    }
                    j = i;
                    i += 1;
                }
                inside
            },
        }
    }
}

/// Whether the edge from `a` to `b` crosses the ray that leaves `p` to the
/// right.
pub fn edge_crosses(a: Vec2, b: Vec2, p: Vec2) -> (r: bool)
    ensures
        r == crosses(a, b, p),
{
    if (a.y > p.y) == (b.y > p.y) {
        return false;
    }
    let rise: i128 = (b.y as i128) - (a.y as i128);
    let run: i128 = (b.x as i128) - (a.x as i128);
    let over: i128 = (p.x as i128) - (a.x as i128);
    let up: i128 = (p.y as i128) - (a.y as i128);
    proof {
        lemma_mul_bound(over as int, rise as int, 0x1_0000_0000, 0x1_0000_0000);
        lemma_mul_bound(run as int, up as int, 0x1_0000_0000, 0x1_0000_0000);
    }
    let left: i128 = over * rise;
    let right: i128 = run * up;
    if rise > 0 {
        left < right
    } else {
        left > right
    }
}

/// How a button answers the pointer in a tick. A disabled button answers
/// nothing. An enabled one hovers while the pointer is over it, is pressed
/// when the pointer goes down on it, clicks when the pointer is let go over
/// it, and cancels when the pointer leaves it while down; a click lasts one
/// tick, a cancel until the pointer is let go.
pub open spec fn next_interaction(
    interaction: ButtonInteraction,
    enabled: ButtonEnabled,
    in_range: bool,
    just_pressed: bool,
    just_released: bool,
) -> ButtonInteraction {
    match enabled {
        ButtonEnabled::Disabled => ButtonInteraction::Idle,
        ButtonEnabled::Enabled => match interaction {
            ButtonInteraction::Idle | ButtonInteraction::Click => if in_range {
                ButtonInteraction::Hover
            } else {
                ButtonInteraction::Idle
            },
            ButtonInteraction::Hover => if !in_range {
                ButtonInteraction::Idle
            } else if just_pressed {
                ButtonInteraction::Pressed
            } else {
                ButtonInteraction::Hover
            },
            ButtonInteraction::Pressed => if !in_range {
                ButtonInteraction::Cancel
            } else if just_released {
                ButtonInteraction::Click
            } else {
                ButtonInteraction::Pressed
            },
            ButtonInteraction::Cancel => if just_released {
                ButtonInteraction::Idle
            } else {
                ButtonInteraction::Cancel
            },
        },
    }
}

/// Lets a button answer the pointer.
pub fn update_interaction(
    interaction: &mut ButtonInteraction,
    enabled: ButtonEnabled,
    in_range: bool,
    just_pressed: bool,
    just_released: bool,
)
    ensures
        *final(interaction) == next_interaction(
            *old(interaction),
            enabled,
            in_range,
            just_pressed,
            just_released,
        ),
{
    *interaction = match enabled {
        ButtonEnabled::Disabled => ButtonInteraction::Idle,
        ButtonEnabled::Enabled => match (*interaction, in_range, just_pressed, just_released) {
            (ButtonInteraction::Idle, false, _, _) => ButtonInteraction::Idle,
            (ButtonInteraction::Click, false, _, _) => ButtonInteraction::Idle,
            (ButtonInteraction::Idle, true, _, _) => ButtonInteraction::Hover,
            (ButtonInteraction::Click, true, _, _) => ButtonInteraction::Hover,
            (ButtonInteraction::Hover, true, false, _) => ButtonInteraction::Hover,
            (ButtonInteraction::Hover, true, true, _) => ButtonInteraction::Pressed,
            (ButtonInteraction::Hover, false, _, _) => ButtonInteraction::Idle,
            (ButtonInteraction::Pressed, true, _, false) => ButtonInteraction::Pressed,
            (ButtonInteraction::Pressed, true, _, true) => ButtonInteraction::Click,
            (ButtonInteraction::Pressed, false, _, _) => ButtonInteraction::Cancel,
            (ButtonInteraction::Cancel, _, _, false) => ButtonInteraction::Cancel,
            (ButtonInteraction::Cancel, _, _, true) => ButtonInteraction::Idle,
        },
    };
}

/// The picture that a button is to show.
pub fn update_background(interaction: &ButtonInteraction, enabled: &ButtonEnabled) -> (r:
    ButtonBackground)
    ensures
        r == match enabled {
            ButtonEnabled::Disabled => ButtonBackground::Disabled,
            ButtonEnabled::Enabled => match interaction {
                ButtonInteraction::Idle | ButtonInteraction::Cancel => ButtonBackground::Normal,
                ButtonInteraction::Hover | ButtonInteraction::Click => ButtonBackground::Hover,
                ButtonInteraction::Pressed => ButtonBackground::Pressed,
            },
        },
{
    match enabled {
        ButtonEnabled::Disabled => ButtonBackground::Disabled,
        ButtonEnabled::Enabled => match interaction {
            ButtonInteraction::Idle | ButtonInteraction::Cancel => ButtonBackground::Normal,
            ButtonInteraction::Hover | ButtonInteraction::Click => ButtonBackground::Hover,
            ButtonInteraction::Pressed => ButtonBackground::Pressed,
        },
    }
}

} // verus!

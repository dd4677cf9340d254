//! Where a popup goes on the screen.

use vstd::prelude::*;

verus! {

/// A rectangle of character cells on the screen.
#[derive(Clone, Copy, Debug, PartialEq, Eq, Structural)]
pub struct Rect {
    pub x: u16,
    pub y: u16,
    pub width: u16,
    pub height: u16,
}

/// The direction in which an area is cut into parts.
#[derive(Clone, Copy, Debug, PartialEq, Eq, Structural)]
pub enum Direction {
    /// The parts stand side by side.
    Horizontal,
    /// The parts stand one above the other.
    Vertical,
}

/// Whether `part` spans `area` across the direction of the cut: a part
/// of a horizontal cut is as high as the area, a part of a vertical cut
/// as wide.
pub open spec fn spans(direction: Direction, area: Rect, part: Rect) -> bool {
    match direction {
        Direction::Horizontal => part.y == area.y && part.height == area.height,
        Direction::Vertical => part.x == area.x && part.width == area.width,
    }
}

/// Whether `part` lies within `area`: no cell of the part is outside the
/// area.
pub open spec fn lies_within(area: Rect, part: Rect) -> bool {
    &&& area.x <= part.x
    &&& part.x + part.width <= area.x + area.width
    &&& area.y <= part.y
    &&& part.y + part.height <= area.y + area.height
}

/// The share of an area, in percent, that is left free on either side of
/// a part that takes `percent` of it and stands in the middle.
pub open spec fn margin_share(percent: u16) -> int {
    (100 - percent) / 2
}

/// Calls `ratatui::layout::Layout::split` on a layout without margin that
/// gives three parts the given percentages of the area. The contract
/// claims that there are as many parts as percentages, that each part
/// spans the area across the direction of the cut, and that each part
/// lies within the area: the layout requires of its solver that every cut
/// falls between the two ends of the area, and a part begins and ends at
/// a cut. Where between the ends the cuts fall is for the solver to say,
/// and nothing is claimed of it.
#[verifier::external_body]
fn split_in_three(direction: Direction, shares: (u16, u16, u16), area: Rect) -> (parts: Vec<Rect>)
    ensures
        parts.len() == 3,
        forall|i: int| 0 <= i < 3 ==> spans(direction, area, #[trigger] parts[i]),
        forall|i: int| 0 <= i < 3 ==> lies_within(area, #[trigger] parts[i]),
{
    let direction = match direction {
        Direction::Horizontal => ratatui::layout::Direction::Horizontal,
        Direction::Vertical => ratatui::layout::Direction::Vertical,
    };
    let area = ratatui::layout::Rect { x: area.x, y: area.y, width: area.width, height: area.height };
    let constraints = [shares.0, shares.1, shares.2].map(ratatui::layout::Constraint::Percentage);
    let parts = ratatui::layout::Layout::default().direction(direction).constraints(constraints).split(area);
    parts.iter().map(|p| Rect { x: p.x, y: p.y, width: p.width, height: p.height }).collect()
}

/// The share of an area that is left free on either side of a part that
/// takes `percent` of it and stands in the middle.
pub fn margin(percent: u16) -> (share: u16)
    requires
        percent <= 100,
    ensures
        share == margin_share(percent),
        share + percent + share <= 100,
{
    (100 - percent) / 2
}

/// The place of a popup that takes `percent_x` of the width and
/// `percent_y` of the height of `r` and stands in its middle: the middle
/// one of three columns of the middle one of three rows, the outer ones
/// sharing what the popup leaves free. The popup lies within `r`, so
/// that what is drawn into it is drawn into `r`.
pub fn centered_rect(percent_x: u16, percent_y: u16, r: Rect) -> (popup: Rect)
    requires
        percent_x <= 100,
        percent_y <= 100,
    ensures
        lies_within(r, popup),
{
    let rows = split_in_three(
        Direction::Vertical,
        (margin(percent_y), percent_y, margin(percent_y)),
        r,
    );
    let columns = split_in_three(
        Direction::Horizontal,
        (margin(percent_x), percent_x, margin(percent_x)),
        rows[1],
    );
    columns[1]
}

} // verus!

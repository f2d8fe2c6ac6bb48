//! Placement of the modal dialogs on the screen.

use ratatui::layout::{Constraint, Direction, Layout, Rect};
use vstd::prelude::*;

verus! {

/// A rectangle of terminal cells.
#[derive(Debug, Clone, Copy, PartialEq, Eq, Structural)]
pub struct Area {
    pub x: u16,
    pub y: u16,
    pub width: u16,
    pub height: u16,
}

/// Direction in which an area is cut.
#[derive(Debug, Clone, Copy, PartialEq, Eq, Structural)]
pub enum Axis {
    /// Into rows, top to bottom.
    Vertical,
    /// Into columns, left to right.
    Horizontal,
}

/// The three parts that ratatui's layout solver gives for an area cut along
/// `axis` into the percentages `first`, `middle`, `last`.
pub uninterp spec fn percent_split(area: Area, axis: Axis, first: u16, middle: u16, last: u16) -> (
    Area,
    Area,
    Area,
);

/// Wrapper of ratatui's `Layout::split` with three `Constraint::Percentage`
/// constraints and no margin. Claimed: the three parts are a function of the
/// area, the axis and the percentages alone (the solver is deterministic;
/// its cache only memoises), named `percent_split`.
#[verifier::external_body]
fn split_percent(area: Area, axis: Axis, first: u16, middle: u16, last: u16) -> (r: (Area, Area, Area))
    ensures
        r == percent_split(area, axis, first, middle, last),
{
    let direction = match axis {
        Axis::Vertical => Direction::Vertical,
        Axis::Horizontal => Direction::Horizontal,
    };
    let parts = Layout::default().direction(direction).constraints(
        [Constraint::Percentage(first), Constraint::Percentage(middle), Constraint::Percentage(last)],
    ).split(Rect::new(area.x, area.y, area.width, area.height));
    let area_of = |r: Rect| Area { x: r.x, y: r.y, width: r.width, height: r.height };
    (area_of(parts[0]), area_of(parts[1]), area_of(parts[2]))
}

/// The middle band when `p` percent is kept and the rest is shared equally
/// on both sides.
pub open spec fn middle_of(area: Area, axis: Axis, p: u16) -> Area {
    let side = ((100 - p) / 2) as u16;
    percent_split(area, axis, side, p, side).1
}

/// A rectangle centred in `area`, `percent_x` wide and `percent_y` high:
/// the middle row band, then the middle column band of it.
pub fn centered_rect(percent_x: u16, percent_y: u16, area: Area) -> (r: Area)
    requires
        percent_x <= 100,
        percent_y <= 100,
    ensures
        r == middle_of(middle_of(area, Axis::Vertical, percent_y), Axis::Horizontal, percent_x),
{
    let side_y = (100 - percent_y) / 2;
    let rows = split_percent(area, Axis::Vertical, side_y, percent_y, side_y);
    let side_x = (100 - percent_x) / 2;
    let cols = split_percent(rows.1, Axis::Horizontal, side_x, percent_x, side_x);
    cols.1
}

} // verus!

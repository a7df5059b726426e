use vstd::prelude::*;
use ratatui::layout::{Constraint, Direction, Layout, Rect};

verus! {

/// A rectangle of terminal cells: top-left corner, width and height.
#[derive(Clone, Copy, PartialEq, Eq, Structural, Debug)]
pub struct Area {
    pub x: u16,
    pub y: u16,
    pub width: u16,
    pub height: u16,
}

/// The direction in which an area is split into bands.
#[derive(Clone, Copy, PartialEq, Eq, Structural, Debug)]
pub enum Axis {
    /// Bands stacked top to bottom.
    Vertical,
    /// Bands side by side, left to right.
    Horizontal,
}

/// The middle band that ratatui's layout solver gives when it splits `area` along `axis`
/// into three bands of `side`, `middle` and `side` percent.
pub uninterp spec fn solved_middle_band(axis: Axis, side: u16, middle: u16, area: Area) -> Area;

/// Splits `area` along `axis` into bands of `side`, `middle` and `side` percent with
/// ratatui's `Layout::split`, and returns the middle band. The solver's result is not
/// restated here: the contract names it.
#[verifier::external_body]
fn split_middle(axis: Axis, side: u16, middle: u16, area: Area) -> (r: Area)
    ensures
        r == solved_middle_band(axis, side, middle, area),
{
    let direction = match axis {
        Axis::Vertical => Direction::Vertical,
        Axis::Horizontal => Direction::Horizontal,
    };
    let rect = Rect { x: area.x, y: area.y, width: area.width, height: area.height };
    let band = Layout::default()
        .direction(direction)
        .constraints([Constraint::Percentage(side), Constraint::Percentage(middle), Constraint::Percentage(side)])
        .split(rect)[1];
    Area { x: band.x, y: band.y, width: band.width, height: band.height }
}

/// The rectangle `percent_x` percent wide and `percent_y` percent high in the middle of
/// `area`: first the middle band of a vertical split, then the middle band of a horizontal
/// split of that, with equal margins on both sides.
pub fn centered_rect(percent_x: u16, percent_y: u16, area: Area) -> (r: Area)
    requires
        percent_x <= 100,
        percent_y <= 100,
    ensures
        r == solved_middle_band(
            Axis::Horizontal,
            ((100 - percent_x) / 2) as u16,
            percent_x,
            solved_middle_band(Axis::Vertical, ((100 - percent_y) / 2) as u16, percent_y, area),
        ),
{
    let vertical = split_middle(Axis::Vertical, (100 - percent_y) / 2, percent_y, area);
    split_middle(Axis::Horizontal, (100 - percent_x) / 2, percent_x, vertical)
}

} // verus!

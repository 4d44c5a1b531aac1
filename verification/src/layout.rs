//! Screen rectangles and the vertical split of a viewport into bands.

use ratatui::layout::{Constraint as Wanted, Direction, Layout, Rect as Area};
use vstd::prelude::*;

verus! {

/// A rectangle of terminal cells: the top left corner and the size.
#[derive(Clone, Copy, Debug, PartialEq, Eq, Structural)]
pub struct Rect {
    pub x: u16,
    pub y: u16,
    pub width: u16,
    pub height: u16,
}

impl Rect {
    /// Whether `self` lies inside `outer`, edges included.
    pub open spec fn within(self, outer: Rect) -> bool {
        &&& outer.x <= self.x
        &&& self.x + self.width <= outer.x + outer.width
        &&& outer.y <= self.y
        &&& self.y + self.height <= outer.y + outer.height
    }
}

/// The size wanted for one band of a split.
#[derive(Clone, Copy, Debug, PartialEq, Eq, Structural)]
pub enum Constraint {
    /// A share of the split area, in percent.
    Percentage(u16),
    /// A fixed number of cells.
    Length(u16),
}

/// What holds of every vertical split of `area` under `constraints`: one band
/// for each constraint, each as wide as the area and inside it. Where the
/// bands start and how high they are is left to the layout solver.
pub open spec fn vertical_bands(area: Rect, constraints: Seq<Constraint>, bands: Seq<Rect>) -> bool {
    &&& bands.len() == constraints.len()
    &&& forall|i: int|
        0 <= i < bands.len() ==> {
            &&& (#[trigger] bands[i]).x == area.x
            &&& bands[i].width == area.width
            &&& bands[i].within(area)
        }
}

/// Splits `area` from top to bottom with `ratatui::layout::Layout::split`,
/// on a vertical layout without margin that holds `constraints`.
///
/// Trusted, not proved: `split` hands back one rectangle for each
/// constraint, each with the column and the width of the area, and its
/// solver is required to keep the top and the bottom of every rectangle
/// between the top and the bottom of the area. The solver may pick among
/// equally good splits differently from run to run, so nothing more is
/// claimed of the rows.
#[verifier::external_body]
pub(crate) fn split_vertical(area: Rect, constraints: &Vec<Constraint>) -> (bands: Vec<Rect>)
    ensures
        vertical_bands(area, constraints@, bands@),
{
    let wanted: Vec<Wanted> = constraints.iter().map(|c| match *c {
        Constraint::Percentage(share) => Wanted::Percentage(share),
        Constraint::Length(cells) => Wanted::Length(cells),
    }).collect();
    let whole = Area { x: area.x, y: area.y, width: area.width, height: area.height };
    let parts = Layout::new().direction(Direction::Vertical).constraints(wanted).split(whole);
    parts.iter().map(|r| Rect { x: r.x, y: r.y, width: r.width, height: r.height }).collect()
}

} // verus!

//! Screen areas and the split of the screen into rows.

use tui::layout::{Constraint, Layout, Rect};
use vstd::prelude::*;

verus! {

/// A rectangle of terminal cells.
#[derive(Debug, Clone, Copy, PartialEq, Eq, Structural)]
pub struct Area {
    /// Column of the left edge.
    pub x: u16,
    /// Row of the top edge.
    pub y: u16,
    /// Number of columns.
    pub width: u16,
    /// Number of rows.
    pub height: u16,
}

impl Area {
    /// The right and bottom edges are coordinates too.
    pub open spec fn on_screen(self) -> bool {
        &&& self.x + self.width <= u16::MAX
        &&& self.y + self.height <= u16::MAX
    }

    /// The area that is left once `vertical` rows are taken off at the top and
    /// at the bottom, and `horizontal` columns at each side: the empty area at
    /// the origin where the area is too small for the margins.
    pub open spec fn inside(self, horizontal: u16, vertical: u16) -> Area {
        if self.width < 2 * horizontal || self.height < 2 * vertical {
            Area { x: 0, y: 0, width: 0, height: 0 }
        } else {
            Area {
                x: (self.x + horizontal) as u16,
                y: (self.y + vertical) as u16,
                width: (self.width - 2 * horizontal) as u16,
                height: (self.height - 2 * vertical) as u16,
            }
        }
    }
}

/// Whether `row` is a row of `inner`: it spans the columns of `inner`, and its
/// top edge is not below the bottom edge of `inner`.
pub open spec fn row_within(row: Area, inner: Area) -> bool {
    &&& row.x == inner.x
    &&& row.width == inner.width
    &&& row.y <= inner.y + inner.height
}

/// The inputs on which an area can be split into rows: the area is on screen,
/// twice each margin is a coordinate, and each percentage of the rows inside
/// the margins, before the division by 100, is one too.
pub open spec fn splittable(area: Area, percents: Seq<u16>, horizontal: u16, vertical: u16) -> bool {
    &&& area.on_screen()
    &&& 2 * horizontal <= u16::MAX
    &&& 2 * vertical <= u16::MAX
    &&& forall|i: int|
        0 <= i < percents.len() ==> (#[trigger] percents[i]) * area.inside(
            horizontal,
            vertical,
        ).height <= u16::MAX
}

/// Calls `tui::layout::Layout::split` on a layout in its default direction,
/// which is top to bottom, with one `Constraint::Percentage` for each entry of
/// `percents` and with the two margins. It is claimed to return one area for
/// each percentage, and of each area what tui demands of the solver without
/// exception: that it spans the columns inside the margins and does not begin
/// below the bottom edge inside the margins. Nothing more is claimed of where
/// the areas lie from top to bottom: the solver behind it walks hash maps.
/// The inputs left out are those on which tui's own arithmetic in `u16`
/// overflows.
#[verifier::external_body]
fn split_rows(area: Area, percents: &Vec<u16>, horizontal: u16, vertical: u16) -> (rows: Vec<Area>)
    requires
        splittable(area, percents@, horizontal, vertical),
    ensures
        rows@.len() == percents@.len(),
        forall|i: int|
            0 <= i < rows@.len() ==> row_within(
                #[trigger] rows@[i],
                area.inside(horizontal, vertical),
            ),
{
    let constraints: Vec<Constraint> = percents.iter().map(|p| Constraint::Percentage(*p)).collect();
    let layout = Layout::default().constraints(constraints).horizontal_margin(horizontal)
        .vertical_margin(vertical);
    let rect = Rect { x: area.x, y: area.y, width: area.width, height: area.height };
    layout.split(rect).iter().map(
        |r| Area { x: r.x, y: r.y, width: r.width, height: r.height },
    ).collect()
}

/// Whether `area` can be split into rows of the given percentages.
pub fn can_split(area: Area, percents: &Vec<u16>, horizontal: u16, vertical: u16) -> (ok: bool)
    ensures
        ok == splittable(area, percents@, horizontal, vertical),
{
    if area.x > u16::MAX - area.width || area.y > u16::MAX - area.height {
        return false;
    }
    if horizontal > u16::MAX / 2 || vertical > u16::MAX / 2 {
        return false;
    }
    let inside: u32 = if area.width < 2 * horizontal || area.height < 2 * vertical {
        0
    } else {
        (area.height - 2 * vertical) as u32
    };
    let mut i: usize = 0;
    while i < percents.len()
        invariant
            i <= percents@.len(),
            inside == area.inside(horizontal, vertical).height,
            inside <= u16::MAX,
            forall|j: int| 0 <= j < i ==> (#[trigger] percents@[j]) * inside <= u16::MAX,
        decreases percents@.len() - i,
    {
        assert(percents@[i as int] * inside <= u16::MAX * u16::MAX) by (nonlinear_arith)
            requires
                percents@[i as int] <= u16::MAX,
                inside <= u16::MAX,
        ;
        if percents[i] as u32 * inside > 0xffff {
            return false;
        }
        i = i + 1;
    }
    true
}

/// Splits `area`, inside the two margins, into rows from top to bottom, one for
/// each percentage. `None` is returned exactly where the area cannot be split;
/// otherwise there is one row for each percentage, and each row spans the
/// columns inside the margins and begins at or above the bottom edge inside
/// the margins. Where the rows lie from top to bottom is decided by the layout
/// solver of tui.
pub fn split(area: Area, percents: &Vec<u16>, horizontal: u16, vertical: u16) -> (rows: Option<
    Vec<Area>,
>)
    ensures
        rows is Some == splittable(area, percents@, horizontal, vertical),
        rows matches Some(r) ==> {
            &&& r@.len() == percents@.len()
            &&& forall|i: int|
                0 <= i < r@.len() ==> row_within(
                    #[trigger] r@[i],
                    area.inside(horizontal, vertical),
                )
        },
{
    if can_split(area, percents, horizontal, vertical) {
        Some(split_rows(area, percents, horizontal, vertical))
    } else {
        None
    }
}

} // verus!

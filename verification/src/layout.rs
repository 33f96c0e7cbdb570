//! Splitting a screen area into parts down its rows or across its columns,
//! with ratatui's constraint layout.
use vstd::prelude::*;

use ratatui::layout::Constraint::{Fill, Length, Max, Min};
use ratatui::layout::Direction::{Horizontal, Vertical};
use ratatui::layout::Flex::{Legacy, Start};
use ratatui::layout::{Layout, Rect};

use self::Extent::{AtLeast, AtMost, Exactly, Share};

use crate::area::{min16, sat_sub16, Area};

verus! {

/// How much of a layout's length a part takes: exactly, at least or at
/// most a number of cells, or a share (by weight) of what the other parts
/// leave.
#[derive(Debug, Clone, Copy, PartialEq, Eq, Structural)]
pub enum Extent {
    Exactly(u16),
    AtLeast(u16),
    AtMost(u16),
    Share(u16),
}

/// What a layout does with the cells its parts leave: leaves them empty
/// at the end, or (the legacy layout) hands them to the parts.
#[derive(Debug, Clone, Copy, PartialEq, Eq, Structural)]
pub enum Flow {
    Start,
    Legacy,
}

/// Which way a layout runs: down the rows or across the columns.
#[derive(Debug, Clone, Copy, PartialEq, Eq, Structural)]
pub enum Axis {
    Down,
    Across,
}

/// Where `a` starts along `axis`.
pub open spec fn start_on(a: Area, axis: Axis) -> int {
    match axis {
        Axis::Down => a.y as int,
        Axis::Across => a.x as int,
    }
}

/// How long `a` is along `axis`.
pub open spec fn length_on(a: Area, axis: Axis) -> int {
    match axis {
        Axis::Down => a.height as int,
        Axis::Across => a.width as int,
    }
}

/// Where `a` ends along `axis` (the first cell past it).
pub open spec fn end_on(a: Area, axis: Axis) -> int {
    match axis {
        Axis::Down => a.spec_bottom() as int,
        Axis::Across => a.spec_right() as int,
    }
}

/// `part` lies in the rows of `area`: it spans the area's columns, and its
/// rows run from the area's top row to at most its bottom.
pub open spec fn in_rows_of(part: Area, area: Area) -> bool {
    &&& part.x == area.x
    &&& part.width == area.width
    &&& area.y <= part.y
    &&& part.y + part.height <= area.spec_bottom()
}

/// `part` lies in the columns of `area`: it spans the area's rows, and its
/// columns run from the area's left column to at most its right edge.
pub open spec fn in_columns_of(part: Area, area: Area) -> bool {
    &&& part.y == area.y
    &&& part.height == area.height
    &&& area.x <= part.x
    &&& part.x + part.width <= area.spec_right()
}

/// `part` lies within `area` along `axis`, spanning it the other way.
pub open spec fn within_on(part: Area, area: Area, axis: Axis) -> bool {
    match axis {
        Axis::Down => in_rows_of(part, area),
        Axis::Across => in_columns_of(part, area),
    }
}

/// The fewest cells a part can take.
pub open spec fn least_size(part: Extent) -> int {
    match part {
        Extent::Exactly(n) => n as int,
        Extent::AtLeast(n) => n as int,
        Extent::AtMost(_) => 0,
        Extent::Share(_) => 0,
    }
}

/// The fewest cells `parts` take together, `spacing` cells apart.
pub open spec fn size_needed(parts: Seq<Extent>, spacing: u16) -> int
    decreases parts.len(),
{
    if parts.len() == 0 {
        0
    } else if parts.len() == 1 {
        least_size(parts[0])
    } else {
        size_needed(parts.drop_last(), spacing) + spacing + least_size(parts.last())
    }
}

/// Some part takes at least a number of cells or a share, and so grows
/// into whatever cells the others leave.
pub open spec fn grows(parts: Seq<Extent>) -> bool {
    exists|i: int| 0 <= i < parts.len() && (parts[i] is AtLeast || parts[i] is Share)
}

/// Every part is exact or a share.
pub open spec fn exact_or_shares(parts: Seq<Extent>) -> bool {
    forall|i: int| 0 <= i < parts.len() ==> (parts[i] is Exactly || parts[i] is Share)
}

/// The cells the exact parts before part `i` take.
pub open spec fn exact_before(parts: Seq<Extent>, i: int) -> int
    decreases i,
{
    if i <= 0 {
        0
    } else {
        exact_before(parts, i - 1) + match parts[i - 1] {
            Extent::Exactly(n) => n as int,
            _ => 0,
        }
    }
}

/// The weights of the shares before part `i`.
pub open spec fn shares_before(parts: Seq<Extent>, i: int) -> int
    decreases i,
{
    if i <= 0 {
        0
    } else {
        shares_before(parts, i - 1) + match parts[i - 1] {
            Extent::Share(n) => n as int,
            _ => 0,
        }
    }
}

/// `split` lays `parts` out in `area` along `axis` as a layout does where
/// they all fit: each part `spacing` cells after the one before it; a part
/// of at least `n` cells at `n` or more; an exact part at its size (at
/// least its size in the `Legacy` flow, which hands the cells left over
/// to the parts instead of leaving them empty) and, but in the `Legacy`
/// flow, a part of at most `n` cells within that bound. The last part
/// reaches the area's end in the `Legacy` flow and where some part
/// grows; else, where it takes at most `n` cells, it takes `n` or the
/// cells left, whichever is fewer. Where the parts are exact parts and
/// shares (with some weight), each share starts within one cell of where
/// its weight puts it: after the exact parts and spacing before it, and
/// the shares' part, by weight, of the cells the exact parts and spacing
/// leave.
pub open spec fn stacked(
    split: Seq<Area>,
    parts: Seq<Extent>,
    spacing: u16,
    area: Area,
    axis: Axis,
    flow: Flow,
) -> bool {
    let legacy = flow == Flow::Legacy;
    let last = split.len() - 1;
    let total = shares_before(parts, parts.len() as int);
    let left = end_on(area, axis) - start_on(area, axis) - size_needed(parts, spacing);
    &&& forall|i: int|
        1 <= i < split.len() ==> start_on(#[trigger] split[i], axis) == start_on(split[i - 1], axis)
            + length_on(split[i - 1], axis) + spacing
    &&& forall|i: int|
        0 <= i < split.len() ==> match parts[i] {
            Extent::Exactly(n) => if legacy {
                length_on(#[trigger] split[i], axis) >= n
            } else {
                length_on(split[i], axis) == n
            },
            Extent::AtLeast(n) => length_on(split[i], axis) >= n,
            Extent::AtMost(n) => !legacy ==> length_on(split[i], axis) <= n,
            Extent::Share(_) => true,
        }
    &&& split.len() > 0 && (legacy || grows(parts)) ==> start_on(split[last], axis) + length_on(
        split[last],
        axis,
    ) == end_on(area, axis)
    &&& split.len() > 0 && !legacy && !grows(parts) ==> (parts[last] matches Extent::AtMost(n)
        ==> length_on(split[last], axis) == min16(
        n,
        sat_sub16(end_on(area, axis) as u16, start_on(split[last], axis) as u16),
    ))
    &&& !legacy && exact_or_shares(parts) && total > 0 ==> forall|i: int|
        0 <= i < split.len() && #[trigger] parts[i] is Share ==> {
            let off = total * (start_on(split[i], axis) - start_on(area, axis) - exact_before(
                parts,
                i,
            ) - spacing * i) - left * shares_before(parts, i);
            -total < off < total
        }
}

/// Splits `area` into parts along `axis` with
/// `ratatui::layout::Layout::split` (no margin; `Flex::Legacy` where
/// `flow` is `Legacy`, else the default `Flex::Start`), one `Constraint` (`Length`,
/// `Min`, `Max`, `Fill`) per part, `spacing` cells between parts.
///
/// What holds of every outcome: one area per part, each within `area`
/// along `axis` and spanning it the other way (the solver's required
/// constraints keep every boundary between the area's start and end, and
/// `changes_to_rects` copies the other coordinate and size). The rest
/// rests on the strengths the source gives its constraints: the first
/// spacer's emptiness (`REQUIRED - 1`) and the spacers' sizes
/// (`REQUIRED / 10`) outweigh every segment constraint, which outweigh the
/// growth terms (a `Fill`'s or, outside the `Legacy` flow, a `Min`'s
/// `FILL_GROW`, a `Max`'s `MAX_SIZE_EQ`, the last spacer's `GROW`), and the
/// pairwise `Fill` ratios, with nothing else pulling on how the shares
/// divide their cells, hold exactly; so the first part starts at the
/// area's start and no part starts before the end of the one before it,
/// and where the parts' least sizes and the spacing fit, the optimum meets
/// them all, as `stacked` states (a boundary is rounded to a whole cell,
/// through hundredths, so a share's start lies within one cell of its
/// exact place). Which split comes out where several are equally good
/// (parts that do not fit, or which exact part takes the cells left over
/// in the `Legacy` flow) is left unsaid. A spacing past `i16::MAX` turns
/// into an overlap (`x as i16` in `try_split`), so these facts are stated
/// for smaller spacings only.
#[verifier::external_body]
pub(crate) fn split_area(area: Area, parts: &Vec<Extent>, spacing: u16, axis: Axis, flow: Flow) -> (r: Vec<Area>)
    ensures
        r@.len() == parts@.len(),
        forall|i: int| 0 <= i < r@.len() ==> within_on(#[trigger] r@[i], area, axis),
        spacing <= 0x7fff && r@.len() > 0 ==> start_on(r@[0], axis) == start_on(area, axis),
        spacing <= 0x7fff ==> forall|i: int|
            1 <= i < r@.len() ==> start_on(r@[i - 1], axis) + length_on(r@[i - 1], axis)
                <= start_on(#[trigger] r@[i], axis),
        spacing <= 0x7fff && size_needed(parts@, spacing) <= end_on(area, axis) - start_on(
            area,
            axis,
        ) ==> stacked(r@, parts@, spacing, area, axis, flow),
{
    let constraints = parts.iter().map(|p| match *p {
        Exactly(n) => Length(n),
        AtLeast(n) => Min(n),
        AtMost(n) => Max(n),
        Share(n) => Fill(n),
    });
    let direction = match axis { Axis::Down => Vertical, Axis::Across => Horizontal };
    let flex = match flow { Flow::Start => Start, Flow::Legacy => Legacy };
    let rect = Rect { x: area.x, y: area.y, width: area.width, height: area.height };
    let split = Layout::new(direction, constraints).flex(flex).spacing(spacing).split(rect);
    split.iter().map(|r| Area { x: r.x, y: r.y, width: r.width, height: r.height }).collect()
}

} // verus!

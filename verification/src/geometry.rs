use vstd::prelude::*;
use ratatui::layout::{Constraint as TermConstraint, Direction as TermDirection, Layout, Rect as TermRect};

verus! {

/// A rectangle on the terminal grid: its top-left corner and its size, in cells.
#[derive(Clone, Copy, Debug, PartialEq, Eq, Structural)]
pub struct Rect {
    pub x: u16,
    pub y: u16,
    pub width: u16,
    pub height: u16,
}

impl Rect {
    /// The empty rectangle at the origin.
    pub fn zero() -> (r: Rect)
        ensures
            r == (Rect { x: 0, y: 0, width: 0, height: 0 }),
    {
        Rect { x: 0, y: 0, width: 0, height: 0 }
    }

    /// `inner` lies entirely inside `self`.
    pub open spec fn contains_rect(self, inner: Rect) -> bool {
        &&& self.x <= inner.x
        &&& self.y <= inner.y
        &&& inner.x + inner.width <= self.x + self.width
        &&& inner.y + inner.height <= self.y + self.height
    }
}

/// The rect of the currently-focused list/table widget, plus how many rows
/// at the top of that rect are a header row (1 for tables with a header,
/// 0 for plain lists) rather than actual items.
#[derive(Clone, Copy, Debug)]
pub struct ActiveListRect {
    pub rect: Rect,
    pub header_rows: u16,
}

/// How much room one part of a split area asks for.
#[derive(Clone, Copy, Debug, PartialEq, Eq, Structural)]
pub enum Constraint {
    /// at least this many cells
    Min(u16),
    /// exactly this many cells
    Length(u16),
    /// this percentage of the split area
    Percentage(u16),
    /// whatever is left, shared among the fills by weight
    Fill(u16),
}

/// The axis along which an area is split.
#[derive(Clone, Copy, Debug, PartialEq, Eq, Structural)]
pub enum Direction {
    Horizontal,
    Vertical,
}

/// The start of `r` along the axis of `direction`.
pub open spec fn start_along(direction: Direction, r: Rect) -> int {
    match direction {
        Direction::Vertical => r.y as int,
        Direction::Horizontal => r.x as int,
    }
}

/// The end of `r` along the axis of `direction`.
pub open spec fn end_along(direction: Direction, r: Rect) -> int {
    match direction {
        Direction::Vertical => r.y + r.height,
        Direction::Horizontal => r.x + r.width,
    }
}

/// `r` spans the whole of `area` across the axis of `direction`.
pub open spec fn spans_across(direction: Direction, area: Rect, r: Rect) -> bool {
    match direction {
        Direction::Vertical => r.x == area.x && r.width == area.width,
        Direction::Horizontal => r.y == area.y && r.height == area.height,
    }
}

/// The facts that hold of every answer of the layout solver for `constraints`
/// along `direction` inside `area`: one part per constraint, each spanning
/// `area` across the axis, lying inside `area` along it, in order.
pub open spec fn split_shape(direction: Direction, constraints: Seq<Constraint>, area: Rect, chunks: Seq<Rect>) -> bool {
    &&& chunks.len() == constraints.len()
    &&& forall|i: int| 0 <= i < chunks.len() ==> spans_across(direction, area, #[trigger] chunks[i])
    &&& forall|i: int| 0 <= i < chunks.len() ==> start_along(direction, area) <= start_along(direction, #[trigger] chunks[i])
        && end_along(direction, chunks[i]) <= end_along(direction, area)
    &&& forall|i: int, j: int| 0 <= i < j < chunks.len() ==> end_along(direction, #[trigger] chunks[i]) <= start_along(direction, #[trigger] chunks[j])
}

/// `chunks` is an answer of the layout solver to the request `constraints`
/// along `direction` inside `area`. Only `split_area` establishes it, so it
/// ties the parts to the very constraints asked for; what is known of its
/// shape is `split_shape` (see `lemma_split_outcome`). Where the parts lie
/// along the axis is otherwise the solver's choice.
pub closed spec fn split_outcome(direction: Direction, constraints: Seq<Constraint>, area: Rect, chunks: Seq<Rect>) -> bool {
    split_shape(direction, constraints, area, chunks)
}

/// What every answer of the layout solver looks like.
pub proof fn lemma_split_outcome(direction: Direction, constraints: Seq<Constraint>, area: Rect, chunks: Seq<Rect>)
    requires
        split_outcome(direction, constraints, area, chunks),
    ensures
        split_shape(direction, constraints, area, chunks),
{
}

/// Calls ratatui's `Layout::new(direction, constraints).split(area)`.
/// Trusted, of every answer (see `split_shape`): one area per constraint (the
/// solver works on 2n+2 variables and returns n segments); each area takes its
/// cross-axis position and size from `area`, as `changes_to_rects` builds them
/// with no margin; and, the solver's REQUIRED constraints keeping every
/// boundary inside the area and the boundaries in order (rounding keeps both),
/// the areas lie inside `area` along the axis, one after another. Where they
/// lie along the axis is otherwise left unsaid: the solver may return
/// different answers for the same arguments.
#[verifier::external_body]
pub(crate) fn split_area(direction: Direction, constraints: &[Constraint], area: Rect) -> (chunks: Vec<Rect>)
    ensures
        split_outcome(direction, constraints@, area, chunks@),
{
    let dir = match direction { Direction::Horizontal => TermDirection::Horizontal, Direction::Vertical => TermDirection::Vertical };
    let mut cs = Vec::new();
    for c in constraints {
        cs.push(match *c {
            Constraint::Min(n) => TermConstraint::Min(n),
            Constraint::Length(n) => TermConstraint::Length(n),
            Constraint::Percentage(n) => TermConstraint::Percentage(n),
            Constraint::Fill(n) => TermConstraint::Fill(n),
        });
    }
    let areas = Layout::new(dir, cs).split(TermRect { x: area.x, y: area.y, width: area.width, height: area.height });
    areas.iter().map(|r| Rect { x: r.x, y: r.y, width: r.width, height: r.height }).collect()
}

} // verus!

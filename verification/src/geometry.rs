//! Rows and points of the displayed text.

use crate::action::Direction;
use vstd::prelude::*;

verus! {

/// A row of the displayed text, counted from the top.
#[derive(Clone, Copy, Debug, PartialEq, Eq, Structural)]
pub struct DisplayRow(pub u32);

/// A place in the displayed text.
#[derive(Clone, Copy, Debug, PartialEq, Eq, Structural)]
pub struct DisplayPoint {
    pub row: DisplayRow,
    pub column: u32,
}

impl DisplayPoint {
    /// The first place of the text.
    pub open spec fn spec_zero() -> DisplayPoint {
        DisplayPoint { row: DisplayRow(0), column: 0 }
    }

    /// Text order: by row, then by column.
    pub open spec fn at_or_before(self, other: DisplayPoint) -> bool {
        self.row.0 < other.row.0 || (self.row.0 == other.row.0 && self.column <= other.column)
    }

    pub fn new(row: DisplayRow, column: u32) -> (point: Self)
        ensures
            point == (DisplayPoint { row, column }),
    {
        DisplayPoint { row, column }
    }

    pub fn zero() -> (point: Self)
        ensures
            point == Self::spec_zero(),
            point.row.0 == 0,
            point.column == 0,
    {
        DisplayPoint { row: DisplayRow(0), column: 0 }
    }

    pub fn row(&self) -> (row: DisplayRow)
        ensures
            row == self.row,
    {
        self.row
    }
}

impl Default for DisplayPoint {
    fn default() -> (point: Self)
        ensures
            point == Self::spec_zero(),
            point.row.0 == 0,
            point.column == 0,
    {
        DisplayPoint::zero()
    }
}

/// Which neighbour a place between two characters belongs to.
#[derive(Clone, Copy, Debug, PartialEq, Eq, Structural)]
pub enum Bias {
    Left,
    Right,
}

/// The ends of a selection, in text order.
#[derive(Clone, Copy, Debug, PartialEq, Eq, Structural)]
pub struct Selection {
    pub start: DisplayPoint,
    pub end: DisplayPoint,
}

/// Where the part of the text that a command labels starts.
pub open spec fn spec_labelled_start(direction: Direction, selection: Selection) -> DisplayPoint {
    match direction {
        Direction::Forwards => selection.start,
        Direction::Both | Direction::Backwards => DisplayPoint::spec_zero(),
    }
}

/// Where the part of the text that a command labels ends.
pub open spec fn spec_labelled_end(
    direction: Direction,
    selection: Selection,
    max_point: DisplayPoint,
) -> DisplayPoint {
    match direction {
        Direction::Backwards => selection.end,
        Direction::Both | Direction::Forwards => max_point,
    }
}

/// The part of the text that a command labels: forwards from the start of the
/// selection, backwards up to its end, or all of the text.
pub fn labelled_range(direction: Direction, selection: Selection, max_point: DisplayPoint) -> (range: (
    DisplayPoint,
    DisplayPoint,
))
    ensures
        range.0 == spec_labelled_start(direction, selection),
        range.1 == spec_labelled_end(direction, selection, max_point),
        direction == Direction::Forwards ==> range.0 == selection.start && range.1 == max_point,
        direction == Direction::Backwards ==> range.0.row.0 == 0 && range.0.column == 0 && range.1
            == selection.end,
        direction == Direction::Both ==> range.0.row.0 == 0 && range.0.column == 0 && range.1
            == max_point,
{
    let start = match direction {
        Direction::Both | Direction::Backwards => DisplayPoint::zero(),
        Direction::Forwards => selection.start,
    };
    let end = match direction {
        Direction::Both | Direction::Forwards => max_point,
        Direction::Backwards => selection.end,
    };
    (start, end)
}

/// Whether a command in `direction` labels the part of the text that `point` is in.
pub open spec fn in_labelled_range(
    point: DisplayPoint,
    direction: Direction,
    selection: Selection,
    max_point: DisplayPoint,
) -> bool {
    &&& spec_labelled_start(direction, selection).at_or_before(point)
    &&& point.at_or_before(spec_labelled_end(direction, selection, max_point))
}

/// Text order reads row by row, and within a row column by column.
pub proof fn text_order_reads_rows(a: DisplayPoint, b: DisplayPoint)
    ensures
        a.at_or_before(b) <==> a.row.0 * 0x1_0000_0000 + a.column <= b.row.0 * 0x1_0000_0000
            + b.column,
        a.at_or_before(b) || b.at_or_before(a),
        a.at_or_before(b) && b.at_or_before(a) ==> a == b,
        DisplayPoint::spec_zero().at_or_before(a),
{
}

/// Whatever is selected, and be it nothing: what a forward command labels
/// reaches from the start of the selection to the end of the text, what a
/// backward command labels from the start of the text to the end of the
/// selection, and what a command both ways labels is all of the text.
pub proof fn direction_decides_labelled_text(
    point: DisplayPoint,
    selection: Selection,
    max_point: DisplayPoint,
)
    ensures
        spec_labelled_start(Direction::Forwards, selection) == selection.start,
        spec_labelled_end(Direction::Forwards, selection, max_point) == max_point,
        spec_labelled_end(Direction::Backwards, selection, max_point) == selection.end,
        spec_labelled_end(Direction::Both, selection, max_point) == max_point,
        in_labelled_range(point, Direction::Forwards, selection, max_point) <==> (
        selection.start.at_or_before(point) && point.at_or_before(max_point)),
        in_labelled_range(point, Direction::Backwards, selection, max_point)
            <==> point.at_or_before(selection.end),
        in_labelled_range(point, Direction::Both, selection, max_point) <==> point.at_or_before(
            max_point,
        ),
{
}

/// The forward and the backward part together are all of the text, and what
/// they share is the selection.
pub proof fn directions_cover_text(
    point: DisplayPoint,
    selection: Selection,
    max_point: DisplayPoint,
)
    requires
        selection.start.at_or_before(selection.end),
        selection.end.at_or_before(max_point),
    ensures
        in_labelled_range(point, Direction::Both, selection, max_point) <==> (in_labelled_range(
            point,
            Direction::Forwards,
            selection,
            max_point,
        ) || in_labelled_range(point, Direction::Backwards, selection, max_point)),
        (in_labelled_range(point, Direction::Forwards, selection, max_point) && in_labelled_range(
            point,
            Direction::Backwards,
            selection,
            max_point,
        )) <==> (selection.start.at_or_before(point) && point.at_or_before(selection.end)),
{
}

} // verus!

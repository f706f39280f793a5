//! Text selection: stream and rectangular selections, and the click state
//! machine that starts, extends and finishes them.

use core::cmp::Ordering;
use std::time::Instant;
use vstd::prelude::*;

verus! {

/// A point of the grid; rows may be negative (scrollback). Points are
/// ordered by row, then by column.
#[derive(Debug, Clone, Copy, PartialEq, Eq, Structural, Ord)]
pub struct Point {
    pub row: isize,
    pub col: usize,
}

/// `a` comes before `b`: an earlier row, or the same row and an earlier column.
pub open spec fn point_lt(a: Point, b: Point) -> bool {
    a.row < b.row || (a.row == b.row && a.col < b.col)
}

/// `a` comes before `b` or is `b`.
pub open spec fn point_le(a: Point, b: Point) -> bool {
    point_lt(a, b) || a == b
}

impl Point {
    pub fn new(col: usize, row: isize) -> (p: Self)
        ensures
            p == (Point { col, row }),
    {
        Point { col, row }
    }

    /// The order of two points.
    pub fn compare(&self, other: &Point) -> (o: Ordering)
        ensures
            (o == Ordering::Less) == point_lt(*self, *other),
            (o == Ordering::Equal) == (*self == *other),
            (o == Ordering::Greater) == point_lt(*other, *self),
    {
        if self.row < other.row {
            Ordering::Less
        } else if self.row > other.row {
            Ordering::Greater
        } else if self.col < other.col {
            Ordering::Less
        } else if self.col > other.col {
            Ordering::Greater
        } else {
            Ordering::Equal
        }
    }
}

/// The order of two points as an `Ordering`.
pub open spec fn point_order(a: Point, b: Point) -> Ordering {
    if point_lt(a, b) {
        Ordering::Less
    } else if a == b {
        Ordering::Equal
    } else {
        Ordering::Greater
    }
}

impl PartialOrd for Point {
    fn partial_cmp(&self, other: &Self) -> (r: Option<Ordering>) {
        Some(self.compare(other))
    }
}

impl vstd::std_specs::cmp::PartialOrdSpecImpl for Point {
    open spec fn obeys_partial_cmp_spec() -> bool {
        true
    }

    open spec fn partial_cmp_spec(&self, other: &Self) -> Option<Ordering> {
        Some(point_order(*self, *other))
    }
}

/// How a selection grows.
#[derive(Debug, Clone, Copy, PartialEq, Eq, Structural)]
pub enum SelectionType {
    /// Character by character.
    Simple,
    /// Word by word (double click).
    Semantic,
    /// Whole lines (triple click).
    Lines,
    /// A rectangle.
    Block,
}

impl Default for SelectionType {
    fn default() -> (t: Self)
        ensures
            t == SelectionType::Simple,
    {
        SelectionType::Simple
    }
}

/// A selection between two points (the start may come after the end).
#[derive(Debug, Clone, Copy, PartialEq, Eq, Structural)]
pub struct SelectionRange {
    pub start: Point,
    pub end: Point,
    pub selection_type: SelectionType,
}

/// The two ends of a range, earliest first.
pub open spec fn spec_normalized(r: SelectionRange) -> (Point, Point) {
    if point_le(r.start, r.end) {
        (r.start, r.end)
    } else {
        (r.end, r.start)
    }
}

/// Whether a range covers a point: a block covers the rectangle between its
/// ends, any other range the stream of cells from its first end to its last.
pub open spec fn spec_contains(r: SelectionRange, p: Point) -> bool {
    let (s, e) = spec_normalized(r);
    match r.selection_type {
        SelectionType::Block => {
            let lo = if s.col < e.col {
                s.col
            } else {
                e.col
            };
            let hi = if s.col < e.col {
                e.col
            } else {
                s.col
            };
            s.row <= p.row <= e.row && lo <= p.col <= hi
        },
        _ => point_le(s, p) && point_le(p, e),
    }
}

impl SelectionRange {
    pub fn new(start: Point, end: Point, selection_type: SelectionType) -> (r: Self)
        ensures
            r == (SelectionRange { start, end, selection_type }),
    {
        SelectionRange { start, end, selection_type }
    }

    /// The two ends, earliest first.
    pub fn normalized(&self) -> (p: (Point, Point))
        ensures
            p == spec_normalized(*self),
    {
        match self.start.compare(&self.end) {
            Ordering::Greater => (self.end, self.start),
            _ => (self.start, self.end),
        }
    }

    /// Whether `point` is selected.
    pub fn contains(&self, point: Point) -> (b: bool)
        ensures
            b == spec_contains(*self, point),
    {
        let (start, end) = self.normalized();
        match self.selection_type {
            SelectionType::Block => {
                let min_col = if start.col < end.col {
                    start.col
                } else {
                    end.col
                };
                let max_col = if start.col < end.col {
                    end.col
                } else {
                    start.col
                };
                point.row >= start.row && point.row <= end.row && point.col >= min_col && point.col
                    <= max_col
            },
            _ => {
                if point.row < start.row || point.row > end.row {
                    return false;
                }
                if point.row == start.row && point.col < start.col {
                    return false;
                }
                if point.row == end.row && point.col > end.col {
                    return false;
                }
                true
            },
        }
    }

    pub fn is_multiline(&self) -> (b: bool)
        ensures
            b == (self.start.row != self.end.row),
    {
        self.start.row != self.end.row
    }

    pub fn is_empty(&self) -> (b: bool)
        ensures
            b == (self.start == self.end),
    {
        self.start.row == self.end.row && self.start.col == self.end.col
    }
}

impl Default for SelectionRange {
    fn default() -> (r: Self)
        ensures
            r == (SelectionRange {
                start: Point { row: 0, col: 0 },
                end: Point { row: 0, col: 0 },
                selection_type: SelectionType::Simple,
            }),
    {
        SelectionRange {
            start: Point { row: 0, col: 0 },
            end: Point { row: 0, col: 0 },
            selection_type: SelectionType::Simple,
        }
    }
}

#[verifier::external_type_specification]
#[verifier::external_body]
pub struct ExInstant(Instant);

/// Calls `Instant::now`. Nothing is claimed of the result: it is the time.
#[verifier::external_body]
fn instant_now() -> (t: Instant) {
    Instant::now()
}

/// Calls `Instant::duration_since` (of `now` since `earlier`) and gives the
/// whole milliseconds of the duration. Nothing is claimed of the result: it
/// depends on the clock readings.
#[verifier::external_body]
fn millis_between(earlier: &Instant, now: &Instant) -> (ms: u128) {
    now.duration_since(*earlier).as_millis()
}

/// The abstract state of the selection machine.
pub struct SelectionView {
    pub range: Option<SelectionRange>,
    pub in_progress: bool,
    pub click_count: u8,
    pub last_click: Option<Point>,
    /// When the last press happened
    pub last_click_time: Option<Instant>,
}

/// The longest time between two presses on one point for the second to
/// count as a repeat click, in milliseconds.
pub const REPEAT_CLICK_MS: u128 = 500;

/// Whether a press at `point`, `elapsed_ms` after the previous press at
/// `last` (none where no time was recorded), repeats it: same point, less
/// than 500 ms later.
pub open spec fn is_repeat(last: Option<Point>, point: Point, elapsed_ms: Option<u128>) -> bool {
    last == Some(point) && match elapsed_ms {
        Some(ms) => ms < REPEAT_CLICK_MS,
        None => false,
    }
}

/// Whether a press at `point`, `elapsed_ms` after the previous press at
/// `last`, repeats it.
pub fn is_repeat_click(last: Option<Point>, point: Point, elapsed_ms: Option<u128>) -> (r: bool)
    ensures
        r == is_repeat(last, point, elapsed_ms),
{
    match (last, elapsed_ms) {
        (Some(p), Some(ms)) => p == point && ms < REPEAT_CLICK_MS,
        _ => false,
    }
}

/// The selection state machine.
#[derive(Debug, Clone)]
pub struct Selection {
    range: Option<SelectionRange>,
    in_progress: bool,
    click_count: u8,
    last_click: Option<Point>,
    last_click_time: Option<Instant>,
}

/// The kind of selection that a click of the given count starts.
pub open spec fn type_for_clicks(n: u8) -> SelectionType {
    if n == 2 {
        SelectionType::Semantic
    } else if n == 3 {
        SelectionType::Lines
    } else {
        SelectionType::Simple
    }
}

/// The state after a press at `point`; `repeat` tells whether it repeats
/// the previous click (same point, within the double-click time).
pub open spec fn spec_press(s: SelectionView, point: Point, now: Instant, repeat: bool) -> SelectionView {
    let n: u8 = if repeat {
        (s.click_count % 3 + 1) as u8
    } else {
        1
    };
    SelectionView {
        range: Some(SelectionRange { start: point, end: point, selection_type: type_for_clicks(n) }),
        in_progress: true,
        click_count: n,
        last_click: Some(point),
        last_click_time: Some(now),
    }
}

/// The state after the pointer moves to `point`.
pub open spec fn spec_update(s: SelectionView, point: Point) -> SelectionView {
    if s.in_progress && s.range is Some {
        SelectionView { range: Some(SelectionRange { end: point, ..s.range->0 }), ..s }
    } else {
        s
    }
}

/// The state after the button is released: an empty range is dropped.
pub open spec fn spec_finish(s: SelectionView) -> SelectionView {
    SelectionView {
        in_progress: false,
        range: match s.range {
            Some(r) => if r.start == r.end {
                None
            } else {
                Some(r)
            },
            None => None,
        },
        ..s
    }
}

impl View for Selection {
    type V = SelectionView;

    closed spec fn view(&self) -> SelectionView {
        SelectionView {
            range: self.range,
            in_progress: self.in_progress,
            click_count: self.click_count,
            last_click: self.last_click,
            last_click_time: self.last_click_time,
        }
    }
}

impl Default for Selection {
    fn default() -> (s: Self)
        ensures
            s@ == (SelectionView {
                range: None,
                in_progress: false,
                click_count: 0,
                last_click: None,
                last_click_time: None,
            }),
    {
        Selection {
            range: None,
            in_progress: false,
            click_count: 0,
            last_click: None,
            last_click_time: None,
        }
    }
}

impl Selection {
    /// No selection.
    pub fn new() -> (s: Self)
        ensures
            s@ == (SelectionView {
                range: None,
                in_progress: false,
                click_count: 0,
                last_click: None,
                last_click_time: None,
            }),
    {
        Selection::default()
    }

    /// Records a press at `point` at time `now`, `elapsed_ms` after the
    /// previous press (none where no press time was recorded): a repeat
    /// click (same point, less than 500 ms later) moves the click count on
    /// (1, 2, 3, then 1 again), any other press sets it to 1; the count
    /// picks a character, word or line selection.
    pub fn press_at(&mut self, point: Point, now: Instant, elapsed_ms: Option<u128>)
        ensures
            final(self)@ == spec_press(old(self)@, point, now, is_repeat(old(self)@.last_click, point, elapsed_ms)),
    {
        let repeat = is_repeat_click(self.last_click, point, elapsed_ms);
        let count: u8 = if repeat {
            self.click_count % 3 + 1
        } else {
            1
        };
        self.click_count = count;
        self.last_click = Some(point);
        self.last_click_time = Some(now);
        let selection_type = if count == 2 {
            SelectionType::Semantic
        } else if count == 3 {
            SelectionType::Lines
        } else {
            SelectionType::Simple
        };
        self.range = Some(SelectionRange::new(point, point, selection_type));
        self.in_progress = true;
    }

    /// Start a selection at `point`, now: `press_at` with the clock's
    /// reading and the milliseconds since the previous press, when one was
    /// recorded. The clock's readings are not known here; whatever they
    /// are, the press is one `press_at` describes, and it repeats the
    /// previous click only on the same point.
    pub fn start(&mut self, point: Point)
        ensures
            exists|now: Instant, elapsed_ms: Option<u128>|
                (elapsed_ms is Some <==> old(self)@.last_click_time is Some) && final(self)@ == #[trigger] spec_press(
                    old(self)@,
                    point,
                    now,
                    is_repeat(old(self)@.last_click, point, elapsed_ms),
                ),
            old(self)@.last_click != Some(point) ==> final(self)@.click_count == 1,
    {
        let now = instant_now();
        let elapsed = match &self.last_click_time {
            Some(last_time) => Some(millis_between(last_time, &now)),
            None => None,
        };
        let ghost before = self@;
        self.press_at(point, now, elapsed);
        assert(final(self)@ == spec_press(before, point, now, is_repeat(before.last_click, point, elapsed)));
    }

    /// Extend the selection in progress to `point`.
    pub fn update(&mut self, point: Point)
        ensures
            final(self)@ == spec_update(old(self)@, point),
    {
        if !self.in_progress {
            return;
        }
        if let Some(range) = self.range {
            self.range = Some(SelectionRange { end: point, ..range });
        }
    }

    /// End the selection in progress; an empty selection is dropped.
    pub fn finish(&mut self)
        ensures
            final(self)@ == spec_finish(old(self)@),
    {
        self.in_progress = false;
        if let Some(range) = self.range {
            if range.is_empty() {
                self.range = None;
            }
        }
    }

    /// Drop the selection.
    pub fn clear(&mut self)
        ensures
            final(self)@ == (SelectionView { range: None, in_progress: false, ..old(self)@ }),
    {
        self.range = None;
        self.in_progress = false;
    }

    pub fn range(&self) -> (r: Option<&SelectionRange>)
        ensures
            r == match self@.range {
                Some(x) => Some(&x),
                None => None,
            },
    {
        match &self.range {
            Some(r) => Some(r),
            None => None,
        }
    }

    pub fn in_progress(&self) -> (b: bool)
        ensures
            b == self@.in_progress,
    {
        self.in_progress
    }

    pub fn is_active(&self) -> (b: bool)
        ensures
            b == self@.range is Some,
    {
        self.range.is_some()
    }

    /// Whether `point` is inside the current selection.
    pub fn is_selected(&self, point: Point) -> (b: bool)
        ensures
            b == match self@.range {
                Some(r) => spec_contains(r, point),
                None => false,
            },
    {
        match &self.range {
            Some(r) => r.contains(point),
            None => false,
        }
    }

    /// Switch the current selection to block mode, or back to character mode.
    pub fn set_block_mode(&mut self, enabled: bool)
        ensures
            final(self)@ == (SelectionView {
                range: match old(self)@.range {
                    Some(r) => Some(
                        SelectionRange {
                            selection_type: if enabled {
                                SelectionType::Block
                            } else {
                                SelectionType::Simple
                            },
                            ..r
                        },
                    ),
                    None => None,
                },
                ..old(self)@
            }),
    {
        if let Some(range) = self.range {
            self.range = Some(
                SelectionRange {
                    selection_type: if enabled {
                        SelectionType::Block
                    } else {
                        SelectionType::Simple
                    },
                    ..range
                },
            );
        }
    }
}

/// The ends of a normalized range are in order and are the range's ends.
pub proof fn law_normalized_is_ordered(r: SelectionRange)
    ensures
        point_le(spec_normalized(r).0, spec_normalized(r).1),
        (spec_normalized(r).0 == r.start && spec_normalized(r).1 == r.end) || (spec_normalized(r).0
            == r.end && spec_normalized(r).1 == r.start),
{
}

/// A range covers both of its ends, whichever way it was drawn.
pub proof fn law_range_contains_its_ends(r: SelectionRange)
    ensures
        spec_contains(r, r.start),
        spec_contains(r, r.end),
{
}

/// Swapping the ends of a range selects the same points.
pub proof fn law_contains_ignores_direction(r: SelectionRange, p: Point)
    ensures
        spec_contains(r, p) == spec_contains(
            SelectionRange { start: r.end, end: r.start, ..r },
            p,
        ),
{
}

/// Point order is a strict total order.
pub proof fn law_point_order_total(a: Point, b: Point, c: Point)
    ensures
        point_lt(a, b) || a == b || point_lt(b, a),
        !(point_lt(a, b) && point_lt(b, a)),
        point_lt(a, b) && point_lt(b, c) ==> point_lt(a, c),
{
}

/// A press followed by a release at the same place leaves no selection;
/// a drag to another point leaves the dragged range.
pub proof fn law_click_without_drag_selects_nothing(s: SelectionView, p: Point, q: Point, now: Instant, repeat: bool)
    ensures
        spec_finish(spec_press(s, p, now, repeat)).range is None,
        !spec_finish(spec_press(s, p, now, repeat)).in_progress,
        p != q ==> spec_finish(spec_update(spec_press(s, p, now, repeat), q)).range == Some(
            SelectionRange {
                start: p,
                end: q,
                selection_type: spec_press(s, p, now, repeat).range->0.selection_type,
            },
        ),
{
}

/// A fresh press selects characters; each repeat click moves on to words,
/// then lines, then characters again.
pub proof fn law_repeat_clicks_cycle(s: SelectionView, p: Point, t1: Instant, t2: Instant, t3: Instant, t4: Instant)
    ensures
        ({
            let a = spec_press(s, p, t1, false);
            let b = spec_press(a, p, t2, true);
            let c = spec_press(b, p, t3, true);
            let d = spec_press(c, p, t4, true);
            &&& a.click_count == 1 && a.range->0.selection_type == SelectionType::Simple
            &&& b.click_count == 2 && b.range->0.selection_type == SelectionType::Semantic
            &&& c.click_count == 3 && c.range->0.selection_type == SelectionType::Lines
            &&& d.click_count == 1 && d.range->0.selection_type == SelectionType::Simple
        }),
{
}

} // verus!

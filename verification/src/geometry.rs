//! Rectangles in whole pixels, and the rows and columns that slice a sheet.

use vstd::prelude::*;

verus! {

/// An axis-aligned rectangle in whole pixels.
#[derive(Copy, Clone, Debug, PartialEq, Eq, Structural)]
pub struct Rectangle {
    /// The X co-ordinate of the rectangle.
    pub x: i64,
    /// The Y co-ordinate of the rectangle.
    pub y: i64,
    /// The width of the rectangle.
    pub width: i64,
    /// The height of the rectangle.
    pub height: i64,
}

/// Whether `r` is `first` moved `n` widths to the right.
pub open spec fn is_row_term(r: Rectangle, first: Rectangle, n: int) -> bool {
    &&& r.x == first.x + n * first.width
    &&& r.y == first.y
    &&& r.width == first.width
    &&& r.height == first.height
}

/// Whether `r` is `first` moved `n` heights down.
pub open spec fn is_column_term(r: Rectangle, first: Rectangle, n: int) -> bool {
    &&& r.x == first.x
    &&& r.y == first.y + n * first.height
    &&& r.width == first.width
    &&& r.height == first.height
}

/// Whether `start + n * step` can be held in an `i64`.
pub open spec fn reachable(start: i64, step: i64, n: int) -> bool {
    i64::MIN <= start + n * step <= i64::MAX
}

/// Every step between the first and the `n`th stays between the two.
pub proof fn lemma_steps_between(start: i64, step: i64, i: int, n: int)
    requires
        0 <= i <= n,
        reachable(start, step, n),
    ensures
        reachable(start, step, i),
        (i + 1) * step == i * step + step,
{
    assert(step >= 0 ==> 0 <= i * step <= n * step) by (nonlinear_arith)
        requires
            0 <= i <= n,
    ;
    assert(step <= 0 ==> 0 >= i * step >= n * step) by (nonlinear_arith)
        requires
            0 <= i <= n,
    ;
    assert((i + 1) * step == i * step + step) by (nonlinear_arith);
}

impl Rectangle {
    /// Creates a new `Rectangle`.
    pub fn new(x: i64, y: i64, width: i64, height: i64) -> (r: Rectangle)
        ensures
            r == (Rectangle { x, y, width, height }),
    {
        Rectangle { x, y, width, height }
    }

    /// Returns the unbounded sequence of horizontally adjacent rectangles that
    /// starts at the given one and moves along the X axis.
    pub fn row(x: i64, y: i64, width: i64, height: i64) -> (row: RectangleRow)
        ensures
            row.next_rect == (Rectangle { x, y, width, height }),
    {
        RectangleRow { next_rect: Rectangle::new(x, y, width, height) }
    }

    /// Returns the unbounded sequence of vertically adjacent rectangles that
    /// starts at the given one and moves along the Y axis.
    pub fn column(x: i64, y: i64, width: i64, height: i64) -> (column: RectangleColumn)
        ensures
            column.next_rect == (Rectangle { x, y, width, height }),
    {
        RectangleColumn { next_rect: Rectangle::new(x, y, width, height) }
    }
}

/// A row of rectangles, each one width to the right of the one before.
#[derive(Copy, Clone, Debug, PartialEq, Eq, Structural)]
pub struct RectangleRow {
    /// The rectangle that `next` hands out.
    pub next_rect: Rectangle,
}

impl RectangleRow {
    /// Hands out the current rectangle and moves one width to the right.
    /// The row has no end: the result is always `Some`.
    pub fn next(&mut self) -> (r: Option<Rectangle>)
        requires
            reachable(old(self).next_rect.x, old(self).next_rect.width, 1),
        ensures
            r == Some(old(self).next_rect),
            is_row_term(final(self).next_rect, old(self).next_rect, 1),
    {
        let current_rect = self.next_rect;
        self.next_rect.x = self.next_rect.x + self.next_rect.width;
        Some(current_rect)
    }

    /// Hands out the next `n` rectangles of the row.
    pub fn take(&mut self, n: usize) -> (rects: Vec<Rectangle>)
        requires
            reachable(old(self).next_rect.x, old(self).next_rect.width, n as int),
        ensures
            rects.len() == n,
            forall|i: int| 0 <= i < n ==> is_row_term(#[trigger] rects[i], old(self).next_rect, i),
            is_row_term(final(self).next_rect, old(self).next_rect, n as int),
    {
        let ghost first = self.next_rect;
        let mut rects: Vec<Rectangle> = Vec::new();
        let mut k: usize = 0;
        while k < n
            invariant
                k <= n,
                rects.len() == k,
                reachable(first.x, first.width, n as int),
                is_row_term(self.next_rect, first, k as int),
                forall|i: int| 0 <= i < k ==> is_row_term(#[trigger] rects[i], first, i),
            decreases n - k,
        {
            proof {
                lemma_steps_between(first.x, first.width, k as int + 1, n as int);
                lemma_steps_between(first.x, first.width, k as int, n as int);
            }
            let r = self.next();
            match r {
                Some(rect) => {
                    rects.push(rect);
                },
                None => {},
            }
            k = k + 1;
        }
        rects
    }
}

/// A column of rectangles, each one height below the one before.
#[derive(Copy, Clone, Debug, PartialEq, Eq, Structural)]
pub struct RectangleColumn {
    /// The rectangle that `next` hands out.
    pub next_rect: Rectangle,
}

impl RectangleColumn {
    /// Hands out the current rectangle and moves one height down.
    /// The column has no end: the result is always `Some`.
    pub fn next(&mut self) -> (r: Option<Rectangle>)
        requires
            reachable(old(self).next_rect.y, old(self).next_rect.height, 1),
        ensures
            r == Some(old(self).next_rect),
            is_column_term(final(self).next_rect, old(self).next_rect, 1),
    {
        let current_rect = self.next_rect;
        self.next_rect.y = self.next_rect.y + self.next_rect.height;
        Some(current_rect)
    }

    /// Hands out the next `n` rectangles of the column.
    pub fn take(&mut self, n: usize) -> (rects: Vec<Rectangle>)
        requires
            reachable(old(self).next_rect.y, old(self).next_rect.height, n as int),
        ensures
            rects.len() == n,
            forall|i: int|
                0 <= i < n ==> is_column_term(#[trigger] rects[i], old(self).next_rect, i),
            is_column_term(final(self).next_rect, old(self).next_rect, n as int),
    {
        let ghost first = self.next_rect;
        let mut rects: Vec<Rectangle> = Vec::new();
        let mut k: usize = 0;
        while k < n
            invariant
                k <= n,
                rects.len() == k,
                reachable(first.y, first.height, n as int),
                is_column_term(self.next_rect, first, k as int),
                forall|i: int| 0 <= i < k ==> is_column_term(#[trigger] rects[i], first, i),
            decreases n - k,
        {
            proof {
                lemma_steps_between(first.y, first.height, k as int + 1, n as int);
                lemma_steps_between(first.y, first.height, k as int, n as int);
            }
            let r = self.next();
            match r {
                Some(rect) => {
                    rects.push(rect);
                },
                None => {},
            }
            k = k + 1;
        }
        rects
    }
}

} // verus!

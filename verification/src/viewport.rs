use vstd::prelude::*;
use std::collections::HashMap;
use crate::animation::{DisplayPoint, DisplayRow};
use crate::geometry::{Pixels, Point, floor_div, fits_i64};

verus! {

broadcast use vstd::std_specs::hash::group_hash_axioms;

/// How a line of text stands within the width of the editor.
#[derive(Clone, Copy, Debug, PartialEq, Eq, Structural)]
pub enum TextAlign {
    Left,
    Center,
    Right,
}

/// What the text layout gives for the row of a cursor: the width of the row, and the x
/// at which the cursor's column begins in it.
#[derive(Clone, Copy, Debug, PartialEq, Eq, Structural)]
pub struct RowLayout {
    pub width: Pixels,
    pub column_x: Pixels,
}

/// How far the editor is scrolled, in 1/65536ths of a column (`x`) and of a row (`y`).
#[derive(Clone, Copy, Debug, PartialEq, Eq, Structural)]
pub struct ScrollOffset {
    pub x: i64,
    pub y: i64,
}

/// How far the editor is scrolled, in 1/65536ths of a logical pixel.
#[derive(Clone, Copy, Debug, PartialEq, Eq, Structural)]
pub struct ScrollPixelOffset {
    pub x: i64,
    pub y: i64,
}

/// How far a row of `row_width` is shifted right within `content_width`.
pub open spec fn alignment_offset(text_align: TextAlign, content_width: int, row_width: int) -> int {
    match text_align {
        TextAlign::Left => 0,
        TextAlign::Center => (content_width - row_width) / 2,
        TextAlign::Right => content_width - row_width,
    }
}

/// The x at which a cursor is drawn: its column's x in the row, shifted by the row's
/// alignment, less the horizontal scroll.
pub open spec fn cursor_origin_x(
    row_layout: RowLayout,
    text_align: TextAlign,
    content_width: Pixels,
    scroll_pixel_position: ScrollPixelOffset,
) -> int {
    row_layout.column_x.val() + alignment_offset(
        text_align,
        content_width.val(),
        row_layout.width.val(),
    ) - scroll_pixel_position.x
}

/// The y at which a cursor on `row` is drawn: the rows between it and the first row
/// scrolled to, times the line height, rounded down.
pub open spec fn cursor_origin_y(row: DisplayRow, scroll_position: ScrollOffset, line_height: Pixels) -> int {
    (row.0 * 65536 - scroll_position.y) * line_height.val() / 65536
}

/// The x and y at which the cursor at `cursor_position` is drawn, before they are stored.
fn origin_steps(
    cursor_position: DisplayPoint,
    row_layout: RowLayout,
    text_align: TextAlign,
    content_width: Pixels,
    scroll_position: ScrollOffset,
    scroll_pixel_position: ScrollPixelOffset,
    line_height: Pixels,
) -> (steps: (i128, i128))
    ensures
        steps.0 == cursor_origin_x(row_layout, text_align, content_width, scroll_pixel_position),
        steps.1 == cursor_origin_y(cursor_position.row, scroll_position, line_height),
{
    let spare: i128 = content_width.0 as i128 - row_layout.width.0 as i128;
    let alignment: i128 = match text_align {
        TextAlign::Left => 0,
        TextAlign::Center => floor_div(spare, 2),
        TextAlign::Right => spare,
    };
    let x: i128 = row_layout.column_x.0 as i128 + alignment - scroll_pixel_position.x as i128;
    let rows: i128 = cursor_position.row.0 as i128 * 65536 - scroll_position.y as i128;
    proof {
        let r = rows as int;
        let h = line_height.0 as int;
        let bound = 0x8001_0000_0000_0000int * 0x8000_0000_0000_0000int;
        lemma_mul_magnitude(r, h, 0x8001_0000_0000_0000, 0x8000_0000_0000_0000);
        assert(bound < 0x7fff_ffff_ffff_ffff_ffff_ffff_ffff_ffff);
    }
    let y: i128 = floor_div(rows * line_height.0 as i128, 65536);
    (x, y)
}

/// Where the cursor at `cursor_position` is drawn, given what the layout says of its row.
pub fn cursor_origin_for_display_point(
    cursor_position: DisplayPoint,
    row_layout: RowLayout,
    text_align: TextAlign,
    content_width: Pixels,
    scroll_position: ScrollOffset,
    scroll_pixel_position: ScrollPixelOffset,
    line_height: Pixels,
) -> (origin: Point)
    requires
        fits_i64(cursor_origin_x(row_layout, text_align, content_width, scroll_pixel_position)),
        fits_i64(cursor_origin_y(cursor_position.row, scroll_position, line_height)),
    ensures
        origin.x.val() == cursor_origin_x(
            row_layout,
            text_align,
            content_width,
            scroll_pixel_position,
        ),
        origin.y.val() == cursor_origin_y(cursor_position.row, scroll_position, line_height),
{
    let (x, y) = origin_steps(
        cursor_position,
        row_layout,
        text_align,
        content_width,
        scroll_position,
        scroll_pixel_position,
        line_height,
    );
    Point { x: Pixels(x as i64), y: Pixels(y as i64) }
}

/// A product is no larger in size than the product of bounds on its factors' sizes.
proof fn lemma_mul_magnitude(a: int, b: int, a_bound: int, b_bound: int)
    requires
        -a_bound <= a <= a_bound,
        -b_bound <= b <= b_bound,
    ensures
        -(a_bound * b_bound) <= a * b <= a_bound * b_bound,
{
    assert(-(a_bound * b_bound) <= a * b <= a_bound * b_bound) by (nonlinear_arith)
        requires
            -a_bound <= a <= a_bound,
            -b_bound <= b <= b_bound,
    ;
}

/// Whether a row holds a block (a row drawn in place of text) by the viewport's table.
pub open spec fn is_block_row(row_block_types: Map<u32, bool>, row: DisplayRow) -> bool {
    row_block_types.contains_key(row.0) && row_block_types[row.0]
}

/// What the editor shows this frame: which rows are on screen and which of them hold
/// blocks, whether local cursors are drawn, and what places the rows on screen.
pub struct CursorAnimationViewport {
    /// For a row, whether it holds a block.
    pub row_block_types: HashMap<u32, bool>,
    /// The first row on screen.
    pub visible_rows_start: DisplayRow,
    /// The row just past the last one on screen.
    pub visible_rows_end: DisplayRow,
    pub show_local_cursors: bool,
    pub text_align: TextAlign,
    pub content_width: Pixels,
    pub scroll_position: ScrollOffset,
    pub scroll_pixel_position: ScrollPixelOffset,
    pub line_height: Pixels,
}

impl CursorAnimationViewport {
    /// A cursor at `position` is drawn this frame: local cursors are shown, its row is on
    /// screen, and the row holds no block.
    pub open spec fn shows(self, position: DisplayPoint) -> bool {
        &&& self.show_local_cursors
        &&& self.visible_rows_start.0 <= position.row.0 < self.visible_rows_end.0
        &&& !is_block_row(self.row_block_types@, position.row)
    }

    /// The place of the cursor at `position`, whose row the layout gives as `row_layout`,
    /// can be stored.
    pub open spec fn origin_fits(self, position: DisplayPoint, row_layout: RowLayout) -> bool {
        &&& fits_i64(
            cursor_origin_x(
                row_layout,
                self.text_align,
                self.content_width,
                self.scroll_pixel_position,
            ),
        )
        &&& fits_i64(cursor_origin_y(position.row, self.scroll_position, self.line_height))
    }

    /// Where the cursor at `position`, whose row the layout gives as `row_layout`, is drawn.
    pub open spec fn origin_of(self, position: DisplayPoint, row_layout: RowLayout) -> Point {
        Point {
            x: Pixels(
                cursor_origin_x(
                    row_layout,
                    self.text_align,
                    self.content_width,
                    self.scroll_pixel_position,
                ) as i64,
            ),
            y: Pixels(cursor_origin_y(position.row, self.scroll_position, self.line_height) as i64),
        }
    }

    /// Whether a cursor at `position` is drawn this frame.
    pub fn is_visible(&self, position: DisplayPoint) -> (visible: bool)
        ensures
            visible == self.shows(position),
    {
        if !self.show_local_cursors {
            return false;
        }
        let row = position.row.0;
        if !(self.visible_rows_start.0 <= row && row < self.visible_rows_end.0) {
            return false;
        }
        match self.row_block_types.get(&row) {
            Some(is_block) => !*is_block,
            None => true,
        }
    }

    /// Whether the place of the cursor at `position`, whose row the layout gives as
    /// `row_layout`, can be stored.
    pub fn origin_fits_check(&self, position: DisplayPoint, row_layout: RowLayout) -> (fits: bool)
        ensures
            fits == self.origin_fits(position, row_layout),
    {
        let (x, y) = origin_steps(
            position,
            row_layout,
            self.text_align,
            self.content_width,
            self.scroll_position,
            self.scroll_pixel_position,
            self.line_height,
        );
        i64::MIN as i128 <= x && x <= i64::MAX as i128 && i64::MIN as i128 <= y && y
            <= i64::MAX as i128
    }

    /// Where the cursor at `position` is drawn, given what the layout says of its row, or
    /// `None` where that place cannot be stored.
    pub fn try_origin_for_display_point(&self, position: DisplayPoint, row_layout: RowLayout) -> (origin:
        Option<Point>)
        ensures
            origin == (if self.origin_fits(position, row_layout) {
                Some(self.origin_of(position, row_layout))
            } else {
                None
            }),
    {
        if self.origin_fits_check(position, row_layout) {
            Some(self.origin_for_display_point(position, row_layout))
        } else {
            None
        }
    }

    /// Where the cursor at `position` is drawn, given what the layout says of its row.
    pub fn origin_for_display_point(&self, position: DisplayPoint, row_layout: RowLayout) -> (origin:
        Point)
        requires
            self.origin_fits(position, row_layout),
        ensures
            origin == self.origin_of(position, row_layout),
            origin.x.val() == cursor_origin_x(
                row_layout,
                self.text_align,
                self.content_width,
                self.scroll_pixel_position,
            ),
            origin.y.val() == cursor_origin_y(position.row, self.scroll_position, self.line_height),
    {
        cursor_origin_for_display_point(
            position,
            row_layout,
            self.text_align,
            self.content_width,
            self.scroll_position,
            self.scroll_pixel_position,
            self.line_height,
        )
    }
}

} // verus!

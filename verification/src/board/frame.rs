//! One frame of the board, as a list of drawing operations.
//!
//! A frame is painted in three phases: the two trays, then the 64 squares,
//! then the held piece. Within a tray cell the background comes before the
//! image, so a highlight lies under the piece it marks.

use crate::board::{
    Board, BoardView, SelectedPiece, BOX_DIMENSION, CANCEL_COLOR, COLUMNS, DARK_COLOR,
    HELD_OFFSET_X, HELD_OFFSET_Y, HIGHLIGHT_COLOR, IMG_WIDTH, LIGHT_COLOR, PADDING, ROWS,
    TRAY_COLOR,
};
use crate::geometry::Rect;
use crate::render::{Color, DrawOp, Sheet};
use vstd::prelude::*;

verus! {

/// The sheet that holds the pieces of tray `side`.
pub open spec fn sheet_of(side: usize) -> Sheet {
    if side == 0 {
        Sheet::Black
    } else {
        Sheet::White
    }
}

/// Where on a sheet the piece of tray cell `slot` starts.
pub open spec fn sprite_x(slot: int) -> int {
    IMG_WIDTH * (slot - 1)
}

/// The top edge of tray `side`: the upper tray starts at the rectangle's
/// corner, the lower one a cell below the grid's extent.
pub open spec fn tray_top(rect: Rect, side: usize) -> int {
    if side == 0 {
        rect.y as int
    } else {
        rect.y + rect.height + BOX_DIMENSION
    }
}

/// The left edge of cell `slot` of a tray.
pub open spec fn cell_left(rect: Rect, slot: int) -> int {
    rect.x + slot * BOX_DIMENSION
}

/// The background strip under the whole of tray `side`.
pub open spec fn strip_op(rect: Rect, side: usize) -> DrawOp<'static> {
    DrawOp::FilledRect {
        x1: rect.x as i64,
        y1: tray_top(rect, side) as i64,
        x2: (rect.x + rect.width) as i64,
        y2: (tray_top(rect, side) + BOX_DIMENSION) as i64,
        color: TRAY_COLOR,
    }
}

/// Cell `slot` of tray `side`, filled with `color`.
pub open spec fn cell_fill(rect: Rect, side: usize, slot: int, color: Color) -> DrawOp<'static> {
    DrawOp::FilledRect {
        x1: cell_left(rect, slot) as i64,
        y1: tray_top(rect, side) as i64,
        x2: (cell_left(rect, slot) + BOX_DIMENSION) as i64,
        y2: (tray_top(rect, side) + BOX_DIMENSION) as i64,
        color,
    }
}

/// The pointer icon in cell 0 of tray `side`: the whole icon, which measures
/// `icon_width` by `icon_height`, scaled into the cell.
pub open spec fn icon_op(rect: Rect, side: usize, icon_width: i32, icon_height: i32) -> DrawOp<
    'static,
> {
    DrawOp::Bitmap {
        sheet: Sheet::Pointer,
        sx: 0,
        sy: 0,
        sw: icon_width as i64,
        sh: icon_height as i64,
        dx: (cell_left(rect, 0) + PADDING) as i64,
        dy: (tray_top(rect, side) + PADDING * 2) as i64,
        dw: (BOX_DIMENSION - 4 * PADDING) as i64,
        dh: (BOX_DIMENSION - 4 * PADDING) as i64,
    }
}

/// The piece of tray cell `slot`, cut from the sheet of `side` and drawn with
/// its corner at `(dx, dy)`.
pub open spec fn piece_op(side: usize, slot: int, dx: int, dy: int) -> DrawOp<'static> {
    DrawOp::Bitmap {
        sheet: sheet_of(side),
        sx: sprite_x(slot) as i64,
        sy: 0,
        sw: IMG_WIDTH as i64,
        sh: IMG_WIDTH as i64,
        dx: dx as i64,
        dy: dy as i64,
        dw: (BOX_DIMENSION - PADDING) as i64,
        dh: (BOX_DIMENSION - PADDING) as i64,
    }
}

/// The piece in cell `slot` of tray `side`.
pub open spec fn tray_piece_op(rect: Rect, side: usize, slot: int) -> DrawOp<'static> {
    piece_op(side, slot, cell_left(rect, slot) + PADDING, tray_top(rect, side) + PADDING)
}

/// Whether cell `slot` of tray `side` is the one picked up.
pub open spec fn is_selected(selection: Option<SelectedPiece>, side: usize, slot: int) -> bool {
    selection matches Some(s) && s.player == side && s.piece_idx == slot
}

/// What is painted for one tray cell. Cell 0 gets its own background and the
/// pointer icon. Every other cell gets its piece, over a highlight if the
/// cell is picked up.
pub open spec fn tray_cell_ops(
    rect: Rect,
    selection: Option<SelectedPiece>,
    side: usize,
    slot: int,
    icon_width: i32,
    icon_height: i32,
) -> Seq<DrawOp<'static>> {
    if slot == 0 {
        seq![cell_fill(rect, side, 0, CANCEL_COLOR), icon_op(rect, side, icon_width, icon_height)]
    } else if is_selected(selection, side, slot) {
        seq![cell_fill(rect, side, slot, HIGHLIGHT_COLOR), tray_piece_op(rect, side, slot)]
    } else {
        seq![tray_piece_op(rect, side, slot)]
    }
}

/// The first `count` cells of tray `side`, from left to right.
pub open spec fn tray_cells(
    rect: Rect,
    selection: Option<SelectedPiece>,
    side: usize,
    count: nat,
    icon_width: i32,
    icon_height: i32,
) -> Seq<DrawOp<'static>>
    decreases count,
{
    if count == 0 {
        Seq::empty()
    } else {
        tray_cells(rect, selection, side, (count - 1) as nat, icon_width, icon_height)
            + tray_cell_ops(rect, selection, side, count - 1, icon_width, icon_height)
    }
}

/// Tray `side`: its background strip, then its eight cells.
pub open spec fn tray_ops(
    rect: Rect,
    selection: Option<SelectedPiece>,
    side: usize,
    icon_width: i32,
    icon_height: i32,
) -> Seq<DrawOp<'static>> {
    seq![strip_op(rect, side)] + tray_cells(
        rect,
        selection,
        side,
        COLUMNS as nat,
        icon_width,
        icon_height,
    )
}

/// The colour of the square in `row` and `col`, counted from the top left:
/// the corner square is light, and neighbours differ.
pub open spec fn square_color(row: int, col: int) -> Color {
    if (row + col) % 2 == 0 {
        LIGHT_COLOR
    } else {
        DARK_COLOR
    }
}

/// The square in `row` and `col` of the grid, which starts one cell below the
/// rectangle's corner.
pub open spec fn square_op(rect: Rect, row: int, col: int) -> DrawOp<'static> {
    DrawOp::FilledRect {
        x1: (rect.x + col * BOX_DIMENSION) as i64,
        y1: (rect.y + (row + 1) * BOX_DIMENSION) as i64,
        x2: (rect.x + (col + 1) * BOX_DIMENSION) as i64,
        y2: (rect.y + (row + 2) * BOX_DIMENSION) as i64,
        color: square_color(row, col),
    }
}

/// The 64 squares, row by row from the top, each row from the left. What
/// stands on a square is not painted.
pub open spec fn squares_ops(rect: Rect) -> Seq<DrawOp<'static>> {
    Seq::new((ROWS * COLUMNS) as nat, |k: int| square_op(rect, k / COLUMNS as int, k % COLUMNS as int))
}

/// The held piece: nothing while nothing is picked up, else the picked cell's
/// piece at a fixed offset from the pointer.
pub open spec fn held_ops(selection: Option<SelectedPiece>, pointer_x: int, pointer_y: int) -> Seq<
    DrawOp<'static>,
> {
    match selection {
        Some(s) => seq![
            piece_op(
                s.player,
                s.piece_idx as int,
                pointer_x - HELD_OFFSET_X,
                pointer_y - HELD_OFFSET_Y,
            ),
        ],
        None => Seq::empty(),
    }
}

/// The whole frame: the upper tray, the lower tray, the squares, the held
/// piece.
pub open spec fn frame(
    board: BoardView,
    pointer_x: int,
    pointer_y: int,
    icon_width: i32,
    icon_height: i32,
) -> Seq<DrawOp<'static>> {
    tray_ops(board.rect, board.selection, 0, icon_width, icon_height) + tray_ops(
        board.rect,
        board.selection,
        1,
        icon_width,
        icon_height,
    ) + squares_ops(board.rect) + held_ops(board.selection, pointer_x, pointer_y)
}

/// Builds the piece of tray cell `slot` with its corner at `(dx, dy)`.
fn piece_sprite(side: usize, slot: usize, dx: i64, dy: i64) -> (op: DrawOp<'static>)
    requires
        slot <= COLUMNS,
    ensures
        op == piece_op(side, slot as int, dx as int, dy as int),
{
    let edge: i64 = BOX_DIMENSION as i64 - PADDING as i64;
    let width: i64 = IMG_WIDTH as i64;
    let index: i64 = slot as i64 - 1;
    assert(width * index == 45 * index);
    DrawOp::Bitmap {
        sheet: if side == 0 {
            Sheet::Black
        } else {
            Sheet::White
        },
        sx: width * index,
        sy: 0,
        sw: width,
        sh: width,
        dx,
        dy,
        dw: edge,
        dh: edge,
    }
}

/// Appends tray `side` to `ops`.
fn push_tray(
    ops: &mut Vec<DrawOp<'static>>,
    rect: Rect,
    selection: Option<SelectedPiece>,
    side: usize,
    icon_width: i32,
    icon_height: i32,
)
    ensures
        final(ops)@ == old(ops)@ + tray_ops(rect, selection, side, icon_width, icon_height),
{
    let cell: i64 = BOX_DIMENSION as i64;
    let pad: i64 = PADDING as i64;
    let left: i64 = rect.x as i64;
    let top: i64 = if side == 0 {
        rect.y as i64
    } else {
        rect.y as i64 + rect.height as i64 + cell
    };
    ops.push(
        DrawOp::FilledRect {
            x1: left,
            y1: top,
            x2: left + rect.width as i64,
            y2: top + cell,
            color: TRAY_COLOR,
        },
    );
    let ghost before = old(ops)@ + seq![strip_op(rect, side)];
    assert(ops@ =~= before);
    let mut slot: usize = 0;
    while slot < COLUMNS
        invariant
            slot <= COLUMNS,
            cell == BOX_DIMENSION,
            pad == PADDING,
            left == rect.x,
            top == tray_top(rect, side),
            ops@ == before + tray_cells(
                rect,
                selection,
                side,
                slot as nat,
                icon_width,
                icon_height,
            ),
        decreases COLUMNS - slot,
    {
        let ghost so_far = ops@;
        let x: i64 = left + slot as i64 * cell;
        if slot == 0 {
            ops.push(
                DrawOp::FilledRect { x1: x, y1: top, x2: x + cell, y2: top + cell, color: CANCEL_COLOR },
            );
            ops.push(
                DrawOp::Bitmap {
                    sheet: Sheet::Pointer,
                    sx: 0,
                    sy: 0,
                    sw: icon_width as i64,
                    sh: icon_height as i64,
                    dx: x + pad,
                    dy: top + pad * 2,
                    dw: cell - 4 * pad,
                    dh: cell - 4 * pad,
                },
            );
        } else {
            let picked = match selection {
                Some(s) => s.player == side && s.piece_idx == slot,
                None => false,
            };
            if picked {
                ops.push(
                    DrawOp::FilledRect {
                        x1: x,
                        y1: top,
                        x2: x + cell,
                        y2: top + cell,
                        color: HIGHLIGHT_COLOR,
                    },
                );
            }
            ops.push(piece_sprite(side, slot, x + pad, top + pad));
        }
        assert(ops@ =~= so_far + tray_cell_ops(
            rect,
            selection,
            side,
            slot as int,
            icon_width,
            icon_height,
        ));
        slot = slot + 1;
        assert(ops@ =~= before + tray_cells(
            rect,
            selection,
            side,
            slot as nat,
            icon_width,
            icon_height,
        ));
    }
}

/// Appends the 64 squares to `ops`.
fn push_squares(ops: &mut Vec<DrawOp<'static>>, rect: Rect)
    ensures
        final(ops)@ == old(ops)@ + squares_ops(rect),
{
    let cell: i64 = BOX_DIMENSION as i64;
    let left: i64 = rect.x as i64;
    let mut y: i64 = rect.y as i64 + cell;
    let mut dark_first: bool = false;
    let mut row: usize = 0;
    while row < ROWS
        invariant
            row <= ROWS,
            cell == BOX_DIMENSION,
            left == rect.x,
            y == rect.y + (row + 1) * BOX_DIMENSION,
            dark_first == (row % 2 == 1),
            ops@ == old(ops)@ + Seq::new(
                (row * COLUMNS) as nat,
                |k: int| square_op(rect, k / COLUMNS as int, k % COLUMNS as int),
            ),
        decreases ROWS - row,
    {
        let mut x: i64 = left;
        let mut col: usize = 0;
        while col < COLUMNS
            invariant
                row < ROWS,
                col <= COLUMNS,
                cell == BOX_DIMENSION,
                left == rect.x,
                x == rect.x + col * BOX_DIMENSION,
                y == rect.y + (row + 1) * BOX_DIMENSION,
                dark_first == (row % 2 == 1),
                ops@ == old(ops)@ + Seq::new(
                    (row * COLUMNS + col) as nat,
                    |k: int| square_op(rect, k / COLUMNS as int, k % COLUMNS as int),
                ),
            decreases COLUMNS - col,
        {
            let ghost k = row * COLUMNS + col;
            let dark = (col % 2 == 1) != dark_first;
            ops.push(
                DrawOp::FilledRect {
                    x1: x,
                    y1: y,
                    x2: x + cell,
                    y2: y + cell,
                    color: if dark {
                        DARK_COLOR
                    } else {
                        LIGHT_COLOR
                    },
                },
            );
            assert(k / COLUMNS as int == row && k % COLUMNS as int == col);
            x = x + cell;
            col = col + 1;
            assert(ops@ =~= old(ops)@ + Seq::new(
                (row * COLUMNS + col) as nat,
                |k: int| square_op(rect, k / COLUMNS as int, k % COLUMNS as int),
            ));
        }
        y = y + cell;
        dark_first = !dark_first;
        row = row + 1;
    }
}

impl Board {
    /// Lists what to paint for one frame, in painting order, with the pointer
    /// at `(pointer_x, pointer_y)` and a pointer icon that measures
    /// `icon_width` by `icon_height`.
    pub fn draw(&self, pointer_x: i32, pointer_y: i32, icon_width: i32, icon_height: i32) -> (ops:
        Vec<DrawOp<'static>>)
        ensures
            ops@ == frame(self@, pointer_x as int, pointer_y as int, icon_width, icon_height),
    {
        let rect = self.bounds();
        let selection = self.selection();
        let mut ops: Vec<DrawOp<'static>> = Vec::new();
        push_tray(&mut ops, rect, selection, 0, icon_width, icon_height);
        push_tray(&mut ops, rect, selection, 1, icon_width, icon_height);
        push_squares(&mut ops, rect);
        match selection {
            Some(s) => {
                ops.push(
                    piece_sprite(
                        s.player,
                        s.piece_idx,
                        pointer_x as i64 - HELD_OFFSET_X as i64,
                        pointer_y as i64 - HELD_OFFSET_Y as i64,
                    ),
                );
            },
            None => {},
        }
        assert(ops@ =~= frame(
            self@,
            pointer_x as int,
            pointer_y as int,
            icon_width,
            icon_height,
        ));
        ops
    }
}

} // verus!

//! What holds of the board for every input.

use crate::board::frame::{
    cell_fill, frame, held_ops, piece_op, square_op, squares_ops, tray_cells, tray_ops,
    tray_piece_op,
};
use crate::board::{
    after_event, band_of, hit_region, slot_of, BoardView, SelectedPiece, BOX_DIMENSION, COLUMNS,
    HELD_OFFSET_X, HELD_OFFSET_Y, HIGHLIGHT_COLOR, IMG_WIDTH, REGION_ROWS, ROWS,
};
use crate::event::PointerEvent;
use crate::geometry::Rect;
use crate::render::{DrawOp, Sheet};
use vstd::prelude::*;

verus! {

/// A pixel column has slot `k` exactly when it lies in the `k`-th cell, whose
/// left edge belongs to it and whose right edge does not.
pub proof fn lemma_slot_of_cell(x: int, origin: int, cell: int, k: int)
    requires
        cell > 0,
    ensures
        slot_of(x, origin, cell) == k <==> origin + k * cell <= x < origin + (k + 1) * cell,
{
    let q = (x - origin) / cell;
    let r = (x - origin) % cell;
    vstd::arithmetic::div_mod::lemma_fundamental_div_mod(x - origin, cell);
    vstd::arithmetic::div_mod::lemma_mod_bound(x - origin, cell);
    assert(cell * q + r == x - origin);
    if q == k {
        assert(k * cell == cell * q) by (nonlinear_arith)
            requires
                q == k,
        ;
        assert((k + 1) * cell == cell * q + cell) by (nonlinear_arith)
            requires
                q == k,
        ;
    }
    if origin + k * cell <= x < origin + (k + 1) * cell {
        assert((k + 1) * cell == k * cell + cell) by (nonlinear_arith);
        vstd::arithmetic::div_mod::lemma_fundamental_div_mod_converse(
            x - origin,
            cell,
            k,
            x - origin - k * cell,
        );
    }
}

/// The eight cells of a tray are the pixel columns with a slot from 0 to 7:
/// a column left of the first cell has a negative slot, one right of the last
/// cell a slot above 7. Nothing is clamped.
pub proof fn lemma_slot_in_tray(x: int, origin: int, cell: int)
    requires
        cell > 0,
    ensures
        origin <= x < origin + 8 * cell <==> 0 <= slot_of(x, origin, cell) <= 7,
        x < origin <==> slot_of(x, origin, cell) < 0,
        x >= origin + 8 * cell <==> slot_of(x, origin, cell) > 7,
{
    let k = slot_of(x, origin, cell);
    lemma_slot_of_cell(x, origin, cell, k);
    assert(k < 0 ==> (k + 1) * cell <= 0) by (nonlinear_arith)
        requires
            cell > 0,
    ;
    assert(k >= 0 ==> k * cell >= 0) by (nonlinear_arith)
        requires
            cell > 0,
    ;
    assert(k <= 7 ==> (k + 1) * cell <= 8 * cell) by (nonlinear_arith)
        requires
            cell > 0,
    ;
    assert(k > 7 ==> k * cell >= 8 * cell) by (nonlinear_arith)
        requires
            cell > 0,
    ;
}

/// A press in a band, on one of the eight cells, selects that cell of that
/// tray, whatever was selected before: the last press wins.
pub proof fn lemma_press_replaces_selection(
    rect: Rect,
    selection: Option<SelectedPiece>,
    x: i32,
    y: i32,
    side: usize,
    slot: int,
)
    requires
        band_of(rect, x as int, y as int) == Some(side),
        slot == slot_of(x as int, rect.x as int, BOX_DIMENSION as int),
        0 <= slot < COLUMNS,
    ensures
        after_event(rect, selection, PointerEvent::Down { x, y }) == Some(
            SelectedPiece { player: side, piece_idx: slot as usize },
        ),
{
}

/// A press on the grid between the two bands changes nothing, and neither
/// does a press outside the widget.
pub proof fn lemma_press_off_trays_keeps_selection(
    rect: Rect,
    selection: Option<SelectedPiece>,
    x: i32,
    y: i32,
)
    requires
        rect.y + BOX_DIMENSION <= y <= rect.y + BOX_DIMENSION * (REGION_ROWS - 1)
            || !hit_region(rect).contains(x as int, y as int),
    ensures
        after_event(rect, selection, PointerEvent::Down { x, y }) == selection,
{
}

/// Only a press can change the selection: a move of the pointer and any
/// other event leave it as it was.
pub proof fn lemma_only_a_press_selects(
    rect: Rect,
    selection: Option<SelectedPiece>,
    event: PointerEvent,
)
    requires
        !(event is Down),
    ensures
        after_event(rect, selection, event) == selection,
{
}

/// A press in the first cell of either tray selects cell 0, the one with the
/// pointer icon, and never a piece.
pub proof fn lemma_first_cell_selects_slot_zero(
    rect: Rect,
    selection: Option<SelectedPiece>,
    x: i32,
    y: i32,
    side: usize,
)
    requires
        band_of(rect, x as int, y as int) == Some(side),
        rect.x <= x < rect.x + BOX_DIMENSION,
    ensures
        after_event(rect, selection, PointerEvent::Down { x, y }) == Some(
            SelectedPiece { player: side, piece_idx: 0 },
        ),
{
    lemma_slot_of_cell(x as int, rect.x as int, BOX_DIMENSION as int, 0);
}

/// No event leads out of the well-formed boards: afterwards the selection, if
/// there is one, still names one of the two trays and one of its eight cells.
pub proof fn lemma_event_keeps_board_well_formed(board: BoardView, event: PointerEvent)
    requires
        board.wf(),
    ensures
        (BoardView { selection: after_event(board.rect, board.selection, event), ..board }).wf(),
{
}

/// The frame depends on the rectangle, the selection, the pointer and the
/// icon's size, and on nothing else: boards that agree on the first two
/// paint the same frame, whatever stands on their squares.
pub proof fn lemma_frame_is_determined(
    a: BoardView,
    b: BoardView,
    pointer_x: int,
    pointer_y: int,
    icon_width: i32,
    icon_height: i32,
)
    requires
        a.rect == b.rect,
        a.selection == b.selection,
    ensures
        frame(a, pointer_x, pointer_y, icon_width, icon_height) == frame(
            b,
            pointer_x,
            pointer_y,
            icon_width,
            icon_height,
        ),
{
}

/// A tray without a highlight is ten operations long: the strip, the two of
/// cell 0, and one piece for each of the cells 1 to 7.
pub proof fn lemma_plain_tray(
    rect: Rect,
    selection: Option<SelectedPiece>,
    side: usize,
    icon_width: i32,
    icon_height: i32,
)
    requires
        !(selection matches Some(s) && s.player == side && 1 <= s.piece_idx < COLUMNS),
    ensures
        tray_ops(rect, selection, side, icon_width, icon_height).len() == 10,
        forall|slot: int|
            1 <= slot < COLUMNS ==> #[trigger] tray_ops(
                rect,
                selection,
                side,
                icon_width,
                icon_height,
            )[slot + 2] == tray_piece_op(rect, side, slot),
{
    reveal_with_fuel(tray_cells, 9);
}

/// The tray of the selected piece is eleven operations long, and paints the
/// highlight of the selected cell directly before that cell's piece.
pub proof fn lemma_selected_cell_is_highlighted(
    rect: Rect,
    side: usize,
    slot: usize,
    icon_width: i32,
    icon_height: i32,
)
    requires
        1 <= slot < COLUMNS,
    ensures
        ({
            let selection = Some(SelectedPiece { player: side, piece_idx: slot });
            let tray = tray_ops(rect, selection, side, icon_width, icon_height);
            &&& tray.len() == 11
            &&& tray[slot + 2] == cell_fill(rect, side, slot as int, HIGHLIGHT_COLOR)
            &&& tray[slot + 3] == tray_piece_op(rect, side, slot as int)
        }),
{
    reveal_with_fuel(tray_cells, 9);
}

/// While nothing is picked up no held piece is painted: the frame is the two
/// trays and the 64 squares, it ends with the last square, and it is the
/// same wherever the pointer is.
pub proof fn lemma_no_selection_no_held_piece(
    board: BoardView,
    pointer_x: int,
    pointer_y: int,
    icon_width: i32,
    icon_height: i32,
)
    requires
        board.selection is None,
    ensures
        ({
            let painted = frame(board, pointer_x, pointer_y, icon_width, icon_height);
            &&& held_ops(board.selection, pointer_x, pointer_y).len() == 0
            &&& painted == tray_ops(board.rect, board.selection, 0, icon_width, icon_height)
                + tray_ops(board.rect, board.selection, 1, icon_width, icon_height) + squares_ops(
                board.rect,
            )
            &&& painted.len() == 84
            &&& forall|k: int|
                0 <= k < ROWS * COLUMNS ==> #[trigger] painted[20 + k] == square_op(
                    board.rect,
                    k / COLUMNS as int,
                    k % COLUMNS as int,
                )
            &&& forall|x: int, y: int| #[trigger]
                frame(board, x, y, icon_width, icon_height) == painted
        }),
{
    let painted = frame(board, pointer_x, pointer_y, icon_width, icon_height);
    let trays = tray_ops(board.rect, board.selection, 0, icon_width, icon_height) + tray_ops(
        board.rect,
        board.selection,
        1,
        icon_width,
        icon_height,
    );
    lemma_plain_tray(board.rect, board.selection, 0, icon_width, icon_height);
    lemma_plain_tray(board.rect, board.selection, 1, icon_width, icon_height);
    assert(painted =~= trays + squares_ops(board.rect));
    assert forall|x: int, y: int| #[trigger]
        frame(board, x, y, icon_width, icon_height) == painted by {
        assert(frame(board, x, y, icon_width, icon_height) =~= trays + squares_ops(board.rect));
    }
}

/// While a piece is picked up the frame ends with that piece, cut from the
/// sheet of its tray at the place of its cell and painted at the fixed
/// offset from the pointer, after the trays and the squares.
pub proof fn lemma_held_piece_follows_pointer(
    board: BoardView,
    side: usize,
    slot: usize,
    pointer_x: i32,
    pointer_y: i32,
    icon_width: i32,
    icon_height: i32,
)
    requires
        board.selection == Some(SelectedPiece { player: side, piece_idx: slot }),
        side < 2,
        slot < COLUMNS,
    ensures
        ({
            let painted = frame(board, pointer_x as int, pointer_y as int, icon_width, icon_height);
            &&& painted.len() == if slot == 0 {
                85int
            } else {
                86int
            }
            &&& painted.last() == piece_op(
                side,
                slot as int,
                pointer_x - HELD_OFFSET_X,
                pointer_y - HELD_OFFSET_Y,
            )
            &&& painted.last() == (DrawOp::Bitmap {
                sheet: if side == 0 {
                    Sheet::Black
                } else {
                    Sheet::White
                },
                sx: (IMG_WIDTH * (slot - 1)) as i64,
                sy: 0,
                sw: IMG_WIDTH as i64,
                sh: IMG_WIDTH as i64,
                dx: (pointer_x - HELD_OFFSET_X) as i64,
                dy: (pointer_y - HELD_OFFSET_Y) as i64,
                dw: 70,
                dh: 70,
            })
        }),
{
    let painted = frame(board, pointer_x as int, pointer_y as int, icon_width, icon_height);
    let top = tray_ops(board.rect, board.selection, 0, icon_width, icon_height);
    let bottom = tray_ops(board.rect, board.selection, 1, icon_width, icon_height);
    let held = piece_op(side, slot as int, pointer_x - HELD_OFFSET_X, pointer_y - HELD_OFFSET_Y);
    assert(top.len() + bottom.len() == if slot == 0 {
        20int
    } else {
        21int
    }) by {
        if slot == 0 {
            lemma_plain_tray(board.rect, board.selection, 0, icon_width, icon_height);
            lemma_plain_tray(board.rect, board.selection, 1, icon_width, icon_height);
        } else if side == 0 {
            lemma_selected_cell_is_highlighted(board.rect, side, slot, icon_width, icon_height);
            lemma_plain_tray(board.rect, board.selection, 1, icon_width, icon_height);
        } else {
            lemma_plain_tray(board.rect, board.selection, 0, icon_width, icon_height);
            lemma_selected_cell_is_highlighted(board.rect, side, slot, icon_width, icon_height);
        }
    }
    assert(held_ops(board.selection, pointer_x as int, pointer_y as int) =~= seq![held]);
    assert(painted =~= (top + bottom + squares_ops(board.rect)).push(held));
}

} // verus!

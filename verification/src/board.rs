//! The chessboard: an 8x8 grid between two trays of pieces.
//!
//! The top tray belongs to side 0 and the bottom tray to side 1. Each tray
//! has eight cells: cell 0 shows the pointer icon, cells 1 to 7 show pieces.
//! A press on a tray cell picks that cell up; what was picked up follows the
//! pointer until another cell is picked.

pub mod frame;
pub mod laws;

use crate::event::PointerEvent;
use crate::geometry::Rect;
use crate::render::Color;
use vstd::prelude::*;

verus! {

/// Rows of the grid.
pub const ROWS: usize = 8;

/// Columns of the grid, and cells of a tray.
pub const COLUMNS: usize = 8;

/// Edge of one square cell.
pub const BOX_DIMENSION: i32 = 75;

/// Gap between a cell's edge and what is drawn in it.
pub const PADDING: i32 = 5;

/// Edge of one piece on a sprite sheet.
pub const IMG_WIDTH: i32 = 45;

/// Cells from the top of the upper tray to the bottom of the lower one.
pub const REGION_ROWS: i32 = 10;

/// Where a new board puts the left edge of its trays.
pub const BOARD_X: i32 = 100;

/// Where a new board puts the top edge of its upper tray.
pub const BOARD_Y: i32 = 100;

/// How far left of the pointer the held piece is drawn: 450 for where the
/// board stands on the screen, and half a piece, rounded down.
pub const HELD_OFFSET_X: i32 = 472;

/// How far above the pointer the held piece is drawn: 50 for where the board
/// stands on the screen, and half a piece, rounded down.
pub const HELD_OFFSET_Y: i32 = 72;

/// Background of a tray.
pub const TRAY_COLOR: Color = (107, 107, 107);

/// Background of the cell that shows the pointer icon.
pub const CANCEL_COLOR: Color = (101, 135, 64);

/// Background of the cell that is picked up.
pub const HIGHLIGHT_COLOR: Color = (80, 126, 169);

/// The dark squares of the grid.
pub const DARK_COLOR: Color = (181, 136, 99);

/// The light squares of the grid.
pub const LIGHT_COLOR: Color = (240, 217, 182);

/// What stands on a square or lies in a tray cell.
#[derive(Clone, Copy, Debug, PartialEq, Eq, Structural)]
pub enum Piece {
    King,
    Queen,
    Bishop,
    Knight,
    Rook,
    Pawn,
    Empty,
}

impl Default for Piece {
    fn default() -> (piece: Piece)
        ensures
            piece == Piece::Empty,
    {
        Piece::Empty
    }
}

/// The column of cells that the pixel `x` falls in, counted from the cell
/// whose left edge is `origin`: the floor of `(x - origin) / cell`.
pub open spec fn slot_of(x: int, origin: int, cell: int) -> int {
    (x - origin) / cell
}

/// Below zero, the floor of a quotient is one less than the negated quotient
/// of the mirrored value.
proof fn lemma_floor_below_zero(offset: int, cell: int)
    requires
        offset < 0,
        cell > 0,
    ensures
        offset / cell == -((-offset - 1) / cell) - 1,
{
    let q = (-offset - 1) / cell;
    let r = (-offset - 1) % cell;
    vstd::arithmetic::div_mod::lemma_fundamental_div_mod(-offset - 1, cell);
    vstd::arithmetic::div_mod::lemma_mod_bound(-offset - 1, cell);
    assert(offset == (-q - 1) * cell + (cell - r - 1)) by (nonlinear_arith)
        requires
            -offset - 1 == cell * q + r,
    ;
    vstd::arithmetic::div_mod::lemma_fundamental_div_mod_converse(
        offset,
        cell,
        -q - 1,
        cell - r - 1,
    );
}

/// Computes the cell column of the pixel `x`. The result is not clamped: it is
/// negative left of `board_origin_x`, and grows without bound to the right.
pub fn slot_index(x: i32, board_origin_x: i32, cell_size: i32) -> (slot: i64)
    requires
        cell_size > 0,
    ensures
        slot == slot_of(x as int, board_origin_x as int, cell_size as int),
{
    let offset: i64 = x as i64 - board_origin_x as i64;
    let cell: i64 = cell_size as i64;
    if offset >= 0 {
        offset / cell
    } else {
        proof {
            lemma_floor_below_zero(offset as int, cell as int);
        }
        -((-offset - 1) / cell) - 1
    }
}

/// The tray cell that is picked up.
#[derive(Clone, Copy, Debug, PartialEq, Eq, Structural)]
pub struct SelectedPiece {
    /// The tray it came from: 0 is the top tray, 1 the bottom one.
    pub player: usize,
    /// Its cell in that tray, from 0 to 7.
    pub piece_idx: usize,
}

impl SelectedPiece {
    /// A selection names one of the two trays and one of the eight cells.
    pub open spec fn wf(&self) -> bool {
        self.player < 2 && self.piece_idx < COLUMNS
    }
}

/// The board widget.
pub struct Board {
    rect: Rect,
    board: [[Piece; ROWS]; COLUMNS],
    selected_piece: Option<SelectedPiece>,
}

/// What a board is, to its contracts.
pub struct BoardView {
    /// The rectangle that starts at the upper tray's corner and has the
    /// extent of the grid.
    pub rect: Rect,
    /// The squares, as columns of rows.
    pub squares: Seq<Seq<Piece>>,
    /// What is picked up, if anything.
    pub selection: Option<SelectedPiece>,
}

impl BoardView {
    /// The grid is 8 by 8 cells of the fixed size, and a selection names a
    /// tray cell that exists.
    pub open spec fn wf(&self) -> bool {
        &&& self.rect.width == BOX_DIMENSION * COLUMNS
        &&& self.rect.height == BOX_DIMENSION * ROWS
        &&& self.squares.len() == COLUMNS
        &&& forall|c: int| 0 <= c < COLUMNS ==> (#[trigger] self.squares[c]).len() == ROWS
        &&& self.selection matches Some(s) ==> s.wf()
    }
}

/// The whole widget: the rectangle that spans both trays and the grid.
pub open spec fn hit_region(rect: Rect) -> Rect {
    Rect { x: rect.x, y: rect.y, width: rect.width, height: (BOX_DIMENSION * REGION_ROWS) as i32 }
}

/// The tray that a press at `(x, y)` lands in: 0 for the top band of the
/// widget, 1 for the bottom band. A press on the grid between the bands, or
/// outside the widget, lands in neither.
pub open spec fn band_of(rect: Rect, x: int, y: int) -> Option<usize> {
    if !hit_region(rect).contains(x, y) {
        None
    } else if y < rect.y + BOX_DIMENSION {
        Some(0usize)
    } else if y > rect.y + BOX_DIMENSION * REGION_ROWS - BOX_DIMENSION {
        Some(1usize)
    } else {
        None
    }
}

/// The selection after picking in tray `side` at the pixel column `x`. A
/// column that belongs to one of the eight cells replaces whatever was
/// selected; any other column leaves the selection as it was.
pub open spec fn pick(rect: Rect, selection: Option<SelectedPiece>, x: int, side: usize) -> Option<
    SelectedPiece,
> {
    let slot = slot_of(x, rect.x as int, BOX_DIMENSION as int);
    if 0 <= slot < COLUMNS {
        Some(SelectedPiece { player: side, piece_idx: slot as usize })
    } else {
        selection
    }
}

/// The selection after an event. Only a press in one of the two bands can
/// change it.
pub open spec fn after_event(
    rect: Rect,
    selection: Option<SelectedPiece>,
    event: PointerEvent,
) -> Option<SelectedPiece> {
    match event {
        PointerEvent::Down { x, y } => match band_of(rect, x as int, y as int) {
            Some(side) => pick(rect, selection, x as int, side),
            None => selection,
        },
        _ => selection,
    }
}

impl View for Board {
    type V = BoardView;

    closed spec fn view(&self) -> BoardView {
        BoardView {
            rect: self.rect,
            squares: Seq::new(COLUMNS as nat, |c: int| self.board[c]@),
            selection: self.selected_piece,
        }
    }
}

impl Board {
    #[verifier::type_invariant]
    spec fn inv(&self) -> bool {
        &&& self.rect.width == BOX_DIMENSION * COLUMNS
        &&& self.rect.height == BOX_DIMENSION * ROWS
        &&& self.selected_piece matches Some(s) ==> s.wf()
    }

    /// A board at its fixed place on the screen, with every square empty and
    /// nothing picked up.
    pub fn new() -> (board: Board)
        ensures
            board@.wf(),
            board@.rect == (Rect {
                x: BOARD_X,
                y: BOARD_Y,
                width: (BOX_DIMENSION * COLUMNS) as i32,
                height: (BOX_DIMENSION * ROWS) as i32,
            }),
            forall|c: int, r: int|
                0 <= c < COLUMNS && 0 <= r < ROWS ==> #[trigger] board@.squares[c][r]
                    == Piece::Empty,
            board@.selection is None,
    {
        Board {
            rect: Rect::new(BOARD_X, BOARD_Y, BOX_DIMENSION * 8, BOX_DIMENSION * 8),
            board: [[Piece::Empty; ROWS]; COLUMNS],
            selected_piece: None,
        }
    }

    /// The rectangle that starts at the upper tray's corner and has the
    /// extent of the grid.
    pub fn bounds(&self) -> (rect: Rect)
        ensures
            rect == self@.rect,
            self@.wf(),
    {
        proof {
            use_type_invariant(self);
        }
        self.rect
    }

    /// What is picked up, if anything.
    pub fn selection(&self) -> (selection: Option<SelectedPiece>)
        ensures
            selection == self@.selection,
            self@.wf(),
    {
        proof {
            use_type_invariant(self);
        }
        self.selected_piece
    }

    /// What stands on the square in `column` and `row`.
    pub fn piece_at(&self, column: usize, row: usize) -> (piece: Piece)
        requires
            column < COLUMNS,
            row < ROWS,
        ensures
            piece == self@.squares[column as int][row as int],
    {
        self.board[column][row]
    }

    /// Picks the cell of tray `side` under the pixel column `x`. A column
    /// outside the eight cells picks nothing and keeps what was selected.
    pub fn select_piece(&mut self, x: i32, side: usize)
        requires
            side < 2,
        ensures
            final(self)@ == (BoardView {
                selection: pick(old(self)@.rect, old(self)@.selection, x as int, side),
                ..old(self)@
            }),
            final(self)@.wf(),
    {
        proof {
            use_type_invariant(&*self);
        }
        let idx: i64 = slot_index(x, self.rect.x, BOX_DIMENSION);
        if 0 <= idx && idx < COLUMNS as i64 {
            self.selected_piece = Some(SelectedPiece { player: side, piece_idx: idx as usize });
        }
    }

    /// Reacts to one event. A press in the top or the bottom band picks the
    /// tray cell under it; every other event leaves the board as it was.
    pub fn event_listener(&mut self, event: &PointerEvent)
        ensures
            final(self)@ == (BoardView {
                selection: after_event(old(self)@.rect, old(self)@.selection, *event),
                ..old(self)@
            }),
            final(self)@.wf(),
    {
        proof {
            use_type_invariant(&*self);
        }
        match event {
            PointerEvent::Down { x, y } => {
                let region = Rect::new(
                    self.rect.x,
                    self.rect.y,
                    self.rect.width,
                    BOX_DIMENSION * REGION_ROWS,
                );
                if region.contains_point(*x, *y) {
                    let top: i64 = self.rect.y as i64;
                    if (*y as i64) < top + BOX_DIMENSION as i64 {
                        self.select_piece(*x, 0);
                    } else if *y as i64 > top + region.height as i64 - BOX_DIMENSION as i64 {
                        self.select_piece(*x, 1);
                    }
                }
            },
            _ => {},
        }
    }
}

} // verus!

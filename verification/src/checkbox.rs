//! Checkboxes: a square that the pointer can tick, with a text beside it,
//! and a labelled row of them.

use crate::event::PointerEvent;
use crate::geometry::Rect;
use crate::render::{Color, DrawOp};
use vstd::prelude::*;

verus! {

/// Thickness of a box's outline.
pub const BORDER_WIDTH: i32 = 3;

/// Gap below a group's label, and part of the gap between two boxes.
pub const MARGIN: i32 = 10;

/// Radius of a box's rounded corners.
pub const CORNER_RADIUS: i32 = 3;

/// Gap between a box's outline and its text.
pub const TEXT_GAP: i32 = 10;

/// Outline of a box, and its text.
pub const TEXT_COLOR: Color = (130, 130, 143);

/// Outline of the box under the pointer.
pub const HOVER_COLOR: Color = (177, 177, 185);

/// Inside of a box.
pub const BOX_COLOR: Color = (43, 42, 51);

/// The tick of a checked box.
pub const CHECK_COLOR: Color = (67, 111, 157);

/// Colour of a group's label.
pub const LABEL_COLOR: Color = (154, 153, 153);

/// Gap between the text of one box and the next box of a group, beyond the
/// margin.
pub const GROUP_GAP: i32 = 50;

/// Gap below a group, beyond the outline of its boxes.
pub const NEXT_ROW_GAP: i32 = 30;

/// One checkbox.
#[derive(Clone, Copy, Debug)]
pub struct CheckBox<'a> {
    rect: Rect,
    text: &'a str,
    curr_state: bool,
    text_pos_x: i64,
    is_hovering: bool,
}

/// What a checkbox is, to its contracts.
pub struct CheckBoxView<'a> {
    /// The square that can be ticked.
    pub rect: Rect,
    /// The text beside the square.
    pub text: &'a str,
    /// Whether the box is ticked.
    pub checked: bool,
    /// Whether the pointer was over the square when it last moved.
    pub hovering: bool,
}

impl<'a> CheckBoxView<'a> {
    /// Whether the box claims `event`: a move onto its square, or a press
    /// while the pointer is over it.
    pub open spec fn claims(self, event: PointerEvent) -> bool {
        match event {
            PointerEvent::Move { x, y } => self.rect.contains(x as int, y as int),
            PointerEvent::Down { .. } => self.hovering,
            PointerEvent::Other => false,
        }
    }

    /// The box after `event`. A move sets whether the pointer is over the
    /// square; a press while it is over the square flips the tick.
    pub open spec fn after(self, event: PointerEvent) -> CheckBoxView<'a> {
        match event {
            PointerEvent::Move { x, y } => CheckBoxView {
                hovering: self.rect.contains(x as int, y as int),
                ..self
            },
            PointerEvent::Down { .. } => CheckBoxView {
                checked: self.checked != self.hovering,
                ..self
            },
            PointerEvent::Other => self,
        }
    }

    /// Where the text starts: right of the square, its outline and a gap.
    pub open spec fn text_left(self) -> int {
        self.rect.x + self.rect.width + BORDER_WIDTH + TEXT_GAP
    }

    /// The outline, in the hover colour while the pointer is over the box.
    pub open spec fn outline_op(self) -> DrawOp<'a> {
        DrawOp::RoundedRect {
            x1: (self.rect.x - BORDER_WIDTH) as i64,
            y1: (self.rect.y - BORDER_WIDTH) as i64,
            x2: (self.rect.x + self.rect.width + BORDER_WIDTH) as i64,
            y2: (self.rect.y + self.rect.height + BORDER_WIDTH) as i64,
            rx: CORNER_RADIUS as i64,
            ry: CORNER_RADIUS as i64,
            color: if self.hovering {
                HOVER_COLOR
            } else {
                TEXT_COLOR
            },
            thickness: BORDER_WIDTH as i64,
        }
    }

    /// The inside of the square.
    pub open spec fn inside_op(self) -> DrawOp<'a> {
        DrawOp::FilledRoundedRect {
            x1: self.rect.x as i64,
            y1: self.rect.y as i64,
            x2: (self.rect.x + self.rect.width) as i64,
            y2: (self.rect.y + self.rect.height) as i64,
            rx: CORNER_RADIUS as i64,
            ry: CORNER_RADIUS as i64,
            color: BOX_COLOR,
        }
    }

    /// The text, level with the square's top.
    pub open spec fn text_op(self) -> DrawOp<'a> {
        DrawOp::Text {
            color: TEXT_COLOR,
            x: self.text_left() as i64,
            y: self.rect.y as i64,
            text: self.text,
        }
    }

    /// The tick: the square, smaller by the outline's thickness on each side.
    pub open spec fn tick_op(self) -> DrawOp<'a> {
        DrawOp::FilledRoundedRect {
            x1: (self.rect.x + BORDER_WIDTH) as i64,
            y1: (self.rect.y + BORDER_WIDTH) as i64,
            x2: (self.rect.x + self.rect.width - BORDER_WIDTH) as i64,
            y2: (self.rect.y + self.rect.height - BORDER_WIDTH) as i64,
            rx: CORNER_RADIUS as i64,
            ry: CORNER_RADIUS as i64,
            color: CHECK_COLOR,
        }
    }

    /// What is painted for the box: outline, inside, text, and the tick on
    /// top if the box is checked.
    pub open spec fn frame(self) -> Seq<DrawOp<'a>> {
        if self.checked {
            seq![self.outline_op(), self.inside_op(), self.text_op(), self.tick_op()]
        } else {
            seq![self.outline_op(), self.inside_op(), self.text_op()]
        }
    }
}

impl<'a> View for CheckBox<'a> {
    type V = CheckBoxView<'a>;

    closed spec fn view(&self) -> CheckBoxView<'a> {
        CheckBoxView {
            rect: self.rect,
            text: self.text,
            checked: self.curr_state,
            hovering: self.is_hovering,
        }
    }
}

impl<'a> CheckBox<'a> {
    #[verifier::type_invariant]
    spec fn inv(&self) -> bool {
        &&& self.rect.wf()
        &&& self.text_pos_x == self.rect.x + self.rect.width + BORDER_WIDTH + TEXT_GAP
    }

    /// An unchecked box: a square of edge `size` with its corner at `(x, y)`,
    /// and `text` beside it.
    pub fn new(x: i32, y: i32, size: i32, text: &'a str) -> (checkbox: CheckBox<'a>)
        requires
            size > 0,
        ensures
            checkbox@ == (CheckBoxView {
                rect: Rect { x, y, width: size, height: size },
                text,
                checked: false,
                hovering: false,
            }),
    {
        let rect = Rect::new(x, y, size, size);
        CheckBox {
            rect,
            text,
            curr_state: false,
            text_pos_x: x as i64 + size as i64 + BORDER_WIDTH as i64 + TEXT_GAP as i64,
            is_hovering: false,
        }
    }

    /// Lists what to paint for the box, in painting order.
    pub fn draw(&self) -> (ops: Vec<DrawOp<'a>>)
        ensures
            ops@ == self@.frame(),
    {
        proof {
            use_type_invariant(self);
        }
        let border: i64 = BORDER_WIDTH as i64;
        let radius: i64 = CORNER_RADIUS as i64;
        let left: i64 = self.rect.x as i64;
        let top: i64 = self.rect.y as i64;
        let right: i64 = left + self.rect.width as i64;
        let bottom: i64 = top + self.rect.height as i64;
        let mut ops: Vec<DrawOp<'a>> = Vec::new();
        ops.push(
            DrawOp::RoundedRect {
                x1: left - border,
                y1: top - border,
                x2: right + border,
                y2: bottom + border,
                rx: radius,
                ry: radius,
                color: if self.is_hovering {
                    HOVER_COLOR
                } else {
                    TEXT_COLOR
                },
                thickness: border,
            },
        );
        ops.push(
            DrawOp::FilledRoundedRect {
                x1: left,
                y1: top,
                x2: right,
                y2: bottom,
                rx: radius,
                ry: radius,
                color: BOX_COLOR,
            },
        );
        ops.push(DrawOp::Text { color: TEXT_COLOR, x: self.text_pos_x, y: top, text: self.text });
        if self.curr_state {
            ops.push(
                DrawOp::FilledRoundedRect {
                    x1: left + border,
                    y1: top + border,
                    x2: right - border,
                    y2: bottom - border,
                    rx: radius,
                    ry: radius,
                    color: CHECK_COLOR,
                },
            );
        }
        assert(ops@ =~= self@.frame());
        ops
    }

    /// Reacts to one event, and says whether the box claims it. A move
    /// records whether the pointer is over the square. A press flips the tick
    /// if the pointer is over the square.
    pub fn event_listener(&mut self, event: &PointerEvent) -> (claimed: bool)
        ensures
            final(self)@ == old(self)@.after(*event),
            claimed == old(self)@.claims(*event),
    {
        proof {
            use_type_invariant(&*self);
        }
        match event {
            PointerEvent::Move { x, y } => {
                self.is_hovering = self.rect.contains_point(*x, *y);
                self.is_hovering
            },
            PointerEvent::Down { .. } => {
                if self.is_hovering {
                    self.curr_state = !self.curr_state;
                }
                self.is_hovering
            },
            PointerEvent::Other => false,
        }
    }

    /// Whether the box is ticked.
    pub fn is_checked(&self) -> (checked: bool)
        ensures
            checked == self@.checked,
    {
        self.curr_state
    }
}

/// A labelled row of checkboxes.
pub struct CheckBoxGroup<'a> {
    components: Vec<CheckBox<'a>>,
    label: &'a str,
    label_pos: (i32, i32),
}

/// What a group is, to its contracts.
pub struct CheckBoxGroupView<'a> {
    /// The boxes, from left to right.
    pub boxes: Seq<CheckBoxView<'a>>,
    /// The label above the boxes.
    pub label: &'a str,
    /// Where the label starts.
    pub label_pos: (i32, i32),
}

/// The left edge of box `index` in a row that starts at `x`: each box is
/// followed by its text, whose width is given with it, a margin, room of the
/// box's own size, and a gap.
pub open spec fn box_left(x: int, box_size: int, texts: Seq<(&str, i32)>, index: nat) -> int
    decreases index,
{
    if index == 0 {
        x
    } else {
        box_left(x, box_size, texts, (index - 1) as nat) + texts[index - 1].1 + MARGIN + box_size
            + GROUP_GAP
    }
}

/// The top edge of the boxes of a group whose label starts at height `y` and
/// is `line_height` high.
pub open spec fn box_top(y: int, line_height: int) -> int {
    y + line_height + MARGIN
}

/// Whether every box of the row gets a place that a pixel coordinate can
/// hold.
pub open spec fn layout_fits(
    x: int,
    y: int,
    box_size: int,
    texts: Seq<(&str, i32)>,
    line_height: int,
) -> bool {
    &&& i32::MIN <= box_top(y, line_height) <= i32::MAX
    &&& forall|i: nat|
        i < texts.len() ==> i32::MIN <= #[trigger] box_left(x, box_size, texts, i) <= i32::MAX
}

/// The first box at or after `from` that claims `event`, or the number of
/// boxes if none does.
pub open spec fn first_claim(boxes: Seq<CheckBoxView>, event: PointerEvent, from: int) -> int
    decreases boxes.len() - from,
{
    if from < 0 || from >= boxes.len() {
        boxes.len() as int
    } else if boxes[from].claims(event) {
        from
    } else {
        first_claim(boxes, event, from + 1)
    }
}

/// What is painted for the first `count` boxes.
pub open spec fn boxes_frame<'a>(boxes: Seq<CheckBoxView<'a>>, count: nat) -> Seq<DrawOp<'a>>
    decreases count,
{
    if count == 0 {
        Seq::empty()
    } else {
        boxes_frame(boxes, (count - 1) as nat) + boxes[count - 1].frame()
    }
}

/// The first claim is the leftmost: no box from `from` up to it claims the
/// event, and it claims the event unless it is past the last box.
pub proof fn lemma_first_claim_is_leftmost(boxes: Seq<CheckBoxView>, event: PointerEvent, from: int)
    requires
        0 <= from <= boxes.len(),
    ensures
        from <= first_claim(boxes, event, from) <= boxes.len(),
        first_claim(boxes, event, from) < boxes.len() ==> boxes[first_claim(
            boxes,
            event,
            from,
        )].claims(event),
        forall|k: int| from <= k < first_claim(boxes, event, from) ==> !boxes[k].claims(event),
    decreases boxes.len() - from,
{
    if from < boxes.len() && !boxes[from].claims(event) {
        lemma_first_claim_is_leftmost(boxes, event, from + 1);
    }
}

impl<'a> CheckBoxGroupView<'a> {
    /// Whether some box claims `event`.
    pub open spec fn claims(self, event: PointerEvent) -> bool {
        first_claim(self.boxes, event, 0) < self.boxes.len()
    }

    /// The group after `event`. The boxes see the event from left to right,
    /// up to and including the first that claims it; the boxes right of that
    /// one do not see it.
    pub open spec fn after(self, event: PointerEvent) -> CheckBoxGroupView<'a> {
        CheckBoxGroupView {
            boxes: Seq::new(
                self.boxes.len(),
                |k: int|
                    if k <= first_claim(self.boxes, event, 0) {
                        self.boxes[k].after(event)
                    } else {
                        self.boxes[k]
                    },
            ),
            ..self
        }
    }

    /// The label, at its place.
    pub open spec fn label_op(self) -> DrawOp<'a> {
        DrawOp::Text {
            color: LABEL_COLOR,
            x: self.label_pos.0 as i64,
            y: self.label_pos.1 as i64,
            text: self.label,
        }
    }

    /// What is painted for the group: the label, then the boxes from left to
    /// right.
    pub open spec fn frame(self) -> Seq<DrawOp<'a>> {
        seq![self.label_op()] + boxes_frame(self.boxes, self.boxes.len())
    }

    /// Where a widget below the group may start: below the outline of the
    /// last box and a gap, or at 0 for a group without boxes.
    pub open spec fn next_y(self) -> int {
        if self.boxes.len() == 0 {
            0
        } else {
            self.boxes.last().rect.y + self.boxes.last().rect.height + BORDER_WIDTH + NEXT_ROW_GAP
        }
    }

    /// The ticks of a group of exactly two boxes; for any other group, two
    /// times `false`.
    pub open spec fn values(self) -> (bool, bool) {
        if self.boxes.len() == 2 {
            (self.boxes[0].checked, self.boxes[1].checked)
        } else {
            (false, false)
        }
    }
}

impl<'a> View for CheckBoxGroup<'a> {
    type V = CheckBoxGroupView<'a>;

    closed spec fn view(&self) -> CheckBoxGroupView<'a> {
        CheckBoxGroupView {
            boxes: Seq::new(self.components@.len(), |i: int| self.components@[i]@),
            label: self.label,
            label_pos: self.label_pos,
        }
    }
}

impl<'a> CheckBoxGroup<'a> {
    /// Tests whether a row of boxes fits: whether `new` may be called with
    /// these arguments.
    pub fn fits(x: i32, y: i32, box_size: i32, texts: &Vec<(&'a str, i32)>, line_height: i32) -> (ok:
        bool)
        ensures
            ok == layout_fits(x as int, y as int, box_size as int, texts@, line_height as int),
    {
        let top: i64 = y as i64 + line_height as i64 + MARGIN as i64;
        if top < i32::MIN as i64 || top > i32::MAX as i64 {
            return false;
        }
        let mut left: i64 = x as i64;
        let mut i: usize = 0;
        while i < texts.len()
            invariant
                i <= texts.len(),
                left == box_left(x as int, box_size as int, texts@, i as nat),
                i < texts.len() ==> i32::MIN <= left <= i32::MAX,
                forall|k: nat|
                    k < i ==> i32::MIN <= #[trigger] box_left(
                        x as int,
                        box_size as int,
                        texts@,
                        k,
                    ) <= i32::MAX,
            decreases texts.len() - i,
        {
            left = left + texts[i].1 as i64 + MARGIN as i64 + box_size as i64 + GROUP_GAP as i64;
            i = i + 1;
            if i < texts.len() && (left < i32::MIN as i64 || left > i32::MAX as i64) {
                assert(!(i32::MIN <= box_left(x as int, box_size as int, texts@, i as nat)
                    <= i32::MAX));
                return false;
            }
        }
        true
    }

    /// A group with its label at `(x, y)` and, one line and a margin below,
    /// one unchecked box of edge `box_size` for each text. Each text comes
    /// with its width in the font it will be written in, and `line_height` is
    /// that font's line height.
    pub fn new(
        label: &'a str,
        x: i32,
        y: i32,
        box_size: i32,
        texts: Vec<(&'a str, i32)>,
        line_height: i32,
    ) -> (group: CheckBoxGroup<'a>)
        requires
            box_size > 0,
            layout_fits(x as int, y as int, box_size as int, texts@, line_height as int),
        ensures
            group@.label == label,
            group@.label_pos == (x, y),
            group@.boxes.len() == texts.len(),
            forall|i: int|
                0 <= i < texts.len() ==> #[trigger] group@.boxes[i] == (CheckBoxView {
                    rect: Rect {
                        x: box_left(x as int, box_size as int, texts@, i as nat) as i32,
                        y: box_top(y as int, line_height as int) as i32,
                        width: box_size,
                        height: box_size,
                    },
                    text: texts[i].0,
                    checked: false,
                    hovering: false,
                }),
    {
        let top: i32 = (y as i64 + line_height as i64 + MARGIN as i64) as i32;
        let mut components: Vec<CheckBox<'a>> = Vec::new();
        let mut left: i64 = x as i64;
        let mut i: usize = 0;
        while i < texts.len()
            invariant
                i <= texts.len(),
                box_size > 0,
                top == box_top(y as int, line_height as int),
                layout_fits(x as int, y as int, box_size as int, texts@, line_height as int),
                left == box_left(x as int, box_size as int, texts@, i as nat),
                components@.len() == i,
                forall|k: int|
                    0 <= k < i ==> (#[trigger] components@[k])@ == (CheckBoxView {
                        rect: Rect {
                            x: box_left(x as int, box_size as int, texts@, k as nat) as i32,
                            y: top,
                            width: box_size,
                            height: box_size,
                        },
                        text: texts[k].0,
                        checked: false,
                        hovering: false,
                    }),
            decreases texts.len() - i,
        {
            assert(i32::MIN <= box_left(x as int, box_size as int, texts@, i as nat) <= i32::MAX);
            components.push(CheckBox::new(left as i32, top, box_size, texts[i].0));
            left = left + texts[i].1 as i64 + MARGIN as i64 + box_size as i64 + GROUP_GAP as i64;
            i = i + 1;
        }
        CheckBoxGroup { components, label, label_pos: (x, y) }
    }

    /// Lists what to paint for the group, in painting order.
    pub fn draw(&self) -> (ops: Vec<DrawOp<'a>>)
        ensures
            ops@ == self@.frame(),
    {
        let mut ops: Vec<DrawOp<'a>> = Vec::new();
        ops.push(
            DrawOp::Text {
                color: LABEL_COLOR,
                x: self.label_pos.0 as i64,
                y: self.label_pos.1 as i64,
                text: self.label,
            },
        );
        let mut i: usize = 0;
        while i < self.components.len()
            invariant
                i <= self.components.len(),
                ops@ == seq![self@.label_op()] + boxes_frame(self@.boxes, i as nat),
            decreases self.components.len() - i,
        {
            let mut part = self.components[i].draw();
            ops.append(&mut part);
            i = i + 1;
            assert(ops@ =~= seq![self@.label_op()] + boxes_frame(self@.boxes, i as nat));
        }
        ops
    }

    /// Hands one event to the boxes, from left to right, until one claims
    /// it, and says whether one did.
    pub fn event_listener(&mut self, event: &PointerEvent) -> (claimed: bool)
        ensures
            final(self)@ == old(self)@.after(*event),
            claimed == old(self)@.claims(*event),
    {
        let ghost before = self@;
        let mut i: usize = 0;
        while i < self.components.len()
            invariant
                i <= self.components.len(),
                before == old(self)@,
                self@.label == before.label,
                self@.label_pos == before.label_pos,
                self@.boxes.len() == before.boxes.len(),
                first_claim(before.boxes, *event, 0) == first_claim(before.boxes, *event, i as int),
                forall|k: int|
                    0 <= k < i ==> #[trigger] self@.boxes[k] == before.boxes[k].after(*event),
                forall|k: int|
                    i <= k < before.boxes.len() ==> #[trigger] self@.boxes[k] == before.boxes[k],
            decreases self.components.len() - i,
        {
            let ghost row = self@.boxes;
            assert(row[i as int] == before.boxes[i as int]);
            let claimed = self.components[i].event_listener(event);
            assert forall|k: int| 0 <= k < row.len() implies #[trigger] self@.boxes[k] == (if k
                == i {
                before.boxes[k].after(*event)
            } else {
                row[k]
            }) by {}
            assert(claimed == before.boxes[i as int].claims(*event));
            if claimed {
                assert(first_claim(before.boxes, *event, 0) == i);
                assert(self@.boxes =~= before.after(*event).boxes);
                return true;
            }
            i = i + 1;
        }
        assert(self@.boxes =~= before.after(*event).boxes);
        false
    }

    /// Where a widget below the group may start.
    pub fn get_next_y(&self) -> (y: i64)
        ensures
            y == self@.next_y(),
    {
        let n = self.components.len();
        if n == 0 {
            0
        } else {
            let last = &self.components[n - 1];
            proof {
                use_type_invariant(last);
            }
            last.rect.height as i64 + last.rect.y as i64 + BORDER_WIDTH as i64
                + NEXT_ROW_GAP as i64
        }
    }

    /// The ticks of the two boxes of a group of two.
    pub fn get_values(&mut self) -> (values: (bool, bool))
        ensures
            final(self)@ == old(self)@,
            values == old(self)@.values(),
    {
        if self.components.len() == 2 {
            (self.components[0].is_checked(), self.components[1].is_checked())
        } else {
            (false, false)
        }
    }
}

} // verus!

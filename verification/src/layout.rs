//! The immediate-mode layout engine: a stack of frames that turns a nesting
//! of widget calls into absolute positions. No widget names its own
//! position; each is placed behind the siblings that came before it.

use vstd::prelude::*;
use crate::coordinate::{Coordinate, Point};
use crate::input::Key;
use crate::text::string_from_chars;
use crate::text_field::TextField;

verus! {

/// The direction in which a frame places its children.
#[derive(Clone, Copy, Debug, PartialEq, Eq, Structural)]
pub enum Orientation {
    /// Children are placed one below another.
    Stacked,
    /// Children are placed side by side.
    Flowed,
}

impl Orientation {
    /// The unit step along the growth axis: `(0, 1)` for stacked frames,
    /// `(1, 0)` for flowed ones.
    pub open spec fn axis(self) -> Point {
        match self {
            Orientation::Stacked => Point { x: 0, y: 1 },
            Orientation::Flowed => Point { x: 1, y: 0 },
        }
    }

    pub fn growth_axis(self) -> (axis: Coordinate)
        ensures
            axis@ == self.axis(),
    {
        match self {
            Orientation::Stacked => Coordinate { x: 0, y: 1 },
            Orientation::Flowed => Coordinate { x: 1, y: 0 },
        }
    }
}

/// The larger of two integers.
pub open spec fn larger(a: int, b: int) -> int {
    if a >= b {
        a
    } else {
        b
    }
}

/// The extent of a frame of the given orientation after a child of size
/// `child` was placed in it: along the growth axis the sizes add up, across
/// it the largest child decides.
pub open spec fn extent_grown(orientation: Orientation, extent: Point, child: Point) -> Point {
    match orientation {
        Orientation::Stacked => Point { x: larger(extent.x, child.x), y: extent.y + child.y },
        Orientation::Flowed => Point { x: extent.x + child.x, y: larger(extent.y, child.y) },
    }
}

/// A frame only grows: whatever is placed in it, neither component of its
/// extent gets smaller.
pub proof fn lemma_extent_only_grows(orientation: Orientation, extent: Point, child: Point)
    requires
        child.x >= 0,
        child.y >= 0,
    ensures
        extent_grown(orientation, extent, child).x >= extent.x,
        extent_grown(orientation, extent, child).y >= extent.y,
{
}

/// The mathematical value of a [`LayoutFrame`].
pub ghost struct FrameModel {
    pub orientation: Orientation,
    pub origin: Point,
    pub extent: Point,
}

impl FrameModel {
    /// A frame at `origin` that holds nothing yet.
    pub open spec fn empty_at(origin: Point, orientation: Orientation) -> FrameModel {
        FrameModel { orientation, origin, extent: Point::zero() }
    }

    /// Where the next child goes: the origin moved along the growth axis by
    /// what the children so far take up.
    pub open spec fn next_position(self) -> Point {
        self.origin.plus(self.extent.times(self.orientation.axis()))
    }

    /// The frame after a child of size `child` was placed in it.
    pub open spec fn grown_by(self, child: Point) -> FrameModel {
        FrameModel {
            orientation: self.orientation,
            origin: self.origin,
            extent: extent_grown(self.orientation, self.extent, child),
        }
    }

    /// The far corner of the frame is representable.
    pub open spec fn fits(self) -> bool {
        &&& self.origin.fits()
        &&& self.extent.fits()
        &&& self.origin.plus(self.extent).fits()
    }
}

/// One entry of the nesting stack.
#[derive(Clone, Copy, Debug, PartialEq, Eq, Structural)]
pub struct LayoutFrame {
    pub orientation: Orientation,
    pub origin: Coordinate,
    pub extent: Coordinate,
}

impl View for LayoutFrame {
    type V = FrameModel;

    open spec fn view(&self) -> FrameModel {
        FrameModel { orientation: self.orientation, origin: self.origin@, extent: self.extent@ }
    }
}

/// The stack after `open`: the root frame alone.
pub open spec fn opened(origin: Point, orientation: Orientation) -> Seq<FrameModel> {
    seq![FrameModel::empty_at(origin, orientation)]
}

/// The stack after `push`: a new empty frame at the parent's next position.
pub open spec fn pushed(frames: Seq<FrameModel>, orientation: Orientation) -> Seq<FrameModel> {
    frames.push(FrameModel::empty_at(frames.last().next_position(), orientation))
}

/// The stack after a widget of size `size` was placed in the top frame.
pub open spec fn grown(frames: Seq<FrameModel>, size: Point) -> Seq<FrameModel> {
    frames.update(frames.len() - 1, frames.last().grown_by(size))
}

/// The stack after `pop`: the top frame is gone and its extent is folded
/// into the frame below, as if it were one widget of that size.
pub open spec fn popped(frames: Seq<FrameModel>) -> Seq<FrameModel> {
    grown(frames.drop_last(), frames.last().extent)
}

/// Every frame lies within the representable grid, and every frame but the
/// root starts where its parent will place its next child.
pub open spec fn well_formed(frames: Seq<FrameModel>) -> bool {
    &&& forall|i: int| 0 <= i < frames.len() ==> (#[trigger] frames[i]).fits()
    &&& forall|i: int|
        0 < i < frames.len() ==> (#[trigger] frames[i]).origin == frames[i - 1].next_position()
}

/// A parent can always take its child back: a child that started at the
/// parent's next position and stayed within the grid leaves the parent
/// within the grid when its extent is folded in.
pub proof fn lemma_fold_fits(parent: FrameModel, child: FrameModel)
    requires
        parent.fits(),
        child.fits(),
        child.origin == parent.next_position(),
    ensures
        parent.grown_by(child.extent).fits(),
{
    match parent.orientation {
        Orientation::Stacked => {
            assert(parent.extent.times(parent.orientation.axis()) == Point {
                x: 0,
                y: parent.extent.y,
            });
        },
        Orientation::Flowed => {
            assert(parent.extent.times(parent.orientation.axis()) == Point {
                x: parent.extent.x,
                y: 0,
            });
        },
    }
}

/// The top frame can take a widget of size `size` without leaving the
/// representable grid.
pub open spec fn has_room(frames: Seq<FrameModel>, size: Point) -> bool {
    frames.len() > 0 && frames.last().grown_by(size).fits()
}

/// The size that a label or a text field of the given width takes up: one
/// row of `width` cells.
pub open spec fn row_of(width: nat) -> Point {
    Point { x: width as int, y: 1 }
}

/// How a piece of text is painted.
#[derive(Clone, Copy, Debug, PartialEq, Eq, Structural)]
pub enum Color {
    Default,
    Black,
    Red,
    Green,
    Yellow,
    Blue,
    Magenta,
    Cyan,
    Gray,
    DarkGray,
    LightRed,
    LightGreen,
    LightYellow,
    LightBlue,
    LightMagenta,
    LightCyan,
    White,
    Rgb(u8, u8, u8),
}

#[derive(Clone, Copy, Debug, PartialEq, Eq, Structural)]
pub struct Style {
    pub foreground: Color,
    pub background: Color,
    pub bold: bool,
}

impl Style {
    /// Terminal defaults, not bold.
    pub fn plain() -> (style: Style)
        ensures
            style == (Style {
                foreground: Color::Default,
                background: Color::Default,
                bold: false,
            }),
    {
        Style { foreground: Color::Default, background: Color::Default, bold: false }
    }
}

/// The mathematical value of a [`DrawInstruction`].
pub ghost struct DrawModel {
    pub origin: Point,
    pub width: nat,
    pub text: Seq<char>,
    pub style: Style,
}

/// A request to the renderer: paint `text` at `origin`, clipped or padded to
/// `width` cells.
#[derive(Clone, Debug, PartialEq, Eq)]
pub struct DrawInstruction {
    pub origin: Coordinate,
    pub width: usize,
    pub text: String,
    pub style: Style,
}

impl View for DrawInstruction {
    type V = DrawModel;

    open spec fn view(&self) -> DrawModel {
        DrawModel {
            origin: self.origin@,
            width: self.width as nat,
            text: self.text@,
            style: self.style,
        }
    }
}

/// What drawing a text field asks of the renderer: the text, and one cell
/// to highlight as the cursor.
#[derive(Clone, Debug, PartialEq, Eq)]
pub struct FieldDraw {
    pub content: DrawInstruction,
    pub cursor_cell: Coordinate,
}

/// The nesting stack, innermost frame last. It is rebuilt for every frame
/// on screen: `open`, then widgets and nested `push` ... `pop` groups, then
/// `close`.
pub struct LayoutStack {
    frames: Vec<LayoutFrame>,
}

impl View for LayoutStack {
    type V = Seq<FrameModel>;

    closed spec fn view(&self) -> Seq<FrameModel> {
        self.frames@.map_values(|f: LayoutFrame| f@)
    }
}

impl LayoutStack {
    /// The invariant of the stack, see [`well_formed`].
    pub open spec fn wf(&self) -> bool {
        well_formed(self@)
    }

    /// A stack with no frame open.
    pub fn new() -> (stack: LayoutStack)
        ensures
            stack@.len() == 0,
            stack.wf(),
    {
        LayoutStack { frames: Vec::new() }
    }

    /// The number of open frames.
    pub fn depth(&self) -> (depth: usize)
        ensures
            depth == self@.len(),
    {
        self.frames.len()
    }

    /// The innermost open frame.
    pub fn top(&self) -> (frame: LayoutFrame)
        requires
            self@.len() > 0,
        ensures
            frame@ == self@.last(),
    {
        self.frames[self.frames.len() - 1]
    }

    /// Where the next widget will be placed.
    pub fn next_position(&self) -> (position: Coordinate)
        requires
            self.wf(),
            self@.len() > 0,
        ensures
            position@ == self@.last().next_position(),
    {
        let frame = self.top();
        let axis = frame.orientation.growth_axis();
        assert(frame@.fits());
        assert(frame@.extent.times(axis@) == match frame.orientation {
            Orientation::Stacked => Point { x: 0, y: frame@.extent.y },
            Orientation::Flowed => Point { x: frame@.extent.x, y: 0 },
        });
        frame.origin.add(frame.extent.multiply(axis))
    }

    /// Whether the top frame can take a row of `width` cells.
    pub fn has_room_for(&self, width: usize) -> (room: bool)
        requires
            self.wf(),
        ensures
            room == has_room(self@, row_of(width as nat)),
    {
        if self.frames.len() == 0 {
            return false;
        }
        let frame = self.top();
        assert(frame@.fits());
        match frame.orientation {
            // One more row below what is there, no wider than the grid.
            Orientation::Stacked => {
                let rows_left = usize::MAX - frame.origin.y - frame.extent.y;
                rows_left >= 1 && width <= usize::MAX - frame.origin.x
            },
            // `width` more cells behind what is there, at least one row high.
            Orientation::Flowed => {
                let cells_left = usize::MAX - frame.origin.x - frame.extent.x;
                width <= cells_left && frame.origin.y < usize::MAX
            },
        }
    }

    /// Opens the root frame.
    pub fn open(&mut self, origin: Coordinate, orientation: Orientation)
        requires
            old(self)@.len() == 0,
        ensures
            final(self)@ == opened(origin@, orientation),
            final(self).wf(),
    {
        self.frames.push(LayoutFrame { orientation, origin, extent: Coordinate { x: 0, y: 0 } });
        assert(self@ =~= opened(origin@, orientation));
    }

    /// Opens a nested frame where the parent would place its next child.
    pub fn push(&mut self, orientation: Orientation)
        requires
            old(self).wf(),
            old(self)@.len() > 0,
        ensures
            final(self)@ == pushed(old(self)@, orientation),
            final(self).wf(),
    {
        let origin = self.next_position();
        self.frames.push(LayoutFrame { orientation, origin, extent: Coordinate { x: 0, y: 0 } });
        assert(self@ =~= pushed(old(self)@, orientation));
    }

    /// Places a widget of size `size` in the top frame.
    fn grow(&mut self, size: Coordinate)
        requires
            old(self).wf(),
            has_room(old(self)@, size@),
        ensures
            final(self)@ == grown(old(self)@, size@),
            final(self).wf(),
    {
        let last = self.frames.len() - 1;
        let frame = self.frames[last];
        assert(frame@ == self@.last());
        let extent = match frame.orientation {
            Orientation::Stacked => Coordinate {
                x: if frame.extent.x >= size.x { frame.extent.x } else { size.x },
                y: frame.extent.y + size.y,
            },
            Orientation::Flowed => Coordinate {
                x: frame.extent.x + size.x,
                y: if frame.extent.y >= size.y { frame.extent.y } else { size.y },
            },
        };
        self.frames.set(
            last,
            LayoutFrame { orientation: frame.orientation, origin: frame.origin, extent },
        );
        assert(self@ =~= grown(old(self)@, size@));
        assert forall|i: int| 0 < i < self@.len() implies (#[trigger] self@[i]).origin
            == self@[i - 1].next_position() by {
            assert(old(self)@[i].origin == old(self)@[i - 1].next_position());
        }
    }

    /// Closes the top frame and hands its extent to the frame below.
    pub fn pop(&mut self)
        requires
            old(self).wf(),
            old(self)@.len() >= 2,
        ensures
            final(self)@ == popped(old(self)@),
            final(self).wf(),
    {
        let child = self.top();
        let ghost before = self@;
        self.frames.pop();
        assert(self@ =~= before.drop_last());
        proof {
            let parent = before[before.len() - 2];
            assert(child@ == before[before.len() - 1]);
            assert(self@.last() == parent);
            lemma_fold_fits(parent, child@);
            assert(well_formed(self@));
        }
        self.grow(child.extent);
    }

    /// Closes the root frame and returns it, with the extent of everything
    /// that was laid out in it.
    pub fn close(&mut self) -> (root: LayoutFrame)
        requires
            old(self)@.len() == 1,
        ensures
            final(self)@.len() == 0,
            final(self).wf(),
            root@ == old(self)@[0],
    {
        let root = self.top();
        self.frames.pop();
        root
    }

    /// Places a label of `declared_width` cells at the next position. The
    /// width is the caller's word, not measured from `text`.
    pub fn label(&mut self, text: String, declared_width: usize, style: Style) -> (draw:
        DrawInstruction)
        requires
            old(self).wf(),
            has_room(old(self)@, row_of(declared_width as nat)),
        ensures
            final(self)@ == grown(old(self)@, row_of(declared_width as nat)),
            final(self).wf(),
            draw@ == (DrawModel {
                origin: old(self)@.last().next_position(),
                width: declared_width as nat,
                text: text@,
                style,
            }),
    {
        let origin = self.next_position();
        self.grow(Coordinate { x: declared_width, y: 1 });
        DrawInstruction { origin, width: declared_width, text, style }
    }

    /// Places `field` like a label of `declared_width` cells and marks the
    /// cell of its cursor. The field is only read.
    pub fn show_field(&mut self, field: &TextField, declared_width: usize, style: Style) -> (draw:
        FieldDraw)
        requires
            old(self).wf(),
            has_room(old(self)@, row_of(declared_width as nat)),
            old(self)@.last().next_position().x + field@.cursor <= usize::MAX,
        ensures
            final(self)@ == grown(old(self)@, row_of(declared_width as nat)),
            final(self).wf(),
            draw.content@ == (DrawModel {
                origin: old(self)@.last().next_position(),
                width: declared_width as nat,
                text: field@.buffer,
                style,
            }),
            draw.cursor_cell@ == old(self)@.last().next_position().plus(
                Point { x: field@.cursor as int, y: 0 },
            ),
    {
        let origin = self.next_position();
        let text = string_from_chars(&field.buffer);
        self.grow(Coordinate { x: declared_width, y: 1 });
        let cursor_cell = Coordinate { x: origin.x + field.cursor, y: origin.y };
        FieldDraw {
            content: DrawInstruction { origin, width: declared_width, text, style },
            cursor_cell,
        }
    }

    /// Applies the pending key, if any, to `field`, then places the field
    /// like a label of `declared_width` cells and marks the cell of its
    /// cursor.
    pub fn edit_field(
        &mut self,
        field: &mut TextField,
        declared_width: usize,
        pending_input: Option<Key>,
        style: Style,
    ) -> (draw: FieldDraw)
        requires
            old(self).wf(),
            has_room(old(self)@, row_of(declared_width as nat)),
            old(self)@.last().next_position().x + old(field)@.buffer.len() + 1 <= usize::MAX,
            old(self)@.last().next_position().x + old(field)@.cursor <= usize::MAX,
        ensures
            final(self)@ == grown(old(self)@, row_of(declared_width as nat)),
            final(self).wf(),
            final(field)@ == match pending_input {
                Some(key) => old(field)@.edited(key),
                None => old(field)@,
            },
            draw.content@ == (DrawModel {
                origin: old(self)@.last().next_position(),
                width: declared_width as nat,
                text: final(field)@.buffer,
                style,
            }),
            draw.cursor_cell@ == old(self)@.last().next_position().plus(
                Point { x: final(field)@.cursor as int, y: 0 },
            ),
    {
        match pending_input {
            Some(key) => {
                field.apply(key);
            },
            None => {},
        }
        self.show_field(field, declared_width, style)
    }
}

} // verus!

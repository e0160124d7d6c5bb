//! What a balanced run of layout calls computes, stated over the tree of
//! widgets that the run walks.

use vstd::prelude::*;
use crate::coordinate::Point;
use crate::layout::{extent_grown, grown, opened, popped, pushed, row_of, FrameModel, Orientation};

verus! {

/// The nesting of one frame's worth of layout calls: a leaf is a label or a
/// text field of some declared width, a group is a `push`, the calls for its
/// children in order, and the matching `pop`.
pub ghost enum Widget {
    Leaf { width: nat },
    Group { orientation: Orientation, children: Seq<Widget> },
}

/// The size of a widget, computed from the tree alone: a leaf is one row of
/// its width, a group is the union of its children under its orientation.
pub open spec fn extent_of(widget: Widget) -> Point
    decreases widget,
{
    match widget {
        Widget::Leaf { width } => row_of(width),
        Widget::Group { orientation, children } => union_of(orientation, children),
    }
}

/// The union of the extents of `children` placed in a frame of the given
/// orientation, first to last.
pub open spec fn union_of(orientation: Orientation, children: Seq<Widget>) -> Point
    decreases children,
{
    if children.len() == 0 {
        Point::zero()
    } else {
        extent_grown(
            orientation,
            union_of(orientation, children.drop_last()),
            extent_of(children.last()),
        )
    }
}

/// The stack after the calls for `widget` were made on `frames`.
pub open spec fn laid_out(frames: Seq<FrameModel>, widget: Widget) -> Seq<FrameModel>
    decreases widget,
{
    match widget {
        Widget::Leaf { width } => grown(frames, row_of(width)),
        Widget::Group { orientation, children } => popped(
            laid_out_all(pushed(frames, orientation), children),
        ),
    }
}

/// The stack after the calls for each of `children`, in order, were made on
/// `frames`.
pub open spec fn laid_out_all(frames: Seq<FrameModel>, children: Seq<Widget>) -> Seq<FrameModel>
    decreases children,
{
    if children.len() == 0 {
        frames
    } else {
        laid_out(laid_out_all(frames, children.drop_last()), children.last())
    }
}

/// `frames` with the extent of its top frame replaced.
pub open spec fn with_top_extent(frames: Seq<FrameModel>, extent: Point) -> Seq<FrameModel> {
    frames.update(
        frames.len() - 1,
        FrameModel {
            orientation: frames.last().orientation,
            origin: frames.last().origin,
            extent,
        },
    )
}

/// To the stack, the calls for a whole widget are one widget call of the
/// size that the tree gives: they grow the top frame by `extent_of(widget)`
/// and leave every other frame as it was.
pub proof fn lemma_layout_grows_by_extent(frames: Seq<FrameModel>, widget: Widget)
    requires
        frames.len() > 0,
    ensures
        laid_out(frames, widget) == grown(frames, extent_of(widget)),
    decreases widget, 1int,
{
    match widget {
        Widget::Leaf { width } => {},
        Widget::Group { orientation, children } => {
            let inside = pushed(frames, orientation);
            lemma_children_grow_to_union(inside, children);
            let done = laid_out_all(inside, children);
            assert(done.drop_last() =~= frames);
            assert(done.last().extent == union_of(orientation, children));
        },
    }
}

/// The calls for a run of children in a fresh frame leave that frame with
/// the union of their extents, and the frames below untouched.
pub proof fn lemma_children_grow_to_union(frames: Seq<FrameModel>, children: Seq<Widget>)
    requires
        frames.len() > 0,
        frames.last().extent == Point::zero(),
    ensures
        laid_out_all(frames, children) == with_top_extent(
            frames,
            union_of(frames.last().orientation, children),
        ),
    decreases children, 0int,
{
    if children.len() == 0 {
        assert(with_top_extent(frames, Point::zero()) =~= frames);
    } else {
        lemma_children_grow_to_union(frames, children.drop_last());
        let before = laid_out_all(frames, children.drop_last());
        lemma_layout_grows_by_extent(before, children.last());
        assert(grown(before, extent_of(children.last())) =~= with_top_extent(
            frames,
            union_of(frames.last().orientation, children),
        ));
    }
}

/// Between `open` and `close`, whatever balanced run of `push`, `pop` and
/// widget calls is made, the root ends with the extent computed recursively
/// from the widgets, and nothing else is left on the stack.
pub proof fn lemma_root_extent_is_union(
    origin: Point,
    orientation: Orientation,
    children: Seq<Widget>,
)
    ensures
        laid_out_all(opened(origin, orientation), children) == seq![
            FrameModel { orientation, origin, extent: union_of(orientation, children) },
        ],
{
    let root = opened(origin, orientation);
    lemma_children_grow_to_union(root, children);
    assert(with_top_extent(root, union_of(orientation, children)) =~= seq![
        FrameModel { orientation, origin, extent: union_of(orientation, children) },
    ]);
}

} // verus!

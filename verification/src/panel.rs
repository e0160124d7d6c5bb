//! What the browser screen shows: the visible rows of the list and the two
//! captioned text fields, as requests to the renderer.

use vstd::prelude::*;
use vstd::string::StringExecFns;
use crate::app::{App, AppMode, Rgb};
use crate::app_model::AppModel;
use crate::coordinate::{Coordinate, Point};
use crate::layout::{
    row_of, Color, DrawInstruction, DrawModel, FieldDraw, FrameModel, LayoutStack, Orientation,
    Style,
};
use crate::text_field::{TextField, TextModel};

verus! {

/// How a row of the list is painted: white; on dark gray and bold under
/// the selection; in its assigned colour once the file is selected for
/// plotting.
pub open spec fn row_style(highlighted: bool, marked: bool, color: Option<Rgb>) -> Style {
    Style {
        foreground: match color {
            Some(rgb) => if marked {
                Color::Rgb(rgb.r, rgb.g, rgb.b)
            } else {
                Color::White
            },
            None => Color::White,
        },
        background: if highlighted {
            Color::DarkGray
        } else {
            Color::Default
        },
        bold: highlighted,
    }
}

/// How the divider between the panes is painted: light red while it is
/// being dragged, dark gray else.
pub open spec fn divider_style(resizing: bool) -> Style {
    Style {
        foreground: Color::Default,
        background: if resizing {
            Color::LightRed
        } else {
            Color::DarkGray
        },
        bold: false,
    }
}

/// One visible row of the list.
#[derive(Clone, Copy, Debug, PartialEq, Eq, Structural)]
pub struct ListRow {
    /// The position among the matches.
    pub position: usize,
    /// The index of the file in the source.
    pub source_index: usize,
    /// Whether the file is selected for plotting.
    pub marked: bool,
    /// Whether the row is under the selection.
    pub highlighted: bool,
    pub style: Style,
}

/// A caption and the text field behind it, laid out in one row.
#[derive(Clone, Debug, PartialEq, Eq)]
pub struct CaptionedField {
    pub caption: DrawInstruction,
    pub field: FieldDraw,
}

/// The width of the caption of the filter bar.
pub const SEARCH_CAPTION_WIDTH: usize = 8;

/// The width of the caption of the output name.
pub const NAME_CAPTION_WIDTH: usize = 17;

/// What drawing a caption of `caption_width` cells and a field side by side
/// in a row of `width` cells at `origin` asks of the renderer: the caption
/// at `origin`, the field behind it in the rest of the row, the cursor cell
/// as far into the field as the cursor is into the text.
pub open spec fn captioned_field_drawn(
    origin: Point,
    width: nat,
    caption: Seq<char>,
    caption_width: nat,
    caption_style: Style,
    field: TextModel,
    field_style: Style,
    drawn: CaptionedField,
) -> bool {
    let field_origin = Point { x: origin.x + caption_width, y: origin.y };
    &&& drawn.caption@ == (DrawModel {
        origin,
        width: caption_width,
        text: caption,
        style: caption_style,
    })
    &&& drawn.field.content@ == (DrawModel {
        origin: field_origin,
        width: if width >= caption_width {
            (width - caption_width) as nat
        } else {
            0
        },
        text: field.buffer,
        style: field_style,
    })
    &&& drawn.field.cursor_cell@ == (Point { x: field_origin.x + field.cursor, y: origin.y })
}

/// Whether a captioned field of these measures lies within the
/// representable grid, cursor cell included.
pub open spec fn captioned_field_fits(
    origin: Point,
    width: nat,
    caption_width: nat,
    field: TextModel,
) -> bool {
    &&& origin.x + caption_width + field.cursor <= usize::MAX
    &&& origin.x + caption_width + (if width >= caption_width {
        width - caption_width
    } else {
        0
    }) <= usize::MAX
    &&& origin.y + 1 <= usize::MAX
}

/// The row of the list at `position` among the matches.
pub open spec fn row_at(app: AppModel, position: int) -> ListRow {
    let source_index = app.list.matches[position];
    let highlighted = position == app.list.selection;
    ListRow {
        position: position as usize,
        source_index: source_index as usize,
        marked: app.marked[source_index],
        highlighted,
        style: row_style(highlighted, app.marked[source_index], app.colors[source_index]),
    }
}

impl App {
    /// The rows of the list that the viewport shows, top to bottom.
    pub fn visible_rows(&self) -> (rows: Vec<ListRow>)
        requires
            self.wf(),
        ensures
            rows@.len() == self@.list.visible_end() - self@.list.visible_start(),
            forall|k: int|
                0 <= k < rows@.len() ==> #[trigger] rows@[k] == row_at(
                    self@,
                    self@.list.visible_start() + k,
                ),
    {
        let (start, end) = self.list.visible_range();
        let selection = self.list.selection();
        let mut rows: Vec<ListRow> = Vec::new();
        let mut position = start;
        while position < end
            invariant
                self.wf(),
                start <= position <= end,
                end <= self@.list.matches.len(),
                selection == self@.list.selection,
                rows@.len() == position - start,
                forall|k: int|
                    0 <= k < rows@.len() ==> #[trigger] rows@[k] == row_at(self@, start + k),
            decreases end - position,
        {
            let source_index = self.list.source_index(position);
            assert(0 <= self@.list.matches[position as int] < self@.list.source_len);
            let marked = self.selected_files_status[source_index];
            let highlighted = position == selection;
            let style = paint_row(highlighted, marked, self.assigned_plot_colors[source_index]);
            rows.push(ListRow { position, source_index, marked, highlighted, style });
            position = position + 1;
        }
        rows
    }

    /// Lays out the filter bar in a row of `width` cells at `origin`: the
    /// caption, then the pattern with its cursor. There is no bar outside
    /// filtering mode, and none where the row would leave the
    /// representable grid.
    pub fn draw_search_bar(&self, origin: Coordinate, width: usize) -> (bar: Option<CaptionedField>)
        ensures
            bar is Some <==> self@.mode == AppMode::Searching && captioned_field_fits(
                origin@,
                width as nat,
                SEARCH_CAPTION_WIDTH as nat,
                self@.search_query,
            ),
            bar matches Some(drawn) ==> captioned_field_drawn(
                origin@,
                width as nat,
                "Search:"@,
                SEARCH_CAPTION_WIDTH as nat,
                search_caption_style(),
                self@.search_query,
                search_field_style(),
                drawn,
            ),
    {
        if self.current_mode != AppMode::Searching {
            return None;
        }
        draw_captioned_field(
            origin,
            width,
            "Search:",
            SEARCH_CAPTION_WIDTH,
            Style { foreground: Color::LightCyan, background: Color::Default, bold: false },
            &self.search_query,
            Style { foreground: Color::Yellow, background: Color::Default, bold: false },
        )
    }

    /// Lays out the output name in a row of `width` cells at `origin`: the
    /// caption, then the name, on blue while it is being edited. There is
    /// none where the row would leave the representable grid.
    pub fn draw_output_name(&self, origin: Coordinate, width: usize) -> (row: Option<
        CaptionedField,
    >)
        ensures
            row is Some <==> captioned_field_fits(
                origin@,
                width as nat,
                NAME_CAPTION_WIDTH as nat,
                self@.output_name,
            ),
            row matches Some(drawn) ==> captioned_field_drawn(
                origin@,
                width as nat,
                "Output Filename:"@,
                NAME_CAPTION_WIDTH as nat,
                Style { foreground: Color::Default, background: Color::Default, bold: false },
                self@.output_name,
                name_field_style(self@.mode),
                drawn,
            ),
    {
        let field_style = if self.current_mode == AppMode::EditingFilename {
            Style { foreground: Color::White, background: Color::Blue, bold: false }
        } else {
            Style { foreground: Color::White, background: Color::Default, bold: false }
        };
        draw_captioned_field(
            origin,
            width,
            "Output Filename:",
            NAME_CAPTION_WIDTH,
            Style::plain(),
            &self.output_filename,
            field_style,
        )
    }
}

/// The style of the caption of the filter bar.
pub open spec fn search_caption_style() -> Style {
    Style { foreground: Color::LightCyan, background: Color::Default, bold: false }
}

/// The style of the pattern in the filter bar.
pub open spec fn search_field_style() -> Style {
    Style { foreground: Color::Yellow, background: Color::Default, bold: false }
}

/// The style of the output name: white, on blue while it is being edited.
pub open spec fn name_field_style(mode: AppMode) -> Style {
    Style {
        foreground: Color::White,
        background: if mode == AppMode::EditingFilename {
            Color::Blue
        } else {
            Color::Default
        },
        bold: false,
    }
}

/// Computes [`divider_style`].
pub fn paint_divider(resizing: bool) -> (style: Style)
    ensures
        style == divider_style(resizing),
{
    let background = if resizing {
        Color::LightRed
    } else {
        Color::DarkGray
    };
    Style { foreground: Color::Default, background, bold: false }
}

/// Computes [`row_style`].
pub fn paint_row(highlighted: bool, marked: bool, color: Option<Rgb>) -> (style: Style)
    ensures
        style == row_style(highlighted, marked, color),
{
    let foreground = match color {
        Some(rgb) => if marked {
            Color::Rgb(rgb.r, rgb.g, rgb.b)
        } else {
            Color::White
        },
        None => Color::White,
    };
    let background = if highlighted {
        Color::DarkGray
    } else {
        Color::Default
    };
    Style { foreground, background, bold: highlighted }
}

/// Lays out a caption of `caption_width` cells and a text field side by
/// side in a row of `width` cells at `origin`, on a layout stack of its
/// own. Returns nothing where the row, or the cell of the cursor, would
/// leave the representable grid.
pub fn draw_captioned_field(
    origin: Coordinate,
    width: usize,
    caption: &str,
    caption_width: usize,
    caption_style: Style,
    field: &TextField,
    field_style: Style,
) -> (row: Option<CaptionedField>)
    ensures
        row is Some <==> captioned_field_fits(
            origin@,
            width as nat,
            caption_width as nat,
            field@,
        ),
        row matches Some(drawn) ==> captioned_field_drawn(
            origin@,
            width as nat,
            caption@,
            caption_width as nat,
            caption_style,
            field@,
            field_style,
            drawn,
        ),
{
    let field_width = if width >= caption_width {
        width - caption_width
    } else {
        0
    };
    if origin.y == usize::MAX || caption_width > usize::MAX - origin.x {
        return None;
    }
    let field_x = origin.x + caption_width;
    if field.cursor > usize::MAX - field_x || field_width > usize::MAX - field_x {
        return None;
    }
    let ghost field_origin = Point { x: origin@.x + caption_width, y: origin@.y };
    let mut stack = LayoutStack::new();
    stack.open(origin, Orientation::Flowed);
    proof {
        let root = FrameModel::empty_at(origin@, Orientation::Flowed);
        assert(stack@.last() == root);
        assert(root.extent.times(Orientation::Flowed.axis()) == Point::zero());
        assert(root.next_position() == origin@);
    }
    let caption_draw = stack.label(String::from_str(caption), caption_width, caption_style);
    assert(caption_draw@.origin == origin@);
    proof {
        let top = FrameModel::empty_at(origin@, Orientation::Flowed).grown_by(
            row_of(caption_width as nat),
        );
        assert(stack@.last() == top);
        assert(top.extent == Point { x: caption_width as int, y: 1 });
        assert(top.extent.times(Orientation::Flowed.axis()) == Point {
            x: caption_width as int,
            y: 0,
        });
        assert(top.next_position() == field_origin);
    }
    let field_draw = stack.show_field(field, field_width, field_style);
    assert(field_draw.content@.origin == field_origin);
    assert(field_draw.cursor_cell@ == Point { x: field_origin.x + field@.cursor, y: origin@.y });
    stack.close();
    Some(CaptionedField { caption: caption_draw, field: field_draw })
}

} // verus!

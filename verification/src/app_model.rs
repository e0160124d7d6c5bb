//! The mathematical value of the application state, and what every
//! command, frame and event makes of it.

use vstd::prelude::*;
use crate::app::{
    palette, AppMode, CurrentScreen, Flow, Notification, Rgb, CHROME_ROWS, MAX_PANE_PERCENT,
    MIN_PANE_PERCENT, PALETTE_LEN,
};
use crate::command::{binding, layer_of, Command, GeometryKind, LayerKind};
use crate::event::{Event, PointerEvent};
use crate::input::Key;
use crate::list_view::ListModel;
use crate::text_field::TextModel;

verus! {

/// The number of `true` entries.
pub open spec fn count_true(flags: Seq<bool>) -> nat
    decreases flags.len(),
{
    if flags.len() == 0 {
        0
    } else {
        count_true(flags.drop_last()) + if flags.last() {
            1nat
        } else {
            0nat
        }
    }
}

/// The name ends with one of the image suffixes that the plotter writes.
pub open spec fn has_accepted_suffix(name: Seq<char>) -> bool {
    ||| ".png"@.is_suffix_of(name)
    ||| ".jpg"@.is_suffix_of(name)
    ||| ".jpeg"@.is_suffix_of(name)
    ||| ".bmp"@.is_suffix_of(name)
}

/// The rows left for the list on a terminal of `terminal_height` rows.
pub open spec fn viewport_rows(terminal_height: nat) -> nat {
    if terminal_height >= CHROME_ROWS {
        (terminal_height - CHROME_ROWS) as nat
    } else {
        0
    }
}

/// `percent` held to the range that the left pane may take.
pub open spec fn clamped_percent(percent: nat) -> nat {
    if percent < MIN_PANE_PERCENT {
        MIN_PANE_PERCENT as nat
    } else if percent > MAX_PANE_PERCENT {
        MAX_PANE_PERCENT as nat
    } else {
        percent
    }
}

/// The mathematical value of an [`App`].
#[verifier::ext_equal]
pub ghost struct AppModel {
    pub screen: CurrentScreen,
    pub mode: AppMode,
    pub files: Seq<Seq<char>>,
    pub list: ListModel,
    pub marked: Seq<bool>,
    pub colors: Seq<Option<Rgb>>,
    pub next_color: nat,
    pub plot_points: bool,
    pub plot_lines: bool,
    pub plot_polygons: bool,
    pub output_name: TextModel,
    pub previous_output_name: Seq<char>,
    pub search_query: TextModel,
    pub previous_search_query: Seq<char>,
    pub metadata_cached: Seq<bool>,
    pub notification: Notification,
    pub left_pane_percent: nat,
    pub resizing: bool,
}

impl AppModel {
    /// The per-file tables are as long as the list of files, the list view
    /// is over those files, and the palette index and the pane width are in
    /// range.
    pub open spec fn wf(self) -> bool {
        &&& self.list.wf()
        &&& self.list.source_len == self.files.len()
        &&& self.marked.len() == self.files.len()
        &&& self.colors.len() == self.files.len()
        &&& self.metadata_cached.len() == self.files.len()
        &&& self.next_color < PALETTE_LEN
        &&& MIN_PANE_PERCENT <= self.left_pane_percent <= MAX_PANE_PERCENT
    }

    /// The state a session starts in, before any file is known.
    pub open spec fn initial() -> AppModel {
        AppModel {
            screen: CurrentScreen::GeoJsonMapper,
            mode: AppMode::Navigation,
            files: Seq::empty(),
            list: ListModel::unfiltered(0),
            marked: Seq::empty(),
            colors: Seq::empty(),
            next_color: 0,
            plot_points: true,
            plot_lines: true,
            plot_polygons: true,
            output_name: TextModel { buffer: "combined_plot.png"@, cursor: 0 },
            previous_output_name: Seq::empty(),
            search_query: TextModel { buffer: Seq::empty(), cursor: 0 },
            previous_search_query: Seq::empty(),
            metadata_cached: Seq::empty(),
            notification: Notification::SelectFiles,
            left_pane_percent: 50,
            resizing: false,
        }
    }

    /// The state after the files to browse were set: nothing is selected,
    /// no colour is assigned, no metadata is cached, and the list holds
    /// every file with the first one selected. Nothing else changes: the
    /// scroll offset stays where it was until the next frame fits it, and
    /// so do the modes, the two text fields and their saved copies, the
    /// palette index, the layer flags, the notification and the panes.
    pub open spec fn with_files(self, files: Seq<Seq<char>>) -> AppModel {
        AppModel {
            files,
            list: self.list.reloaded(files.len()),
            marked: Seq::new(files.len(), |i: int| false),
            colors: Seq::new(files.len(), |i: int| None::<Rgb>),
            metadata_cached: Seq::new(files.len(), |i: int| false),
            ..self
        }
    }

    /// The same state with another notification.
    pub open spec fn notified(self, notification: Notification) -> AppModel {
        AppModel { notification, ..self }
    }

    /// The selection moved one match down.
    pub open spec fn moved_down(self) -> AppModel {
        AppModel { list: self.list.moved_down(), ..self }
    }

    /// The selection moved one match up.
    pub open spec fn moved_up(self) -> AppModel {
        AppModel { list: self.list.moved_up(), ..self }
    }

    /// The source index of the file under the selection.
    pub open spec fn current_file(self) -> int {
        self.list.matches[self.list.selection as int]
    }

    /// The file under the selection switched between selected and not. A
    /// file that becomes selected takes the next colour of the palette and
    /// moves the palette on; one that becomes deselected gives its colour
    /// up. With no match to select, only the notification changes.
    pub open spec fn toggled(self) -> AppModel {
        if self.list.matches.len() == 0 {
            self.notified(Notification::NothingToSelect)
        } else {
            let index = self.current_file();
            if self.marked[index] {
                AppModel {
                    marked: self.marked.update(index, false),
                    colors: self.colors.update(index, None),
                    notification: Notification::Deselected { index: index as usize },
                    ..self
                }
            } else {
                let color = palette(self.next_color as int);
                AppModel {
                    marked: self.marked.update(index, true),
                    colors: self.colors.update(index, Some(color)),
                    next_color: (self.next_color + 1) % (PALETTE_LEN as nat),
                    notification: Notification::Selected { index: index as usize, color },
                    ..self
                }
            }
        }
    }

    /// Plotting was asked for: with files selected the notification counts
    /// them, with none it says so.
    pub open spec fn plot_requested(self) -> AppModel {
        let count = count_true(self.marked);
        if count > 0 {
            self.notified(Notification::Plotting { count: count as usize })
        } else {
            self.notified(Notification::NothingSelected)
        }
    }

    /// The palette moved on by one colour.
    pub open spec fn color_cycled(self) -> AppModel {
        let next = (self.next_color + 1) % (PALETTE_LEN as nat);
        AppModel {
            next_color: next,
            notification: Notification::NextColor { color: palette(next as int) },
            ..self
        }
    }

    /// Editing the output name began: the name as it stands is kept for a
    /// later revert.
    pub open spec fn editing_started(self) -> AppModel {
        AppModel {
            mode: AppMode::EditingFilename,
            previous_output_name: self.output_name.buffer,
            notification: Notification::EditingName,
            ..self
        }
    }

    /// The list with its matches computed anew for the pattern as it
    /// stands.
    pub open spec fn refiltered_list(self) -> ListModel {
        self.list.refiltered(self.files, self.search_query.buffer)
    }

    /// Filtering began: the pattern as it stands is kept for a later
    /// revert, and the matches are computed anew for it.
    pub open spec fn filtering_started(self) -> AppModel {
        AppModel {
            mode: AppMode::Searching,
            previous_search_query: self.search_query.buffer,
            list: self.refiltered_list(),
            notification: Notification::Filtering,
            ..self
        }
    }

    /// One kind of geometry switched between visible and hidden.
    pub open spec fn layer_toggled(self, kind: LayerKind) -> AppModel {
        match kind {
            LayerKind::Points => AppModel {
                plot_points: !self.plot_points,
                notification: Notification::LayerVisibility { kind, visible: !self.plot_points },
                ..self
            },
            LayerKind::Lines => AppModel {
                plot_lines: !self.plot_lines,
                notification: Notification::LayerVisibility { kind, visible: !self.plot_lines },
                ..self
            },
            LayerKind::Polygons => AppModel {
                plot_polygons: !self.plot_polygons,
                notification: Notification::LayerVisibility {
                    kind,
                    visible: !self.plot_polygons,
                },
                ..self
            },
        }
    }

    /// Whether the geometries of a layer are drawn.
    pub open spec fn layer_visible(self, layer: LayerKind) -> bool {
        match layer {
            LayerKind::Points => self.plot_points,
            LayerKind::Lines => self.plot_lines,
            LayerKind::Polygons => self.plot_polygons,
        }
    }

    /// Whether a geometry of this kind is drawn: it is where it belongs to
    /// a layer and that layer is visible.
    pub open spec fn draws(self, kind: GeometryKind) -> bool {
        match layer_of(kind) {
            Some(layer) => self.layer_visible(layer),
            None => false,
        }
    }

    /// The help screen came up.
    pub open spec fn help_shown(self) -> AppModel {
        AppModel {
            screen: CurrentScreen::Help,
            notification: Notification::ShowingHelp,
            ..self
        }
    }

    /// The output name put back to what it was before the edit. The cursor
    /// stays where it is; the next key clamps it.
    pub open spec fn name_reverted(self) -> AppModel {
        AppModel {
            output_name: TextModel {
                buffer: self.previous_output_name,
                cursor: self.output_name.cursor,
            },
            ..self
        }
    }

    /// The edited name was confirmed: an empty name and a name without an
    /// accepted suffix are put back to the name before the edit, any other
    /// name stays. Either way the mode returns to navigation.
    pub open spec fn name_confirmed(self) -> AppModel {
        let settled = if self.output_name.buffer.len() == 0 {
            self.name_reverted().notified(Notification::NameEmpty)
        } else if !has_accepted_suffix(self.output_name.buffer) {
            self.name_reverted().notified(Notification::NameSuffixRejected)
        } else {
            self.notified(Notification::NameAccepted)
        };
        AppModel { mode: AppMode::Navigation, ..settled }
    }

    /// Editing the name was cancelled: the name is put back and the mode
    /// returns to navigation.
    pub open spec fn name_cancelled(self) -> AppModel {
        AppModel {
            mode: AppMode::Navigation,
            notification: Notification::NameEditCancelled,
            ..self.name_reverted()
        }
    }

    /// The filter was confirmed: the pattern stays, the matches are
    /// computed anew for it, and the mode returns to navigation.
    pub open spec fn filter_confirmed(self) -> AppModel {
        let list = self.refiltered_list();
        AppModel {
            mode: AppMode::Navigation,
            list,
            notification: if self.search_query.buffer.len() == 0 {
                Notification::FilterCleared
            } else {
                Notification::FilterApplied { results: list.matches.len() as usize }
            },
            ..self
        }
    }

    /// Filtering was cancelled: the pattern is put back to what it was
    /// before filtering, the matches are computed anew for it, and the mode
    /// returns to navigation. The cursor stays where it is; the next key
    /// clamps it.
    pub open spec fn filter_cancelled(self) -> AppModel {
        AppModel {
            mode: AppMode::Navigation,
            search_query: TextModel {
                buffer: self.previous_search_query,
                cursor: self.search_query.cursor,
            },
            list: self.list.refiltered(self.files, self.previous_search_query),
            notification: Notification::FilterCancelled,
            ..self
        }
    }

    /// The state after `command` was carried out while browsing the list.
    pub open spec fn navigated(self, command: Command) -> AppModel {
        match command {
            Command::MoveDown => self.moved_down(),
            Command::MoveUp => self.moved_up(),
            Command::ToggleSelection => self.toggled(),
            Command::Confirm => self.plot_requested(),
            Command::CyclePaletteColor => self.color_cycled(),
            Command::StartEditingName => self.editing_started(),
            Command::StartFiltering => self.filtering_started(),
            Command::ToggleLayerKind(kind) => self.layer_toggled(kind),
            Command::Quit => self.notified(Notification::Exiting),
            Command::ShowHelp => self.help_shown(),
            _ => self,
        }
    }

    /// The state after `command` was carried out while the output name has
    /// the focus.
    pub open spec fn name_edited(self, command: Command) -> AppModel {
        match command {
            Command::Confirm => self.name_confirmed(),
            Command::CancelOrBack => self.name_cancelled(),
            Command::Edit(key) => AppModel { output_name: self.output_name.edited(key), ..self },
            _ => self,
        }
    }

    /// The state after `command` was carried out while the filter pattern
    /// has the focus.
    pub open spec fn filter_edited(self, command: Command) -> AppModel {
        match command {
            Command::Confirm => self.filter_confirmed(),
            Command::CancelOrBack => self.filter_cancelled(),
            Command::Edit(key) => AppModel { search_query: self.search_query.edited(key), ..self },
            _ => self,
        }
    }

    /// The state after `command` was carried out in the current mode. A
    /// command that the mode has no use for changes nothing.
    pub open spec fn executed(self, command: Command) -> AppModel {
        match self.mode {
            AppMode::Navigation => self.navigated(command),
            AppMode::EditingFilename => self.name_edited(command),
            AppMode::Searching => self.filter_edited(command),
        }
    }

    /// Whether the event loop ends with `command`: it does on quitting, and
    /// on asking for the plot with at least one file selected.
    pub open spec fn flow_of(self, command: Command) -> Flow {
        match self.mode {
            AppMode::Navigation => match command {
                Command::Quit => Flow::Leave,
                Command::Confirm => if count_true(self.marked) > 0 {
                    Flow::Leave
                } else {
                    Flow::Continue
                },
                _ => Flow::Continue,
            },
            _ => Flow::Continue,
        }
    }

    /// The state after a key press: the notification of the frame before
    /// is cleared, then the command bound to the key is carried out.
    pub open spec fn after_key(self, key: Key) -> AppModel {
        self.notified(Notification::Cleared).executed(binding(self.mode, key))
    }

    /// Whether the event loop ends with a key press.
    pub open spec fn flow_after_key(self, key: Key) -> Flow {
        self.flow_of(binding(self.mode, key))
    }

    /// Whether the matches are computed anew at the next frame: while the
    /// user is filtering, and whenever the pattern differs from the one of
    /// the last computation.
    pub open spec fn refilter_due(self) -> bool {
        self.mode == AppMode::Searching || self.search_query.buffer != self.list.pattern
    }

    /// The state after the step that opens every frame: the matches are
    /// computed anew where that is due, with the selection clamped onto
    /// them, and the scroll window is fitted to the rows that a terminal of
    /// `terminal_height` rows leaves for the list.
    pub open spec fn frame_prepared(self, terminal_height: nat) -> AppModel {
        let list = if self.refilter_due() {
            self.refiltered_list()
        } else {
            self.list
        };
        AppModel { list: list.scrolled(viewport_rows(terminal_height)), ..self }
    }

    /// The file whose metadata has to be loaded before the frame is drawn:
    /// the one under the selection, unless it was loaded before.
    pub open spec fn metadata_due(self) -> Option<int> {
        if self.list.matches.len() > 0 && !self.metadata_cached[self.current_file()] {
            Some(self.current_file())
        } else {
            None
        }
    }

    /// The state after the metadata of the file at `index` was loaded.
    pub open spec fn with_metadata(self, index: int) -> AppModel {
        if 0 <= index < self.metadata_cached.len() {
            AppModel { metadata_cached: self.metadata_cached.update(index, true), ..self }
        } else {
            self
        }
    }

    /// Whether a press in `column` takes hold of a divider that stands in
    /// `divider_column`: it does within one column of it.
    pub open spec fn grabs_divider(column: nat, divider_column: nat) -> bool {
        divider_column <= column + 1 && column <= divider_column + 1
    }

    /// The state after a pointer event. Only the browser screen has a
    /// divider: a press next to it starts a drag, a drag moves it within
    /// its limits, a release ends the drag.
    pub open spec fn pointer_handled(self, event: PointerEvent) -> AppModel {
        if self.screen != CurrentScreen::GeoJsonMapper {
            self
        } else {
            match event {
                PointerEvent::Pressed { column, divider_column } => if Self::grabs_divider(
                    column as nat,
                    divider_column as nat,
                ) {
                    AppModel { resizing: true, ..self }
                } else {
                    self
                },
                PointerEvent::Dragged { percent } => if self.resizing {
                    AppModel { left_pane_percent: clamped_percent(percent as nat), ..self }
                } else {
                    self
                },
                PointerEvent::Released => AppModel { resizing: false, ..self },
                PointerEvent::Other => self,
            }
        }
    }

    /// The state after an event of the queue.
    pub open spec fn after_event(self, event: Event) -> AppModel {
        match event {
            Event::Input(key) => self.after_key(key),
            Event::Mouse(pointer) => self.pointer_handled(pointer),
            Event::Tick => self,
            Event::TerminalEvent(_) => self,
        }
    }

    /// Whether the event loop ends with an event of the queue.
    pub open spec fn flow_after_event(self, event: Event) -> Flow {
        match event {
            Event::Input(key) => self.flow_after_key(key),
            _ => Flow::Continue,
        }
    }

    /// The state after one turn of the loop: an interrupt leaves it as it
    /// is, whatever event is waiting; else the event, if there is one, is
    /// handled.
    pub open spec fn stepped(self, interrupted: bool, event: Option<Event>) -> AppModel {
        if interrupted {
            self
        } else {
            match event {
                Some(e) => self.after_event(e),
                None => self,
            }
        }
    }

    /// Whether the loop goes on after one turn: an interrupt aborts it
    /// before the event is looked at.
    pub open spec fn flow_after_step(self, interrupted: bool, event: Option<Event>) -> Flow {
        if interrupted {
            Flow::Abort
        } else {
            match event {
                Some(e) => self.flow_after_event(e),
                None => Flow::Continue,
            }
        }
    }
}

/// Setting the files of a session that has just started gives the list
/// over those files with no filter set: every file a match, the first one
/// selected, nothing scrolled.
pub proof fn lemma_first_files_are_unfiltered(files: Seq<Seq<char>>)
    ensures
        AppModel::initial().with_files(files).list == ListModel::unfiltered(files.len()),
        AppModel::initial().with_files(files).wf(),
{
}

/// Setting the files leaves a well-formed state well-formed and does not
/// move the scroll offset, whatever the files are.
pub proof fn lemma_with_files_keeps_scroll(app: AppModel, files: Seq<Seq<char>>)
    requires
        app.wf(),
    ensures
        app.with_files(files).wf(),
        app.with_files(files).list.scroll == app.list.scroll,
        app.with_files(files).list.selection == 0,
        app.with_files(files).list.matches == Seq::new(files.len(), |i: int| i),
{
}

} // verus!

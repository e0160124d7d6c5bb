//! The application state and the transitions that keys, the pointer and
//! the frame clock make on it.

use vstd::prelude::*;
use crate::app_model::{count_true, AppModel};
use crate::command::{command_for, geometry_layer, Command, GeometryKind, LayerKind};
use crate::event::{Event, PointerEvent};
use crate::input::Key;
use crate::list_view::{indices_of_true, texts, FilteredListView};
use crate::text::{copy_chars, ends_with};
use crate::text_field::TextField;

verus! {

/// Which screen is shown.
#[derive(Clone, Copy, Debug, PartialEq, Eq, Structural)]
pub enum CurrentScreen {
    Main,
    Help,
    GeoJsonMapper,
}

/// What the user is doing, which decides what a key means.
#[derive(Clone, Copy, Debug, PartialEq, Eq, Structural)]
pub enum AppMode {
    /// Moving through the list and toggling items.
    Navigation,
    /// Typing the name of the output file.
    EditingFilename,
    /// Typing the filter pattern.
    Searching,
}

/// An event of the terminal itself.
#[derive(Clone, Copy, Debug, PartialEq, Eq, Structural)]
pub enum TerminalEvent {
    Resize,
}

/// A colour to plot a file in.
#[derive(Clone, Copy, Debug, PartialEq, Eq, Structural)]
pub struct Rgb {
    pub r: u8,
    pub g: u8,
    pub b: u8,
}

/// The number of colours that are handed out in turn.
pub const PALETTE_LEN: usize = 7;

/// The rows of a terminal that the list never gets: notification, spacers
/// and footer.
pub const CHROME_ROWS: u16 = 5;

/// The narrowest and the widest the left pane can be dragged, in percent.
pub const MIN_PANE_PERCENT: u16 = 10;

pub const MAX_PANE_PERCENT: u16 = 90;

/// The palette: black, red, green, blue, yellow, magenta, cyan.
pub open spec fn palette(index: int) -> Rgb {
    if index == 0 {
        Rgb { r: 0, g: 0, b: 0 }
    } else if index == 1 {
        Rgb { r: 255, g: 0, b: 0 }
    } else if index == 2 {
        Rgb { r: 0, g: 255, b: 0 }
    } else if index == 3 {
        Rgb { r: 0, g: 0, b: 255 }
    } else if index == 4 {
        Rgb { r: 255, g: 255, b: 0 }
    } else if index == 5 {
        Rgb { r: 255, g: 0, b: 255 }
    } else {
        Rgb { r: 0, g: 255, b: 255 }
    }
}

/// The colour at `index` of the palette.
pub fn palette_color(index: usize) -> (color: Rgb)
    requires
        index < PALETTE_LEN,
    ensures
        color == palette(index as int),
{
    match index {
        0 => Rgb { r: 0, g: 0, b: 0 },
        1 => Rgb { r: 255, g: 0, b: 0 },
        2 => Rgb { r: 0, g: 255, b: 0 },
        3 => Rgb { r: 0, g: 0, b: 255 },
        4 => Rgb { r: 255, g: 255, b: 0 },
        5 => Rgb { r: 255, g: 0, b: 255 },
        _ => Rgb { r: 0, g: 255, b: 255 },
    }
}

/// What the notification line tells the user. The wording is the
/// renderer's.
#[derive(Clone, Copy, Debug, PartialEq, Eq, Structural)]
pub enum Notification {
    /// Nothing to say.
    Cleared,
    /// The invitation to select files, shown at the start.
    SelectFiles,
    /// The source directory holds no file to show.
    NoFilesFound,
    /// The file at this source index was selected and given this colour.
    Selected { index: usize, color: Rgb },
    /// The file at this source index was deselected.
    Deselected { index: usize },
    /// The filter leaves nothing that could be selected.
    NothingToSelect,
    /// This many selected files go to the plotter.
    Plotting { count: usize },
    /// Plotting was asked for with no file selected.
    NothingSelected,
    /// The next file to be selected gets this colour.
    NextColor { color: Rgb },
    /// The output name is being edited.
    EditingName,
    /// The filter pattern is being edited.
    Filtering,
    /// A kind of geometry was switched on or off.
    LayerVisibility { kind: LayerKind, visible: bool },
    Exiting,
    ShowingHelp,
    /// The edited name was empty and was put back.
    NameEmpty,
    /// The edited name had no accepted suffix and was put back.
    NameSuffixRejected,
    /// The edited name was accepted.
    NameAccepted,
    /// Editing the name was cancelled.
    NameEditCancelled,
    /// The filter was confirmed with an empty pattern.
    FilterCleared,
    /// The filter was confirmed and leaves this many files.
    FilterApplied { results: usize },
    /// Filtering was cancelled.
    FilterCancelled,
}

/// Whether the event loop goes on.
#[derive(Clone, Copy, Debug, PartialEq, Eq, Structural)]
pub enum Flow {
    Continue,
    /// The loop ends and the selected files go to the plotter.
    Leave,
    /// The loop ends on an interrupt and nothing goes to the plotter.
    Abort,
}

/// The state of the browser.
pub struct App {
    pub current_screen: CurrentScreen,
    pub current_mode: AppMode,
    /// The names of the files to browse, in source order.
    pub geojson_files: Vec<String>,
    /// The filtered view of `geojson_files`: matches, selection and scroll.
    pub list: FilteredListView,
    /// For each file, whether it is selected for plotting.
    pub selected_files_status: Vec<bool>,
    /// For each file, the colour it was selected with.
    pub assigned_plot_colors: Vec<Option<Rgb>>,
    /// The palette index of the colour that the next selection gets.
    pub current_color_index_for_assignment: usize,
    pub plot_points: bool,
    pub plot_lines: bool,
    pub plot_polygons: bool,
    /// The name of the output file, as edited.
    pub output_filename: TextField,
    /// The name of the output file before the current edit.
    pub previous_output_filename: Vec<char>,
    /// The filter pattern, as edited.
    pub search_query: TextField,
    /// The filter pattern before the current filtering.
    pub previous_search_query: Vec<char>,
    /// For each file, whether its metadata has been loaded.
    pub metadata_cached: Vec<bool>,
    pub notification: Notification,
    /// The width of the left pane in percent of the terminal.
    pub left_pane_width_percentage: u16,
    /// Whether the divider between the panes is being dragged.
    pub is_resizing: bool,
}

impl View for App {
    type V = AppModel;

    open spec fn view(&self) -> AppModel {
        AppModel {
            screen: self.current_screen,
            mode: self.current_mode,
            files: texts(self.geojson_files@),
            list: self.list@,
            marked: self.selected_files_status@,
            colors: self.assigned_plot_colors@,
            next_color: self.current_color_index_for_assignment as nat,
            plot_points: self.plot_points,
            plot_lines: self.plot_lines,
            plot_polygons: self.plot_polygons,
            output_name: self.output_filename@,
            previous_output_name: self.previous_output_filename@,
            search_query: self.search_query@,
            previous_search_query: self.previous_search_query@,
            metadata_cached: self.metadata_cached@,
            notification: self.notification,
            left_pane_percent: self.left_pane_width_percentage as nat,
            resizing: self.is_resizing,
        }
    }
}

impl App {
    /// The invariant of the state, see [`AppModel::wf`].
    pub open spec fn wf(&self) -> bool {
        self@.wf()
    }

    /// The state a session starts in: the browser screen in navigation
    /// mode, no files yet, every kind of geometry visible, the default
    /// output name with the cursor at its start, panes of equal width.
    pub fn new() -> (app: App)
        ensures
            app@ == AppModel::initial(),
            app.wf(),
    {
        let app = App {
            current_screen: CurrentScreen::GeoJsonMapper,
            current_mode: AppMode::Navigation,
            geojson_files: Vec::new(),
            list: FilteredListView::new(0),
            selected_files_status: Vec::new(),
            assigned_plot_colors: Vec::new(),
            current_color_index_for_assignment: 0,
            plot_points: true,
            plot_lines: true,
            plot_polygons: true,
            output_filename: TextField::from_text("combined_plot.png"),
            previous_output_filename: Vec::new(),
            search_query: TextField::new(),
            previous_search_query: Vec::new(),
            metadata_cached: Vec::new(),
            notification: Notification::SelectFiles,
            left_pane_width_percentage: 50,
            is_resizing: false,
        };
        assert(app@ =~~= AppModel::initial());
        app
    }

    /// Sets the files to browse and resets what is kept per file: the
    /// selection marks, the assigned colours, the metadata marks, the
    /// matches and the selected position. The scroll offset and everything
    /// else stay as they were.
    pub fn setup_geojson_data(&mut self, geojson_files_input: Vec<String>)
        requires
            old(self).wf(),
        ensures
            final(self)@ == old(self)@.with_files(texts(geojson_files_input@)),
            final(self)@.list.scroll == old(self)@.list.scroll,
            final(self).wf(),
    {
        let num_files = geojson_files_input.len();
        self.geojson_files = geojson_files_input;
        self.selected_files_status = vec![false; num_files];
        self.assigned_plot_colors = vec![None; num_files];
        self.metadata_cached = vec![false; num_files];
        self.list.reload(num_files);
        assert(self@ =~~= old(self)@.with_files(texts(geojson_files_input@)));
    }

    /// Checks the invariant at run time, for callers that Verus does not
    /// see.
    pub fn is_consistent(&self) -> (ok: bool)
        ensures
            ok == self.wf(),
    {
        let files = self.geojson_files.len();
        let tables_fit = self.list.source_len() == files && self.selected_files_status.len()
            == files && self.assigned_plot_colors.len() == files && self.metadata_cached.len()
            == files;
        let pane_fits = MIN_PANE_PERCENT <= self.left_pane_width_percentage
            && self.left_pane_width_percentage <= MAX_PANE_PERCENT;
        self.list.is_consistent() && tables_fit && pane_fits
            && self.current_color_index_for_assignment < PALETTE_LEN
    }

    /// The number of files selected for plotting.
    pub fn selected_count(&self) -> (count: usize)
        ensures
            count == count_true(self@.marked),
    {
        let mut count: usize = 0;
        let mut i: usize = 0;
        assert(self.selected_files_status@.take(0) =~= Seq::empty());
        while i < self.selected_files_status.len()
            invariant
                i <= self.selected_files_status.len(),
                count <= i,
                count == count_true(self.selected_files_status@.take(i as int)),
            decreases self.selected_files_status.len() - i,
        {
            assert(self.selected_files_status@.take(i + 1).drop_last()
                =~= self.selected_files_status@.take(i as int));
            if self.selected_files_status[i] {
                count = count + 1;
            }
            i = i + 1;
        }
        assert(self.selected_files_status@.take(i as int) =~= self.selected_files_status@);
        count
    }

    /// Switches the file under the selection between selected and not.
    pub fn toggle_selection(&mut self)
        requires
            old(self).wf(),
        ensures
            final(self)@ == old(self)@.toggled(),
            final(self).wf(),
    {
        match self.list.selected_source_index() {
            None => {
                self.notification = Notification::NothingToSelect;
            },
            Some(index) => {
                assert(0 <= self@.list.matches[self@.list.selection as int]
                    < self@.list.source_len);
                if self.selected_files_status[index] {
                    self.selected_files_status.set(index, false);
                    self.assigned_plot_colors.set(index, None);
                    self.notification = Notification::Deselected { index };
                } else {
                    let color = palette_color(self.current_color_index_for_assignment);
                    self.selected_files_status.set(index, true);
                    self.assigned_plot_colors.set(index, Some(color));
                    self.notification = Notification::Selected { index, color };
                    let next = (self.current_color_index_for_assignment + 1) % PALETTE_LEN;
                    self.current_color_index_for_assignment = next;
                }
            },
        }
        assert(self@ =~~= old(self)@.toggled());
    }

    /// Puts the output name back to what it was before the edit.
    fn revert_name(&mut self)
        ensures
            final(self)@ == old(self)@.name_reverted(),
    {
        self.output_filename.buffer = copy_chars(&self.previous_output_filename);
    }

    /// Computes the matches anew for the pattern as it stands.
    fn refilter(&mut self)
        requires
            old(self).wf(),
        ensures
            final(self)@ == (AppModel { list: old(self)@.refiltered_list(), ..old(self)@ }),
            final(self).wf(),
    {
        let query = self.search_query.text();
        self.list.recompute(&self.geojson_files, query.as_str());
    }

    /// Settles the edited output name and returns to navigation.
    pub fn confirm_name(&mut self)
        requires
            old(self).wf(),
        ensures
            final(self)@ == old(self)@.name_confirmed(),
            final(self).wf(),
    {
        if self.output_filename.buffer.len() == 0 {
            self.revert_name();
            self.notification = Notification::NameEmpty;
        } else if !(ends_with(&self.output_filename.buffer, ".png") || ends_with(
            &self.output_filename.buffer,
            ".jpg",
        ) || ends_with(&self.output_filename.buffer, ".jpeg") || ends_with(
            &self.output_filename.buffer,
            ".bmp",
        )) {
            self.revert_name();
            self.notification = Notification::NameSuffixRejected;
        } else {
            self.notification = Notification::NameAccepted;
        }
        self.current_mode = AppMode::Navigation;
    }

    /// Asks for the plot of the selected files.
    fn request_plot(&mut self) -> (flow: Flow)
        ensures
            final(self)@ == old(self)@.plot_requested(),
            flow == if count_true(old(self)@.marked) > 0 {
                Flow::Leave
            } else {
                Flow::Continue
            },
    {
        let count = self.selected_count();
        if count > 0 {
            self.notification = Notification::Plotting { count };
            Flow::Leave
        } else {
            self.notification = Notification::NothingSelected;
            Flow::Continue
        }
    }

    /// Moves the palette on by one colour.
    fn cycle_color(&mut self)
        requires
            old(self).wf(),
        ensures
            final(self)@ == old(self)@.color_cycled(),
            final(self).wf(),
    {
        let next = (self.current_color_index_for_assignment + 1) % PALETTE_LEN;
        self.current_color_index_for_assignment = next;
        self.notification = Notification::NextColor { color: palette_color(next) };
    }

    /// Switches one kind of geometry between visible and hidden.
    fn toggle_layer(&mut self, kind: LayerKind)
        ensures
            final(self)@ == old(self)@.layer_toggled(kind),
    {
        let visible = match kind {
            LayerKind::Points => {
                self.plot_points = !self.plot_points;
                self.plot_points
            },
            LayerKind::Lines => {
                self.plot_lines = !self.plot_lines;
                self.plot_lines
            },
            LayerKind::Polygons => {
                self.plot_polygons = !self.plot_polygons;
                self.plot_polygons
            },
        };
        self.notification = Notification::LayerVisibility { kind, visible };
    }

    /// Begins editing the output name.
    fn start_editing_name(&mut self)
        ensures
            final(self)@ == old(self)@.editing_started(),
    {
        self.current_mode = AppMode::EditingFilename;
        self.previous_output_filename = copy_chars(&self.output_filename.buffer);
        self.notification = Notification::EditingName;
    }

    /// Begins filtering.
    fn start_filtering(&mut self)
        requires
            old(self).wf(),
        ensures
            final(self)@ == old(self)@.filtering_started(),
            final(self).wf(),
    {
        self.previous_search_query = copy_chars(&self.search_query.buffer);
        self.refilter();
        self.current_mode = AppMode::Searching;
        self.notification = Notification::Filtering;
    }

    /// Commits the filter and returns to navigation.
    fn confirm_filter(&mut self)
        requires
            old(self).wf(),
        ensures
            final(self)@ == old(self)@.filter_confirmed(),
            final(self).wf(),
    {
        self.refilter();
        self.notification = if self.search_query.buffer.len() == 0 {
            Notification::FilterCleared
        } else {
            Notification::FilterApplied { results: self.list.len() }
        };
        self.current_mode = AppMode::Navigation;
    }

    /// Abandons the filter and returns to navigation.
    fn cancel_filter(&mut self)
        requires
            old(self).wf(),
        ensures
            final(self)@ == old(self)@.filter_cancelled(),
            final(self).wf(),
    {
        self.search_query.buffer = copy_chars(&self.previous_search_query);
        self.refilter();
        self.current_mode = AppMode::Navigation;
        self.notification = Notification::FilterCancelled;
    }

    /// Abandons the edit of the output name and returns to navigation.
    fn cancel_name(&mut self)
        ensures
            final(self)@ == old(self)@.name_cancelled(),
    {
        self.revert_name();
        self.notification = Notification::NameEditCancelled;
        self.current_mode = AppMode::Navigation;
    }

    /// Carries out `command` as browsing the list understands it.
    fn navigate(&mut self, command: Command) -> (flow: Flow)
        requires
            old(self).wf(),
            old(self)@.mode == AppMode::Navigation,
        ensures
            final(self)@ == old(self)@.navigated(command),
            flow == old(self)@.flow_of(command),
            final(self).wf(),
    {
        match command {
            Command::MoveDown => {
                self.list.move_down();
                Flow::Continue
            },
            Command::MoveUp => {
                self.list.move_up();
                Flow::Continue
            },
            Command::ToggleSelection => {
                self.toggle_selection();
                Flow::Continue
            },
            Command::Confirm => self.request_plot(),
            Command::CyclePaletteColor => {
                self.cycle_color();
                Flow::Continue
            },
            Command::StartEditingName => {
                self.start_editing_name();
                Flow::Continue
            },
            Command::StartFiltering => {
                self.start_filtering();
                Flow::Continue
            },
            Command::ToggleLayerKind(kind) => {
                self.toggle_layer(kind);
                Flow::Continue
            },
            Command::Quit => {
                self.notification = Notification::Exiting;
                Flow::Leave
            },
            Command::ShowHelp => {
                self.current_screen = CurrentScreen::Help;
                self.notification = Notification::ShowingHelp;
                Flow::Continue
            },
            _ => Flow::Continue,
        }
    }

    /// Carries out `command` in the current mode and says whether the
    /// event loop goes on.
    pub fn execute(&mut self, command: Command) -> (flow: Flow)
        requires
            old(self).wf(),
        ensures
            final(self)@ == old(self)@.executed(command),
            flow == old(self)@.flow_of(command),
            final(self).wf(),
    {
        match self.current_mode {
            AppMode::Navigation => self.navigate(command),
            AppMode::EditingFilename => {
                match command {
                    Command::Confirm => self.confirm_name(),
                    Command::CancelOrBack => self.cancel_name(),
                    Command::Edit(key) => self.output_filename.apply(key),
                    _ => {},
                }
                Flow::Continue
            },
            AppMode::Searching => {
                match command {
                    Command::Confirm => self.confirm_filter(),
                    Command::CancelOrBack => self.cancel_filter(),
                    Command::Edit(key) => self.search_query.apply(key),
                    _ => {},
                }
                Flow::Continue
            },
        }
    }

    /// Handles one key press: clears the notification of the frame before,
    /// then carries out the command that the key is bound to in the
    /// current mode.
    pub fn handle_key(&mut self, key: Key) -> (flow: Flow)
        requires
            old(self).wf(),
        ensures
            final(self)@ == old(self)@.after_key(key),
            flow == old(self)@.flow_after_key(key),
            final(self).wf(),
    {
        self.notification = Notification::Cleared;
        let command = command_for(self.current_mode, key);
        self.execute(command)
    }
    /// Opens a frame: computes the matches anew where that is due and fits
    /// the scroll window to the terminal.
    pub fn prepare_frame(&mut self, terminal_height: u16)
        requires
            old(self).wf(),
        ensures
            final(self)@ == old(self)@.frame_prepared(terminal_height as nat),
            final(self).wf(),
    {
        let query = self.search_query.text();
        let filtering = self.current_mode == AppMode::Searching;
        self.list.refresh(&self.geojson_files, query.as_str(), filtering);
        let rows: usize = if terminal_height >= CHROME_ROWS {
            (terminal_height - CHROME_ROWS) as usize
        } else {
            0
        };
        self.list.adjust_scroll(rows);
    }

    /// The source index of the file whose metadata has to be loaded before
    /// the frame is drawn, if there is one.
    pub fn metadata_request(&self) -> (index: Option<usize>)
        requires
            self.wf(),
        ensures
            match index {
                None => self@.metadata_due() is None,
                Some(i) => self@.metadata_due() == Some(i as int),
            },
    {
        match self.list.selected_source_index() {
            None => None,
            Some(index) => {
                assert(0 <= self@.current_file() < self@.list.source_len);
                if self.metadata_cached[index] {
                    None
                } else {
                    Some(index)
                }
            },
        }
    }

    /// Notes that the metadata of the file at `index` was loaded.
    pub fn record_metadata(&mut self, index: usize)
        requires
            old(self).wf(),
        ensures
            final(self)@ == old(self)@.with_metadata(index as int),
            final(self).wf(),
    {
        if index < self.metadata_cached.len() {
            self.metadata_cached.set(index, true);
        }
    }

    /// Handles one pointer event.
    pub fn handle_pointer(&mut self, event: PointerEvent)
        requires
            old(self).wf(),
        ensures
            final(self)@ == old(self)@.pointer_handled(event),
            final(self).wf(),
    {
        if self.current_screen != CurrentScreen::GeoJsonMapper {
            return ;
        }
        match event {
            PointerEvent::Pressed { column, divider_column } => {
                let near_left = divider_column == 0 || divider_column - 1 <= column;
                let near_right = divider_column == u16::MAX || column <= divider_column + 1;
                if near_left && near_right {
                    self.is_resizing = true;
                }
            },
            PointerEvent::Dragged { percent } => {
                if self.is_resizing {
                    self.left_pane_width_percentage = if percent < MIN_PANE_PERCENT {
                        MIN_PANE_PERCENT
                    } else if percent > MAX_PANE_PERCENT {
                        MAX_PANE_PERCENT
                    } else {
                        percent
                    };
                }
            },
            PointerEvent::Released => {
                self.is_resizing = false;
            },
            PointerEvent::Other => {},
        }
    }

    /// Handles one event of the queue and says whether the loop goes on.
    pub fn handle_event(&mut self, event: Event) -> (flow: Flow)
        requires
            old(self).wf(),
        ensures
            final(self)@ == old(self)@.after_event(event),
            flow == old(self)@.flow_after_event(event),
            final(self).wf(),
    {
        match event {
            Event::Input(key) => self.handle_key(key),
            Event::Mouse(pointer) => {
                self.handle_pointer(pointer);
                Flow::Continue
            },
            Event::Tick => Flow::Continue,
            Event::TerminalEvent(_) => Flow::Continue,
        }
    }

    /// Takes one turn of the loop: checks the interrupt flag, then handles
    /// the event that was drained from the queue, if any.
    pub fn step(&mut self, interrupted: bool, event: Option<Event>) -> (flow: Flow)
        requires
            old(self).wf(),
        ensures
            final(self)@ == old(self)@.stepped(interrupted, event),
            flow == old(self)@.flow_after_step(interrupted, event),
            final(self).wf(),
    {
        if interrupted {
            return Flow::Abort;
        }
        match event {
            Some(e) => self.handle_event(e),
            None => Flow::Continue,
        }
    }

    /// Whether a geometry of this kind goes into the plot.
    pub fn draws(&self, kind: GeometryKind) -> (drawn: bool)
        ensures
            drawn == self@.draws(kind),
    {
        match geometry_layer(kind) {
            Some(LayerKind::Points) => self.plot_points,
            Some(LayerKind::Lines) => self.plot_lines,
            Some(LayerKind::Polygons) => self.plot_polygons,
            None => false,
        }
    }

    /// The source indices of the files selected for plotting, in source
    /// order.
    pub fn files_to_plot(&self) -> (files: Vec<usize>)
        ensures
            files@.map_values(|i: usize| i as int) == indices_of_true(self@.marked),
    {
        let mut files: Vec<usize> = Vec::new();
        let mut i: usize = 0;
        assert(self.selected_files_status@.take(0) =~= Seq::empty());
        while i < self.selected_files_status.len()
            invariant
                i <= self.selected_files_status.len(),
                files@.map_values(|k: usize| k as int) == indices_of_true(
                    self.selected_files_status@.take(i as int),
                ),
            decreases self.selected_files_status.len() - i,
        {
            assert(self.selected_files_status@.take(i + 1).drop_last()
                =~= self.selected_files_status@.take(i as int));
            let ghost before = files@.map_values(|k: usize| k as int);
            if self.selected_files_status[i] {
                files.push(i);
                assert(files@.map_values(|k: usize| k as int) =~= before.push(i as int));
            }
            i = i + 1;
        }
        assert(self.selected_files_status@.take(i as int) =~= self.selected_files_status@);
        files
    }
}

} // verus!

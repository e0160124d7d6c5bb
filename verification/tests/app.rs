use geojson_mapper::app::{
    palette_color, App, AppMode, CurrentScreen, Flow, Notification, Rgb, TerminalEvent,
    PALETTE_LEN,
};
use geojson_mapper::command::{command_for, geometry_layer, Command, GeometryKind, LayerKind};
use geojson_mapper::coordinate::Coordinate;
use geojson_mapper::event::{Event, PointerEvent};
use geojson_mapper::input::Key;
use geojson_mapper::layout::{Color, Style};
use geojson_mapper::panel::{draw_captioned_field, paint_divider, paint_row, ListRow};
use geojson_mapper::text_field::TextField;

fn app_with(files: &[&str]) -> App {
    let mut app = App::new();
    app.setup_geojson_data(files.iter().map(|s| s.to_string()).collect());
    app
}

fn type_text(app: &mut App, text: &str) {
    for c in text.chars() {
        assert_eq!(app.handle_key(Key::Char(c)), Flow::Continue);
    }
}

fn clear_field(app: &mut App, len: usize) {
    for _ in 0..len {
        app.handle_key(Key::Delete);
    }
}

fn matches_of(app: &App) -> Vec<usize> {
    (0..app.list.len()).map(|i| app.list.source_index(i)).collect()
}

#[test]
fn new_app_starts_in_the_browser() {
    let app = App::new();
    assert_eq!(app.current_screen, CurrentScreen::GeoJsonMapper);
    assert_eq!(app.current_mode, AppMode::Navigation);
    assert!(app.geojson_files.is_empty());
    assert!(app.list.is_empty());
    assert_eq!(app.current_color_index_for_assignment, 0);
    assert!(app.plot_points && app.plot_lines && app.plot_polygons);
    assert_eq!(app.output_filename.text(), "combined_plot.png");
    assert_eq!(app.output_filename.cursor, 0);
    assert!(app.previous_output_filename.is_empty());
    assert_eq!(app.search_query.text(), "");
    assert_eq!(app.notification, Notification::SelectFiles);
    assert_eq!(app.left_pane_width_percentage, 50);
    assert!(!app.is_resizing);
}

#[test]
fn setup_resets_what_is_kept_per_file() {
    let app = app_with(&["a.geojson", "b.geojson", "c.geojson"]);
    assert_eq!(app.geojson_files, vec!["a.geojson", "b.geojson", "c.geojson"]);
    assert_eq!(app.selected_files_status, vec![false, false, false]);
    assert_eq!(app.assigned_plot_colors, vec![None, None, None]);
    assert_eq!(app.metadata_cached, vec![false, false, false]);
    assert_eq!(matches_of(&app), vec![0, 1, 2]);
    assert_eq!(app.list.selection(), 0);
}

#[test]
fn setup_leaves_the_scroll_offset_to_the_next_frame() {
    let files: Vec<String> = (0..10).map(|i| format!("f{}.geojson", i)).collect();
    let mut app = App::new();
    app.setup_geojson_data(files.clone());
    for _ in 0..8 {
        app.handle_key(Key::Down);
    }
    // A terminal of eight rows leaves three for the list.
    app.prepare_frame(8);
    assert_eq!((app.list.selection(), app.list.scroll()), (8, 6));
    app.setup_geojson_data(files);
    assert_eq!(app.list.selection(), 0);
    assert_eq!(app.list.scroll(), 6);
    assert_eq!(app.list.viewport_height(), 3);
    assert_eq!(matches_of(&app), vec![0, 1, 2, 3, 4, 5, 6, 7, 8, 9]);
    assert!(app.is_consistent());
    // The next frame scrolls up to the selection.
    app.prepare_frame(8);
    assert_eq!((app.list.selection(), app.list.scroll()), (0, 0));
}

#[test]
fn setup_keeps_everything_that_is_not_per_file() {
    let mut app = app_with(&["alpha.geojson", "beta.geojson", "gamma.geojson"]);
    app.handle_key(Key::Char('c'));
    app.handle_key(Key::Char('p'));
    app.handle_key(Key::Char(' '));
    app.handle_key(Key::Char('/'));
    type_text(&mut app, "ga");
    app.prepare_frame(24);
    assert_eq!(app.handle_key(Key::Enter), Flow::Continue);
    app.handle_pointer(PointerEvent::Pressed { column: 40, divider_column: 40 });
    app.handle_pointer(PointerEvent::Dragged { percent: 30 });
    let notification = app.notification;
    assert_eq!(matches_of(&app), vec![2]);

    app.setup_geojson_data(vec!["x.geojson".to_string(), "gy.geojson".to_string()]);

    assert_eq!(app.current_screen, CurrentScreen::GeoJsonMapper);
    assert_eq!(app.current_mode, AppMode::Navigation);
    assert_eq!(app.search_query.text(), "ga");
    assert_eq!(app.previous_search_query, Vec::<char>::new());
    assert_eq!(app.output_filename.text(), "combined_plot.png");
    assert_eq!(app.notification, notification);
    assert!(!app.plot_points);
    assert!(app.plot_lines);
    assert!(app.plot_polygons);
    assert_eq!(app.current_color_index_for_assignment, 2);
    assert_eq!(app.left_pane_width_percentage, 30);
    assert!(app.is_resizing);
    // Per file, everything starts anew, and every file is listed whatever
    // the pattern says.
    assert_eq!(app.selected_files_status, vec![false, false]);
    assert_eq!(app.assigned_plot_colors, vec![None, None]);
    assert_eq!(app.metadata_cached, vec![false, false]);
    assert_eq!(matches_of(&app), vec![0, 1]);
    assert_eq!(app.list.selection(), 0);
    // The pattern that the list was last filtered by is still on record,
    // so a frame in navigation mode does not filter again.
    assert_eq!(app.list.pattern(), "ga");
    app.prepare_frame(24);
    assert_eq!(matches_of(&app), vec![0, 1]);
}

#[test]
fn palette_is_black_red_green_blue_yellow_magenta_cyan() {
    assert_eq!(PALETTE_LEN, 7);
    assert_eq!(palette_color(0), Rgb { r: 0, g: 0, b: 0 });
    assert_eq!(palette_color(1), Rgb { r: 255, g: 0, b: 0 });
    assert_eq!(palette_color(2), Rgb { r: 0, g: 255, b: 0 });
    assert_eq!(palette_color(3), Rgb { r: 0, g: 0, b: 255 });
    assert_eq!(palette_color(4), Rgb { r: 255, g: 255, b: 0 });
    assert_eq!(palette_color(5), Rgb { r: 255, g: 0, b: 255 });
    assert_eq!(palette_color(6), Rgb { r: 0, g: 255, b: 255 });
}

#[test]
fn navigation_keys_are_bound_to_commands() {
    let mode = AppMode::Navigation;
    assert_eq!(command_for(mode, Key::Down), Command::MoveDown);
    assert_eq!(command_for(mode, Key::Char('j')), Command::MoveDown);
    assert_eq!(command_for(mode, Key::Up), Command::MoveUp);
    assert_eq!(command_for(mode, Key::Char('k')), Command::MoveUp);
    assert_eq!(command_for(mode, Key::Char(' ')), Command::ToggleSelection);
    assert_eq!(command_for(mode, Key::Enter), Command::Confirm);
    assert_eq!(command_for(mode, Key::Char('c')), Command::CyclePaletteColor);
    assert_eq!(command_for(mode, Key::Char('C')), Command::CyclePaletteColor);
    assert_eq!(command_for(mode, Key::Char('r')), Command::StartEditingName);
    assert_eq!(command_for(mode, Key::Char('R')), Command::StartEditingName);
    assert_eq!(command_for(mode, Key::Char('/')), Command::StartFiltering);
    assert_eq!(command_for(mode, Key::Char('p')), Command::ToggleLayerKind(LayerKind::Points));
    assert_eq!(command_for(mode, Key::Char('L')), Command::ToggleLayerKind(LayerKind::Lines));
    assert_eq!(command_for(mode, Key::Char('o')), Command::ToggleLayerKind(LayerKind::Polygons));
    assert_eq!(command_for(mode, Key::Char('q')), Command::Quit);
    assert_eq!(command_for(mode, Key::Char('Q')), Command::Quit);
    assert_eq!(command_for(mode, Key::Char('h')), Command::ShowHelp);
    assert_eq!(command_for(mode, Key::Char('J')), Command::Ignore);
    assert_eq!(command_for(mode, Key::Char('x')), Command::Ignore);
    assert_eq!(command_for(mode, Key::Esc), Command::Ignore);
    assert_eq!(command_for(mode, Key::Left), Command::Ignore);
    assert_eq!(command_for(mode, Key::Backspace), Command::Ignore);
}

#[test]
fn editing_keys_go_to_the_field() {
    for mode in [AppMode::EditingFilename, AppMode::Searching] {
        assert_eq!(command_for(mode, Key::Enter), Command::Confirm);
        assert_eq!(command_for(mode, Key::Esc), Command::CancelOrBack);
        for key in [Key::Char('q'), Key::Char('j'), Key::Left, Key::Delete, Key::Up, Key::Other] {
            assert_eq!(command_for(mode, key), Command::Edit(key));
        }
    }
}

#[test]
fn moving_the_selection_is_bounded() {
    let mut app = app_with(&["a", "b", "c"]);
    assert_eq!(app.handle_key(Key::Up), Flow::Continue);
    assert_eq!(app.list.selection(), 0);
    app.handle_key(Key::Down);
    app.handle_key(Key::Char('j'));
    assert_eq!(app.list.selection(), 2);
    app.handle_key(Key::Down);
    assert_eq!(app.list.selection(), 2);
    app.handle_key(Key::Char('k'));
    assert_eq!(app.list.selection(), 1);
    assert_eq!(app.notification, Notification::Cleared);
}

#[test]
fn toggling_selects_with_the_next_colour() {
    let mut app = app_with(&["a", "b", "c"]);
    app.handle_key(Key::Down);
    app.handle_key(Key::Char(' '));
    let black = Rgb { r: 0, g: 0, b: 0 };
    assert_eq!(app.selected_files_status, vec![false, true, false]);
    assert_eq!(app.assigned_plot_colors, vec![None, Some(black), None]);
    assert_eq!(app.notification, Notification::Selected { index: 1, color: black });
    assert_eq!(app.current_color_index_for_assignment, 1);

    app.handle_key(Key::Down);
    app.handle_key(Key::Char(' '));
    let red = Rgb { r: 255, g: 0, b: 0 };
    assert_eq!(app.assigned_plot_colors, vec![None, Some(black), Some(red)]);
    assert_eq!(app.current_color_index_for_assignment, 2);
    assert_eq!(app.selected_count(), 2);
    assert_eq!(app.files_to_plot(), vec![1, 2]);
}

#[test]
fn toggling_again_deselects_and_keeps_the_palette() {
    let mut app = app_with(&["a", "b"]);
    app.handle_key(Key::Char(' '));
    app.handle_key(Key::Char(' '));
    assert_eq!(app.selected_files_status, vec![false, false]);
    assert_eq!(app.assigned_plot_colors, vec![None, None]);
    assert_eq!(app.notification, Notification::Deselected { index: 0 });
    assert_eq!(app.current_color_index_for_assignment, 1);
    assert!(app.files_to_plot().is_empty());
}

#[test]
fn toggling_acts_on_the_source_index_behind_the_filter() {
    let mut app = app_with(&["alpha.geojson", "beta.geojson", "gamma_alpha.geojson"]);
    app.handle_key(Key::Char('/'));
    type_text(&mut app, "ga");
    app.prepare_frame(24);
    app.handle_key(Key::Enter);
    assert_eq!(app.notification, Notification::FilterApplied { results: 1 });
    assert_eq!(matches_of(&app), vec![2]);
    app.handle_key(Key::Char(' '));
    assert_eq!(app.selected_files_status, vec![false, false, true]);
    assert_eq!(
        app.notification,
        Notification::Selected { index: 2, color: Rgb { r: 0, g: 0, b: 0 } }
    );
}

#[test]
fn toggling_with_nothing_to_select_only_notifies() {
    let mut app = app_with(&[]);
    app.handle_key(Key::Char(' '));
    assert_eq!(app.notification, Notification::NothingToSelect);
    assert_eq!(app.current_color_index_for_assignment, 0);
}

#[test]
fn palette_cycles_through_seven_colours() {
    let mut app = app_with(&["a"]);
    for step in 1..=7usize {
        app.handle_key(Key::Char('c'));
        assert_eq!(app.current_color_index_for_assignment, step % 7);
        assert_eq!(
            app.notification,
            Notification::NextColor { color: palette_color(step % 7) }
        );
    }
    assert_eq!(app.current_color_index_for_assignment, 0);
}

#[test]
fn confirm_without_selection_stays_in_the_loop() {
    let mut app = app_with(&["a", "b"]);
    assert_eq!(app.handle_key(Key::Enter), Flow::Continue);
    assert_eq!(app.notification, Notification::NothingSelected);
}

#[test]
fn confirm_with_selection_leaves_the_loop() {
    let mut app = app_with(&["a", "b", "c"]);
    app.handle_key(Key::Char(' '));
    app.handle_key(Key::Down);
    app.handle_key(Key::Down);
    app.handle_key(Key::Char(' '));
    assert_eq!(app.handle_key(Key::Enter), Flow::Leave);
    assert_eq!(app.notification, Notification::Plotting { count: 2 });
    assert_eq!(app.files_to_plot(), vec![0, 2]);
}

#[test]
fn quit_leaves_the_loop() {
    let mut app = app_with(&["a"]);
    assert_eq!(app.handle_key(Key::Char('q')), Flow::Leave);
    assert_eq!(app.notification, Notification::Exiting);
}

#[test]
fn help_key_shows_the_help_screen() {
    let mut app = app_with(&["a"]);
    assert_eq!(app.handle_key(Key::Char('h')), Flow::Continue);
    assert_eq!(app.current_screen, CurrentScreen::Help);
    assert_eq!(app.notification, Notification::ShowingHelp);
}

#[test]
fn layer_keys_toggle_visibility() {
    let mut app = app_with(&["a"]);
    app.handle_key(Key::Char('p'));
    assert!(!app.plot_points);
    assert_eq!(
        app.notification,
        Notification::LayerVisibility { kind: LayerKind::Points, visible: false }
    );
    app.handle_key(Key::Char('P'));
    assert!(app.plot_points);
    assert_eq!(
        app.notification,
        Notification::LayerVisibility { kind: LayerKind::Points, visible: true }
    );
    app.handle_key(Key::Char('l'));
    assert!(!app.plot_lines && app.plot_polygons);
    app.handle_key(Key::Char('o'));
    assert!(!app.plot_polygons);
    assert_eq!(
        app.notification,
        Notification::LayerVisibility { kind: LayerKind::Polygons, visible: false }
    );
}

#[test]
fn unbound_key_only_clears_the_notification() {
    let mut app = app_with(&["a"]);
    assert_eq!(app.notification, Notification::SelectFiles);
    assert_eq!(app.handle_key(Key::Char('x')), Flow::Continue);
    assert_eq!(app.notification, Notification::Cleared);
    assert_eq!(app.current_mode, AppMode::Navigation);
    assert_eq!(app.list.selection(), 0);
}

#[test]
fn scenario_name_without_suffix_is_reverted() {
    let mut app = app_with(&["a"]);
    app.handle_key(Key::Char('r'));
    assert_eq!(app.current_mode, AppMode::EditingFilename);
    assert_eq!(app.notification, Notification::EditingName);
    clear_field(&mut app, "combined_plot.png".len());
    type_text(&mut app, "plot");
    assert_eq!(app.output_filename.text(), "plot");
    assert_eq!(app.handle_key(Key::Enter), Flow::Continue);
    // Reverted to the name before the edit, not cleared.
    assert_eq!(app.output_filename.text(), "combined_plot.png");
    assert_eq!(app.notification, Notification::NameSuffixRejected);
    assert_eq!(app.current_mode, AppMode::Navigation);
}

#[test]
fn scenario_revert_keeps_the_name_when_that_was_plot() {
    // The name before the edit is "plot"; the edit changes nothing; Confirm
    // rejects it for want of a suffix and the buffer still reads "plot".
    let mut app = app_with(&["a"]);
    app.output_filename = TextField::from_text("plot");
    app.handle_key(Key::Char('r'));
    assert_eq!(app.handle_key(Key::Enter), Flow::Continue);
    assert_eq!(app.output_filename.text(), "plot");
    assert_eq!(app.notification, Notification::NameSuffixRejected);
    assert_eq!(app.current_mode, AppMode::Navigation);
}

#[test]
fn empty_name_is_reverted() {
    let mut app = app_with(&["a"]);
    app.handle_key(Key::Char('R'));
    clear_field(&mut app, "combined_plot.png".len());
    assert_eq!(app.output_filename.text(), "");
    app.handle_key(Key::Enter);
    assert_eq!(app.output_filename.text(), "combined_plot.png");
    assert_eq!(app.notification, Notification::NameEmpty);
    assert_eq!(app.current_mode, AppMode::Navigation);
}

#[test]
fn name_with_accepted_suffix_is_kept() {
    for name in ["map.png", "map.jpg", "map.jpeg", "map.bmp", ".png"] {
        let mut app = app_with(&["a"]);
        app.handle_key(Key::Char('r'));
        clear_field(&mut app, "combined_plot.png".len());
        type_text(&mut app, name);
        app.handle_key(Key::Enter);
        assert_eq!(app.output_filename.text(), name);
        assert_eq!(app.notification, Notification::NameAccepted);
        assert_eq!(app.current_mode, AppMode::Navigation);
    }
}

#[test]
fn name_with_other_suffix_is_rejected() {
    for name in ["map.gif", "map.PNG", "png", "map.png.txt", "map.jpe"] {
        let mut app = app_with(&["a"]);
        app.handle_key(Key::Char('r'));
        clear_field(&mut app, "combined_plot.png".len());
        type_text(&mut app, name);
        app.handle_key(Key::Enter);
        assert_eq!(app.output_filename.text(), "combined_plot.png");
        assert_eq!(app.notification, Notification::NameSuffixRejected);
    }
}

#[test]
fn cancelling_the_edit_always_reverts() {
    let mut app = app_with(&["a"]);
    app.handle_key(Key::Char('r'));
    clear_field(&mut app, "combined_plot.png".len());
    type_text(&mut app, "other.png");
    assert_eq!(app.handle_key(Key::Esc), Flow::Continue);
    assert_eq!(app.output_filename.text(), "combined_plot.png");
    assert_eq!(app.notification, Notification::NameEditCancelled);
    assert_eq!(app.current_mode, AppMode::Navigation);
}

#[test]
fn keys_in_editing_mode_do_not_navigate() {
    let mut app = app_with(&["a", "b"]);
    app.handle_key(Key::Char('r'));
    assert_eq!(app.handle_key(Key::Char('q')), Flow::Continue);
    app.handle_key(Key::Char('j'));
    assert_eq!(app.output_filename.text(), "qjcombined_plot.png");
    assert_eq!(app.output_filename.cursor, 2);
    assert_eq!(app.list.selection(), 0);
    assert_eq!(app.current_mode, AppMode::EditingFilename);
}

#[test]
fn filtering_narrows_the_list_frame_by_frame() {
    let mut app = app_with(&["alpha.geojson", "beta.geojson", "gamma_alpha.geojson"]);
    app.handle_key(Key::Char('/'));
    assert_eq!(app.current_mode, AppMode::Searching);
    assert_eq!(app.notification, Notification::Filtering);
    app.handle_key(Key::Char('a'));
    app.prepare_frame(24);
    assert_eq!(matches_of(&app), vec![0, 1, 2]);
    app.handle_key(Key::Char('l'));
    app.prepare_frame(24);
    assert_eq!(matches_of(&app), vec![0, 2]);
    app.handle_key(Key::Backspace);
    app.handle_key(Key::Char('j'));
    app.handle_key(Key::Char('x'));
    app.prepare_frame(24);
    assert!(app.list.is_empty());
    assert_eq!(app.handle_key(Key::Enter), Flow::Continue);
    assert_eq!(app.notification, Notification::FilterApplied { results: 0 });
    assert_eq!(app.current_mode, AppMode::Navigation);
    assert_eq!(app.search_query.text(), "ajx");
}

#[test]
fn confirming_an_empty_filter_clears_it() {
    let mut app = app_with(&["a", "b"]);
    app.handle_key(Key::Char('/'));
    app.prepare_frame(24);
    app.handle_key(Key::Enter);
    assert_eq!(app.notification, Notification::FilterCleared);
    assert_eq!(matches_of(&app), vec![0, 1]);
}

#[test]
fn cancelling_the_filter_restores_the_pattern_and_the_matches() {
    let mut app = app_with(&["alpha", "beta", "gamma"]);
    app.handle_key(Key::Char('/'));
    type_text(&mut app, "be");
    app.prepare_frame(24);
    app.handle_key(Key::Enter);
    assert_eq!(matches_of(&app), vec![1]);

    // A second round of filtering, abandoned.
    app.handle_key(Key::Char('/'));
    clear_field(&mut app, 2);
    app.handle_key(Key::Backspace);
    app.handle_key(Key::Backspace);
    type_text(&mut app, "gam");
    app.prepare_frame(24);
    assert_eq!(matches_of(&app), vec![2]);
    assert_eq!(app.handle_key(Key::Esc), Flow::Continue);
    assert_eq!(app.search_query.text(), "be");
    assert_eq!(app.notification, Notification::FilterCancelled);
    assert_eq!(app.current_mode, AppMode::Navigation);
    // The matches are those of the restored pattern at once, and stay so.
    assert_eq!(matches_of(&app), vec![1]);
    app.prepare_frame(24);
    assert_eq!(matches_of(&app), vec![1]);
}

#[test]
fn prepare_frame_fits_the_scroll_window_to_the_terminal() {
    let files: Vec<String> = (0..30).map(|i| format!("f{:02}.geojson", i)).collect();
    let mut app = App::new();
    app.setup_geojson_data(files);
    for _ in 0..12 {
        app.handle_key(Key::Down);
    }
    // Five rows of the terminal are never the list's.
    app.prepare_frame(15);
    assert_eq!(app.list.viewport_height(), 10);
    assert_eq!(app.list.scroll(), 3);
    app.prepare_frame(5);
    assert_eq!(app.list.viewport_height(), 0);
    app.prepare_frame(3);
    assert_eq!(app.list.viewport_height(), 0);
    app.prepare_frame(40);
    assert_eq!(app.list.viewport_height(), 35);
    assert_eq!(app.list.scroll(), 0);
}

#[test]
fn metadata_is_asked_for_once_per_file() {
    let mut app = app_with(&["a", "b"]);
    assert_eq!(app.metadata_request(), Some(0));
    app.record_metadata(0);
    assert_eq!(app.metadata_request(), None);
    app.handle_key(Key::Down);
    assert_eq!(app.metadata_request(), Some(1));
    app.record_metadata(1);
    app.handle_key(Key::Up);
    assert_eq!(app.metadata_request(), None);
    assert_eq!(app.metadata_cached, vec![true, true]);
    // An index that no file has is ignored.
    app.record_metadata(7);
    assert_eq!(app.metadata_cached, vec![true, true]);
}

#[test]
fn no_metadata_is_asked_for_without_a_file() {
    let app = app_with(&[]);
    assert_eq!(app.metadata_request(), None);
}

#[test]
fn divider_is_grabbed_within_one_column() {
    for (column, grabbed) in [(38, false), (39, true), (40, true), (41, true), (42, false)] {
        let mut app = app_with(&["a"]);
        app.handle_pointer(PointerEvent::Pressed { column, divider_column: 40 });
        assert_eq!(app.is_resizing, grabbed, "column {}", column);
    }
    let mut app = app_with(&["a"]);
    app.handle_pointer(PointerEvent::Pressed { column: 0, divider_column: 0 });
    assert!(app.is_resizing);
    let mut app = app_with(&["a"]);
    app.handle_pointer(PointerEvent::Pressed { column: u16::MAX, divider_column: u16::MAX });
    assert!(app.is_resizing);
}

#[test]
fn dragging_moves_the_divider_within_its_limits() {
    let mut app = app_with(&["a"]);
    // Not grabbed: a drag does nothing.
    app.handle_pointer(PointerEvent::Dragged { percent: 30 });
    assert_eq!(app.left_pane_width_percentage, 50);
    app.handle_pointer(PointerEvent::Pressed { column: 40, divider_column: 40 });
    app.handle_pointer(PointerEvent::Dragged { percent: 30 });
    assert_eq!(app.left_pane_width_percentage, 30);
    app.handle_pointer(PointerEvent::Dragged { percent: 3 });
    assert_eq!(app.left_pane_width_percentage, 10);
    app.handle_pointer(PointerEvent::Dragged { percent: 100 });
    assert_eq!(app.left_pane_width_percentage, 90);
    app.handle_pointer(PointerEvent::Other);
    assert!(app.is_resizing);
    app.handle_pointer(PointerEvent::Released);
    assert!(!app.is_resizing);
    app.handle_pointer(PointerEvent::Dragged { percent: 20 });
    assert_eq!(app.left_pane_width_percentage, 90);
}

#[test]
fn pointer_is_ignored_off_the_browser_screen() {
    let mut app = app_with(&["a"]);
    app.handle_key(Key::Char('h'));
    app.handle_pointer(PointerEvent::Pressed { column: 40, divider_column: 40 });
    assert!(!app.is_resizing);
}

#[test]
fn events_are_dispatched_by_kind() {
    let mut app = app_with(&["a", "b"]);
    assert_eq!(app.handle_event(Event::Input(Key::Down)), Flow::Continue);
    assert_eq!(app.list.selection(), 1);
    assert_eq!(app.notification, Notification::Cleared);
    app.handle_key(Key::Char('p'));
    let shown = app.notification;
    // Neither a tick nor a resize touches the state.
    assert_eq!(app.handle_event(Event::Tick), Flow::Continue);
    assert_eq!(app.handle_event(Event::TerminalEvent(TerminalEvent::Resize)), Flow::Continue);
    assert_eq!(app.notification, shown);
    assert_eq!(app.list.selection(), 1);
    assert_eq!(
        app.handle_event(Event::Mouse(PointerEvent::Pressed { column: 9, divider_column: 10 })),
        Flow::Continue
    );
    assert!(app.is_resizing);
    assert_eq!(app.handle_event(Event::Input(Key::Char('q'))), Flow::Leave);
}

#[test]
fn row_style_shows_cursor_and_assigned_colour() {
    let white = Style { foreground: Color::White, background: Color::Default, bold: false };
    assert_eq!(paint_row(false, false, None), white);
    assert_eq!(
        paint_row(true, false, None),
        Style { foreground: Color::White, background: Color::DarkGray, bold: true }
    );
    let red = Rgb { r: 255, g: 0, b: 0 };
    assert_eq!(
        paint_row(false, true, Some(red)),
        Style { foreground: Color::Rgb(255, 0, 0), background: Color::Default, bold: false }
    );
    assert_eq!(
        paint_row(true, true, Some(red)),
        Style { foreground: Color::Rgb(255, 0, 0), background: Color::DarkGray, bold: true }
    );
    // A colour without a selection does not show.
    assert_eq!(paint_row(false, false, Some(red)), white);
}

#[test]
fn visible_rows_are_the_window_of_the_matches() {
    let files: Vec<String> = (0..10).map(|i| format!("f{}.geojson", i)).collect();
    let mut app = App::new();
    app.setup_geojson_data(files);
    for _ in 0..3 {
        app.handle_key(Key::Down);
    }
    app.handle_key(Key::Char(' '));
    app.handle_key(Key::Down);
    app.prepare_frame(8);
    // Three rows, the selection in the last of them.
    let rows = app.visible_rows();
    assert_eq!(rows.len(), 3);
    assert_eq!(
        rows[0],
        ListRow {
            position: 2,
            source_index: 2,
            marked: false,
            highlighted: false,
            style: paint_row(false, false, None),
        }
    );
    assert_eq!(
        rows[1],
        ListRow {
            position: 3,
            source_index: 3,
            marked: true,
            highlighted: false,
            style: paint_row(false, true, Some(Rgb { r: 0, g: 0, b: 0 })),
        }
    );
    assert_eq!(
        rows[2],
        ListRow {
            position: 4,
            source_index: 4,
            marked: false,
            highlighted: true,
            style: Style { foreground: Color::White, background: Color::DarkGray, bold: true },
        }
    );
}

#[test]
fn visible_rows_follow_the_filter() {
    let mut app = app_with(&["alpha", "beta", "gamma", "delta"]);
    app.handle_key(Key::Char('/'));
    type_text(&mut app, "t");
    app.prepare_frame(30);
    let rows = app.visible_rows();
    assert_eq!(rows.len(), 2);
    assert_eq!((rows[0].position, rows[0].source_index, rows[0].highlighted), (0, 1, true));
    assert_eq!((rows[1].position, rows[1].source_index, rows[1].highlighted), (1, 3, false));
}

#[test]
fn search_bar_is_drawn_only_while_filtering() {
    let mut app = app_with(&["a"]);
    assert_eq!(app.draw_search_bar(Coordinate::new(0, 2), 40), None);
    app.handle_key(Key::Char('/'));
    type_text(&mut app, "geo");
    app.handle_key(Key::Left);
    let bar = app.draw_search_bar(Coordinate::new(0, 2), 40).unwrap();
    assert_eq!(bar.caption.text, "Search:");
    assert_eq!(bar.caption.origin, Coordinate::new(0, 2));
    assert_eq!(bar.caption.width, 8);
    assert_eq!(bar.caption.style.foreground, Color::LightCyan);
    assert_eq!(bar.field.content.text, "geo");
    assert_eq!(bar.field.content.origin, Coordinate::new(8, 2));
    assert_eq!(bar.field.content.width, 32);
    assert_eq!(bar.field.content.style.foreground, Color::Yellow);
    assert_eq!(bar.field.cursor_cell, Coordinate::new(10, 2));
}

#[test]
fn output_name_is_on_blue_while_edited() {
    let mut app = app_with(&["a"]);
    let row = app.draw_output_name(Coordinate::new(50, 9), 30).unwrap();
    assert_eq!(row.caption.text, "Output Filename:");
    assert_eq!(row.caption.width, 17);
    assert_eq!(row.caption.style, Style::plain());
    assert_eq!(row.field.content.text, "combined_plot.png");
    assert_eq!(row.field.content.origin, Coordinate::new(67, 9));
    assert_eq!(row.field.content.width, 13);
    assert_eq!(
        row.field.content.style,
        Style { foreground: Color::White, background: Color::Default, bold: false }
    );
    app.handle_key(Key::Char('r'));
    let row = app.draw_output_name(Coordinate::new(50, 9), 30).unwrap();
    assert_eq!(
        row.field.content.style,
        Style { foreground: Color::White, background: Color::Blue, bold: false }
    );
}

#[test]
fn captioned_field_in_a_narrow_row_has_no_width_left() {
    let field = TextField::from_text("abc");
    let plain = Style::plain();
    let origin = Coordinate::new(0, 0);
    let row = draw_captioned_field(origin, 5, "Caption:", 9, plain, &field, plain).unwrap();
    assert_eq!(row.caption.width, 9);
    assert_eq!(row.field.content.width, 0);
    assert_eq!(row.field.content.origin, Coordinate::new(9, 0));
}

#[test]
fn captioned_field_off_the_grid_is_not_drawn() {
    let field = TextField { buffer: "abc".chars().collect(), cursor: 3 };
    let plain = Style::plain();
    let far = Coordinate::new(usize::MAX - 10, 0);
    // The cursor cell, three cells into the field, has to fit.
    assert!(draw_captioned_field(far, 10, "c", 8, plain, &field, plain).is_none());
    assert!(draw_captioned_field(far, 10, "c", 7, plain, &field, plain).is_some());
    assert!(draw_captioned_field(far, 10, "c", 9, plain, &field, plain).is_none());
    let low = Coordinate::new(0, usize::MAX);
    assert!(draw_captioned_field(low, 10, "c", 4, plain, &field, plain).is_none());
}

#[test]
fn commands_are_carried_out_in_the_current_mode() {
    let mut app = app_with(&["a", "b"]);
    assert_eq!(app.execute(Command::MoveDown), Flow::Continue);
    assert_eq!(app.list.selection(), 1);
    // A command that navigation has no use for changes nothing.
    assert_eq!(app.execute(Command::CancelOrBack), Flow::Continue);
    assert_eq!(app.execute(Command::Edit(Key::Char('x'))), Flow::Continue);
    assert_eq!(app.output_filename.text(), "combined_plot.png");
    assert_eq!(app.search_query.text(), "");
    assert_eq!(app.notification, Notification::SelectFiles);

    assert_eq!(app.execute(Command::StartFiltering), Flow::Continue);
    // While a field has the focus, navigation commands do nothing.
    assert_eq!(app.execute(Command::MoveUp), Flow::Continue);
    assert_eq!(app.execute(Command::Quit), Flow::Continue);
    assert_eq!(app.list.selection(), 1);
    assert_eq!(app.current_mode, AppMode::Searching);
    assert_eq!(app.execute(Command::Edit(Key::Char('b'))), Flow::Continue);
    assert_eq!(app.search_query.text(), "b");
}

#[test]
fn consistency_check_sees_broken_tables() {
    let mut app = app_with(&["a", "b"]);
    assert!(app.is_consistent());
    assert!(app.list.is_consistent());
    app.selected_files_status.pop();
    assert!(!app.is_consistent());

    let mut app = app_with(&["a", "b"]);
    app.current_color_index_for_assignment = 7;
    assert!(!app.is_consistent());

    let mut app = app_with(&["a", "b"]);
    app.left_pane_width_percentage = 95;
    assert!(!app.is_consistent());

    let mut app = app_with(&["a", "b"]);
    app.geojson_files.push(String::from("c"));
    assert!(!app.is_consistent());
}

#[test]
fn cancelling_a_first_filter_shows_every_file_again() {
    let mut app = app_with(&["alpha", "beta", "gamma"]);
    app.handle_key(Key::Char('/'));
    type_text(&mut app, "zz");
    app.prepare_frame(24);
    assert!(app.list.is_empty());
    app.handle_key(Key::Esc);
    assert_eq!(app.search_query.text(), "");
    assert_eq!(matches_of(&app), vec![0, 1, 2]);
}

#[test]
fn leaving_filtering_mode_recomputes_the_matches() {
    let mut app = app_with(&["alpha", "beta", "gamma"]);
    app.handle_key(Key::Char('/'));
    type_text(&mut app, "be");
    // No frame in between: the count is still that of the pattern as typed.
    app.handle_key(Key::Enter);
    assert_eq!(app.notification, Notification::FilterApplied { results: 1 });
    assert_eq!(matches_of(&app), vec![1]);
    assert_eq!(app.list.pattern(), "be");
}

#[test]
fn interrupt_aborts_before_the_event_is_handled() {
    let mut app = app_with(&["a", "b"]);
    app.handle_key(Key::Char(' '));
    let shown = app.notification;
    assert_eq!(app.step(true, Some(Event::Input(Key::Down))), Flow::Abort);
    assert_eq!(app.list.selection(), 0);
    assert_eq!(app.notification, shown);
    assert_eq!(app.step(true, None), Flow::Abort);
}

#[test]
fn step_without_interrupt_handles_the_event() {
    let mut app = app_with(&["a", "b"]);
    assert_eq!(app.step(false, None), Flow::Continue);
    assert_eq!(app.notification, Notification::SelectFiles);
    assert_eq!(app.step(false, Some(Event::Input(Key::Down))), Flow::Continue);
    assert_eq!(app.list.selection(), 1);
    assert_eq!(app.step(false, Some(Event::Tick)), Flow::Continue);
    assert_eq!(app.step(false, Some(Event::Input(Key::Char('q')))), Flow::Leave);
}

#[test]
fn geometries_belong_to_layers() {
    assert_eq!(geometry_layer(GeometryKind::Point), Some(LayerKind::Points));
    assert_eq!(geometry_layer(GeometryKind::MultiPoint), Some(LayerKind::Points));
    assert_eq!(geometry_layer(GeometryKind::LineString), Some(LayerKind::Lines));
    assert_eq!(geometry_layer(GeometryKind::MultiLineString), Some(LayerKind::Lines));
    assert_eq!(geometry_layer(GeometryKind::Polygon), Some(LayerKind::Polygons));
    assert_eq!(geometry_layer(GeometryKind::MultiPolygon), Some(LayerKind::Polygons));
    assert_eq!(geometry_layer(GeometryKind::GeometryCollection), None);
}

#[test]
fn hidden_layers_are_not_drawn() {
    let mut app = app_with(&["a"]);
    assert!(app.draws(GeometryKind::Point));
    assert!(app.draws(GeometryKind::MultiLineString));
    assert!(app.draws(GeometryKind::Polygon));
    assert!(!app.draws(GeometryKind::GeometryCollection));
    app.handle_key(Key::Char('l'));
    assert!(app.draws(GeometryKind::MultiPoint));
    assert!(!app.draws(GeometryKind::LineString));
    assert!(!app.draws(GeometryKind::MultiLineString));
    assert!(app.draws(GeometryKind::MultiPolygon));
    app.handle_key(Key::Char('p'));
    app.handle_key(Key::Char('o'));
    assert!(!app.draws(GeometryKind::Point));
    assert!(!app.draws(GeometryKind::Polygon));
}

#[test]
fn divider_is_light_red_while_dragged() {
    assert_eq!(paint_divider(true).background, Color::LightRed);
    assert_eq!(paint_divider(false).background, Color::DarkGray);
    assert_eq!(paint_divider(true).foreground, Color::Default);
    assert!(!paint_divider(true).bold);
}

//! The logical commands of the runtime, the keys bound to them, and the
//! layers of geometry that commands switch on and off.

use vstd::prelude::*;
use crate::app::AppMode;
use crate::input::Key;

verus! {

/// The kinds of geometry that can be shown or hidden.
#[derive(Clone, Copy, Debug, PartialEq, Eq, Structural)]
pub enum LayerKind {
    Points,
    Lines,
    Polygons,
}

/// The kinds of geometry that a file can hold.
#[derive(Clone, Copy, Debug, PartialEq, Eq, Structural)]
pub enum GeometryKind {
    Point,
    MultiPoint,
    LineString,
    MultiLineString,
    Polygon,
    MultiPolygon,
    GeometryCollection,
}

/// The layer that a geometry is drawn in: points with points, lines with
/// lines, polygons with polygons. A collection as such is not drawn.
pub open spec fn layer_of(kind: GeometryKind) -> Option<LayerKind> {
    match kind {
        GeometryKind::Point => Some(LayerKind::Points),
        GeometryKind::MultiPoint => Some(LayerKind::Points),
        GeometryKind::LineString => Some(LayerKind::Lines),
        GeometryKind::MultiLineString => Some(LayerKind::Lines),
        GeometryKind::Polygon => Some(LayerKind::Polygons),
        GeometryKind::MultiPolygon => Some(LayerKind::Polygons),
        GeometryKind::GeometryCollection => None,
    }
}

/// Finds the layer that a geometry is drawn in.
pub fn geometry_layer(kind: GeometryKind) -> (layer: Option<LayerKind>)
    ensures
        layer == layer_of(kind),
{
    match kind {
        GeometryKind::Point | GeometryKind::MultiPoint => Some(LayerKind::Points),
        GeometryKind::LineString | GeometryKind::MultiLineString => Some(LayerKind::Lines),
        GeometryKind::Polygon | GeometryKind::MultiPolygon => Some(LayerKind::Polygons),
        GeometryKind::GeometryCollection => None,
    }
}

/// A key press after the current mode gave it its meaning.
#[derive(Clone, Copy, Debug, PartialEq, Eq, Structural)]
pub enum Command {
    MoveUp,
    MoveDown,
    ToggleSelection,
    Confirm,
    CancelOrBack,
    StartEditingName,
    StartFiltering,
    CyclePaletteColor,
    ToggleLayerKind(LayerKind),
    ShowHelp,
    Quit,
    /// A key for the text field that has the focus.
    Edit(Key),
    /// A key with no meaning in the current mode.
    Ignore,
}

/// The command bound to `key` while browsing the list.
pub open spec fn navigation_binding(key: Key) -> Command {
    match key {
        Key::Down => Command::MoveDown,
        Key::Up => Command::MoveUp,
        Key::Enter => Command::Confirm,
        Key::Char(c) => if c == 'j' {
            Command::MoveDown
        } else if c == 'k' {
            Command::MoveUp
        } else if c == ' ' {
            Command::ToggleSelection
        } else if c == 'c' || c == 'C' {
            Command::CyclePaletteColor
        } else if c == 'r' || c == 'R' {
            Command::StartEditingName
        } else if c == '/' {
            Command::StartFiltering
        } else if c == 'p' || c == 'P' {
            Command::ToggleLayerKind(LayerKind::Points)
        } else if c == 'l' || c == 'L' {
            Command::ToggleLayerKind(LayerKind::Lines)
        } else if c == 'o' || c == 'O' {
            Command::ToggleLayerKind(LayerKind::Polygons)
        } else if c == 'q' || c == 'Q' {
            Command::Quit
        } else if c == 'h' || c == 'H' {
            Command::ShowHelp
        } else {
            Command::Ignore
        },
        _ => Command::Ignore,
    }
}

/// The command bound to `key` while a text field has the focus: Enter
/// confirms, Escape cancels, every other key goes to the field.
pub open spec fn editing_binding(key: Key) -> Command {
    match key {
        Key::Enter => Command::Confirm,
        Key::Esc => Command::CancelOrBack,
        _ => Command::Edit(key),
    }
}

/// The command bound to `key` in `mode`.
pub open spec fn binding(mode: AppMode, key: Key) -> Command {
    match mode {
        AppMode::Navigation => navigation_binding(key),
        AppMode::EditingFilename => editing_binding(key),
        AppMode::Searching => editing_binding(key),
    }
}

/// Gives `key` the meaning it has in `mode`.
pub fn command_for(mode: AppMode, key: Key) -> (command: Command)
    ensures
        command == binding(mode, key),
{
    match mode {
        AppMode::Navigation => match key {
            Key::Down => Command::MoveDown,
            Key::Up => Command::MoveUp,
            Key::Enter => Command::Confirm,
            Key::Char('j') => Command::MoveDown,
            Key::Char('k') => Command::MoveUp,
            Key::Char(' ') => Command::ToggleSelection,
            Key::Char('c') | Key::Char('C') => Command::CyclePaletteColor,
            Key::Char('r') | Key::Char('R') => Command::StartEditingName,
            Key::Char('/') => Command::StartFiltering,
            Key::Char('p') | Key::Char('P') => Command::ToggleLayerKind(LayerKind::Points),
            Key::Char('l') | Key::Char('L') => Command::ToggleLayerKind(LayerKind::Lines),
            Key::Char('o') | Key::Char('O') => Command::ToggleLayerKind(LayerKind::Polygons),
            Key::Char('q') | Key::Char('Q') => Command::Quit,
            Key::Char('h') | Key::Char('H') => Command::ShowHelp,
            _ => Command::Ignore,
        },
        AppMode::EditingFilename | AppMode::Searching => match key {
            Key::Enter => Command::Confirm,
            Key::Esc => Command::CancelOrBack,
            _ => Command::Edit(key),
        },
    }
}

} // verus!

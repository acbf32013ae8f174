//! What each key press does, given the mode the console is in.
use vstd::prelude::*;

use crate::state::{popped, without_last, ActiveView, AppState};
use crate::text::push_char;

verus! {

/// A key, as far as the console tells keys apart.
#[derive(Debug, Clone, Copy, PartialEq, Eq, Structural)]
pub enum Key {
    Char(char),
    Esc,
    Enter,
    Backspace,
    Up,
    Down,
    PageUp,
    PageDown,
    Other,
}

/// A key press: the key, and whether Control was held.
#[derive(Debug, Clone, Copy, PartialEq, Eq, Structural)]
pub struct KeyPress {
    pub key: Key,
    pub control: bool,
}

/// What a key press asks for.
#[derive(Debug, Clone, Copy, PartialEq, Eq, Structural)]
pub enum KeyAction {
    /// Leave the console.
    Quit,
    /// Nothing.
    Ignore,
    /// Close the command palette.
    ClosePalette,
    /// Remove the last character of the command.
    PopCommandChar,
    /// Add a character at the end of the command.
    PushCommandChar(char),
    /// Stop filtering.
    ClearFilterMode,
    /// Remove the last character of the filter.
    PopFilterChar,
    /// Add a character to the filter.
    AppendFilterChar(char),
    /// Start or stop editing the inspector.
    ToggleConfigEditorMode,
    /// Save the inspector into the selected row.
    SaveConfigEditor,
    /// Export the inspector to a file.
    ExportConfigEditor,
    /// Hand the key to the inspector's editor.
    ConfigEditorInput,
    /// Start or stop editing the metric query.
    ToggleMonitorQueryMode,
    /// Apply the metric query.
    ApplyMonitorQuery,
    /// Hand the key to the metric query's editor.
    MonitorQueryInput,
    /// Show a view.
    ActivateView(ActiveView),
    /// Move the selection.
    MoveSelection(i8),
    /// Scroll the reader.
    ScrollCurrent(i8),
    /// Refresh from the providers.
    RefreshAll,
    /// Start or stop filtering the current table.
    ToggleFilterMode,
    /// Open the palette when closed, close it when open.
    FlipPalette,
    /// Stop filtering and close the palette.
    ClearFilterAndPalette,
}

/// What a key press asks for, in the mode given by the palette being open,
/// a filter being typed, the inspector being edited and the metric query
/// being edited (in that order of precedence).
pub open spec fn key_action_of(
    palette_open: bool,
    filtering: bool,
    editing_config: bool,
    editing_query: bool,
    press: KeyPress,
) -> KeyAction {
    let ctrl = press.control;
    if palette_open {
        match press.key {
            Key::Esc => KeyAction::ClosePalette,
            Key::Backspace => KeyAction::PopCommandChar,
            Key::Char(c) => KeyAction::PushCommandChar(c),
            _ => KeyAction::Ignore,
        }
    } else if filtering {
        match press.key {
            Key::Esc | Key::Enter => KeyAction::ClearFilterMode,
            Key::Backspace => KeyAction::PopFilterChar,
            Key::Char(c) => if !ctrl {
                KeyAction::AppendFilterChar(c)
            } else {
                KeyAction::Ignore
            },
            _ => KeyAction::Ignore,
        }
    } else if editing_config {
        match press.key {
            Key::Esc => KeyAction::ToggleConfigEditorMode,
            Key::Char('s') if ctrl => KeyAction::SaveConfigEditor,
            Key::Char('e') if ctrl => KeyAction::ExportConfigEditor,
            _ => KeyAction::ConfigEditorInput,
        }
    } else if editing_query {
        match press.key {
            Key::Esc => KeyAction::ToggleMonitorQueryMode,
            Key::Enter => KeyAction::ApplyMonitorQuery,
            Key::Char('s') if ctrl => KeyAction::ApplyMonitorQuery,
            _ => KeyAction::MonitorQueryInput,
        }
    } else {
        match press.key {
            Key::Char('q') => KeyAction::Quit,
            Key::Char('c') if ctrl => KeyAction::Quit,
            Key::Char('1') => KeyAction::ActivateView(ActiveView::Documents),
            Key::Char('2') => KeyAction::ActivateView(ActiveView::Configs),
            Key::Char('3') => KeyAction::ActivateView(ActiveView::Worktree),
            Key::Char('4') => KeyAction::ActivateView(ActiveView::Monitoring),
            Key::Down | Key::Char('j') => KeyAction::MoveSelection(1),
            Key::Char('n') if ctrl => KeyAction::MoveSelection(1),
            Key::Up | Key::Char('k') => KeyAction::MoveSelection((-1) as i8),
            Key::Char('p') if ctrl => KeyAction::MoveSelection((-1) as i8),
            Key::PageDown => KeyAction::ScrollCurrent(8),
            Key::Char('n') => KeyAction::ScrollCurrent(8),
            Key::PageUp => KeyAction::ScrollCurrent((-8) as i8),
            Key::Char('p') => KeyAction::ScrollCurrent((-8) as i8),
            Key::Char('r') => KeyAction::RefreshAll,
            Key::Char('f') => KeyAction::ToggleFilterMode,
            Key::Char('m') => KeyAction::ToggleMonitorQueryMode,
            Key::Char('s') if ctrl => KeyAction::SaveConfigEditor,
            Key::Char('e') if ctrl => KeyAction::ExportConfigEditor,
            Key::Char('e') => KeyAction::ToggleConfigEditorMode,
            Key::Char('/') => KeyAction::FlipPalette,
            Key::Esc => KeyAction::ClearFilterAndPalette,
            _ => KeyAction::Ignore,
        }
    }
}

/// What a key press asks for, in the given modes (see `key_action_of`).
pub fn key_action_for(
    palette_open: bool,
    filtering: bool,
    editing_config: bool,
    editing_query: bool,
    press: KeyPress,
) -> (res: KeyAction)
    ensures
        res == key_action_of(palette_open, filtering, editing_config, editing_query, press),
{
    let ctrl = press.control;
    if palette_open {
        return match press.key {
            Key::Esc => KeyAction::ClosePalette,
            Key::Backspace => KeyAction::PopCommandChar,
            Key::Char(c) => KeyAction::PushCommandChar(c),
            _ => KeyAction::Ignore,
        };
    }
    if filtering {
        return match press.key {
            Key::Esc | Key::Enter => KeyAction::ClearFilterMode,
            Key::Backspace => KeyAction::PopFilterChar,
            Key::Char(c) => if !ctrl {
                KeyAction::AppendFilterChar(c)
            } else {
                KeyAction::Ignore
            },
            _ => KeyAction::Ignore,
        };
    }
    if editing_config {
        return match press.key {
            Key::Esc => KeyAction::ToggleConfigEditorMode,
            Key::Char('s') if ctrl => KeyAction::SaveConfigEditor,
            Key::Char('e') if ctrl => KeyAction::ExportConfigEditor,
            _ => KeyAction::ConfigEditorInput,
        };
    }
    if editing_query {
        return match press.key {
            Key::Esc => KeyAction::ToggleMonitorQueryMode,
            Key::Enter => KeyAction::ApplyMonitorQuery,
            Key::Char('s') if ctrl => KeyAction::ApplyMonitorQuery,
            _ => KeyAction::MonitorQueryInput,
        };
    }
    match press.key {
        Key::Char('q') => KeyAction::Quit,
        Key::Char('c') if ctrl => KeyAction::Quit,
        Key::Char('1') => KeyAction::ActivateView(ActiveView::Documents),
        Key::Char('2') => KeyAction::ActivateView(ActiveView::Configs),
        Key::Char('3') => KeyAction::ActivateView(ActiveView::Worktree),
        Key::Char('4') => KeyAction::ActivateView(ActiveView::Monitoring),
        Key::Down | Key::Char('j') => KeyAction::MoveSelection(1),
        Key::Char('n') if ctrl => KeyAction::MoveSelection(1),
        Key::Up | Key::Char('k') => KeyAction::MoveSelection(-1),
        Key::Char('p') if ctrl => KeyAction::MoveSelection(-1),
        Key::PageDown => KeyAction::ScrollCurrent(8),
        Key::Char('n') => KeyAction::ScrollCurrent(8),
        Key::PageUp => KeyAction::ScrollCurrent(-8),
        Key::Char('p') => KeyAction::ScrollCurrent(-8),
        Key::Char('r') => KeyAction::RefreshAll,
        Key::Char('f') => KeyAction::ToggleFilterMode,
        Key::Char('m') => KeyAction::ToggleMonitorQueryMode,
        Key::Char('s') if ctrl => KeyAction::SaveConfigEditor,
        Key::Char('e') if ctrl => KeyAction::ExportConfigEditor,
        Key::Char('e') => KeyAction::ToggleConfigEditorMode,
        Key::Char('/') => KeyAction::FlipPalette,
        Key::Esc => KeyAction::ClearFilterAndPalette,
        _ => KeyAction::Ignore,
    }
}

impl AppState {
    /// What a key press asks for in the console's current mode.
    pub fn key_action(&self, press: KeyPress) -> (res: KeyAction)
        ensures
            res == key_action_of(
                self.command_palette_open,
                self.config_filter_mode,
                self.config_editor_mode,
                self.monitor_query_mode,
                press,
            ),
    {
        key_action_for(
            self.command_palette_open,
            self.config_filter_mode,
            self.config_editor_mode,
            self.monitor_query_mode,
            press,
        )
    }

    /// Adds a character at the end of the command (the cursor stays).
    pub fn push_command_char(&mut self, character: char)
        ensures
            final(self).command_query@ == old(self).command_query@.push(character),
            *final(self) == (AppState { command_query: final(self).command_query, ..*old(self) }),
    {
        push_char(&mut self.command_query, character);
    }

    /// Removes the last character of the command, if any (the cursor
    /// stays).
    pub fn pop_command_char(&mut self)
        ensures
            final(self).command_query@ == without_last(old(self).command_query@),
            *final(self) == (AppState { command_query: final(self).command_query, ..*old(self) }),
    {
        self.command_query = popped(&self.command_query);
    }

    /// Opens the palette when closed, closes it when open (the cursor
    /// stays).
    pub fn flip_command_palette(&mut self)
        ensures
            *final(self) == (AppState {
                command_palette_open: !old(self).command_palette_open,
                ..*old(self)
            }),
    {
        self.command_palette_open = !self.command_palette_open;
    }
}

} // verus!

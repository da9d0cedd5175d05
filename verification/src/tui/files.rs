//! The file browser: where it stands in the tree, what is selected at each
//! level, the filter line, and what a key does to them.

use vstd::prelude::*;
use crate::command::{Command, CommandModel};
use crate::tui::Key;
use crate::text::{pop_char, push_char};
use crate::value::clone_strings;

verus! {

/// The number of rows that `PageUp` and `PageDown` move by.
pub const PAGE: usize = 25;

/// The model of a [`FilterState`].
pub enum FilterModel {
    Disabled,
    Active { input: Seq<char>, selected: bool },
}

/// The filter line: absent, or holding a text that is being edited
/// (`selected`) or applied.
#[derive(Debug)]
pub enum FilterState {
    Disabled,
    Active { input: String, selected: bool },
}

impl View for FilterState {
    type V = FilterModel;

    open spec fn view(&self) -> FilterModel {
        match self {
            FilterState::Disabled => FilterModel::Disabled,
            FilterState::Active { input, selected } => FilterModel::Active {
                input: input@,
                selected: *selected,
            },
        }
    }
}

/// The model of a [`Picked`].
pub enum PickedModel {
    File(Seq<char>),
    Directory(Seq<char>),
}

/// The entry under the selection: its kind and its name.
#[derive(Debug)]
pub enum Picked {
    File(String),
    Directory(String),
}

impl View for Picked {
    type V = PickedModel;

    open spec fn view(&self) -> PickedModel {
        match self {
            Picked::File(name) => PickedModel::File(name@),
            Picked::Directory(name) => PickedModel::Directory(name@),
        }
    }
}

impl DeepView for Picked {
    type V = PickedModel;

    open spec fn deep_view(&self) -> PickedModel {
        self@
    }
}

/// The model of a [`Files`].
pub struct FilesModel {
    pub path: Seq<Seq<char>>,
    pub selected: Seq<usize>,
    pub filter: FilterModel,
}

/// A browser state together with the command that the step to it sends.
pub struct FilesStep {
    pub state: FilesModel,
    pub command: Option<CommandModel>,
}

/// The last row of a list of `count` rows, and the first of an empty one.
pub open spec fn last_row(count: usize) -> usize {
    if count == 0 {
        0
    } else {
        (count - 1) as usize
    }
}

/// The row `by` rows down from `row`, and the last row where that is
/// beyond it.
pub open spec fn row_down(row: usize, by: usize, count: usize) -> usize {
    if row + by <= last_row(count) {
        (row + by) as usize
    } else {
        last_row(count)
    }
}

/// The row `by` rows up from `row`, and the first row where that is
/// before it.
pub open spec fn row_up(row: usize, by: usize) -> usize {
    if row >= by {
        (row - by) as usize
    } else {
        0
    }
}

impl FilesModel {
    /// The state with the selection of the current level at `row`.
    pub open spec fn select(self, row: usize) -> FilesModel {
        if self.selected.len() == 0 {
            self
        } else {
            FilesModel {
                selected: self.selected.update(self.selected.len() - 1, row),
                ..self
            }
        }
    }

    /// The selected row of the current level.
    pub open spec fn row(self) -> usize {
        if self.selected.len() == 0 {
            0
        } else {
            self.selected.last()
        }
    }

    /// The step that sends `command` and changes nothing.
    pub open spec fn send(self, command: CommandModel) -> FilesStep {
        FilesStep { state: self, command: Some(command) }
    }

    /// The step to `self` that sends nothing.
    pub open spec fn quiet(self) -> FilesStep {
        FilesStep { state: self, command: None }
    }

    /// What a key does while the list has the keyboard, where the list shows
    /// `count` rows and `picked` is the entry under the selection.
    pub open spec fn browse(self, key: Key, ctrl: bool, count: usize, picked: Option<PickedModel>) -> FilesStep {
        match key {
            Key::Char(c) => if c == 'f' && ctrl {
                FilesModel {
                    filter: FilterModel::Active { input: Seq::empty(), selected: true },
                    ..self
                }.quiet()
            } else if c == ' ' {
                self.send(CommandModel::PlayPause)
            } else if c == 'n' {
                self.send(CommandModel::Skip)
            } else if c == 's' {
                self.send(CommandModel::Stop)
            } else if c == 'c' {
                self.send(CommandModel::Clear)
            } else {
                self.quiet()
            },
            Key::Up => self.select(row_up(self.row(), 1)).quiet(),
            Key::Down => self.select(row_down(self.row(), 1, count)).quiet(),
            Key::PageUp => self.select(row_up(self.row(), PAGE)).quiet(),
            Key::PageDown => self.select(row_down(self.row(), PAGE, count)).quiet(),
            Key::End => self.select(last_row(count)).quiet(),
            Key::Home => self.select(0).quiet(),
            Key::Enter => match picked {
                Some(PickedModel::File(name)) => self.send(
                    CommandModel::Enqueue(self.path.push(name)),
                ),
                Some(PickedModel::Directory(name)) => FilesModel {
                    path: self.path.push(name),
                    selected: self.selected.push(0),
                    ..self
                }.quiet(),
                None => self.quiet(),
            },
            Key::Backspace => if self.path.len() > 1 {
                FilesModel {
                    path: self.path.drop_last(),
                    selected: if self.selected.len() > 0 {
                        self.selected.drop_last()
                    } else {
                        self.selected
                    },
                    ..self
                }.quiet()
            } else {
                self.quiet()
            },
            _ => self.quiet(),
        }
    }

    /// What a key does: with no filter line, or one that is applied, it goes
    /// to the list; while the filter line is edited it changes the text.
    /// `Esc` removes the filter line.
    pub open spec fn input(self, key: Key, ctrl: bool, count: usize, picked: Option<PickedModel>) -> FilesStep {
        match self.filter {
            FilterModel::Disabled => self.browse(key, ctrl, count, picked),
            FilterModel::Active { input, selected } => match key {
                Key::Esc => FilesModel { filter: FilterModel::Disabled, ..self }.quiet(),
                _ => if selected {
                    match key {
                        Key::Enter => FilesModel {
                            filter: FilterModel::Active { input, selected: false },
                            ..self
                        }.quiet(),
                        Key::Char(c) => FilesModel {
                            filter: FilterModel::Active { input: input.push(c), selected },
                            ..self
                        }.quiet(),
                        Key::Backspace => FilesModel {
                            filter: FilterModel::Active {
                                input: if input.len() > 0 {
                                    input.drop_last()
                                } else {
                                    input
                                },
                                selected,
                            },
                            ..self
                        }.quiet(),
                        _ => self.quiet(),
                    }
                } else if key == Key::Char('f') && ctrl {
                    FilesModel {
                        filter: FilterModel::Active { input, selected: true },
                        ..self
                    }.quiet()
                } else {
                    self.browse(key, ctrl, count, picked)
                },
            },
        }
    }

    /// The state with the selection brought back into a list of `count`
    /// rows.
    pub open spec fn clamp(self, count: usize) -> FilesModel {
        if self.selected.len() > 0 && self.selected.last() >= count {
            self.select(last_row(count))
        } else {
            self
        }
    }
}

/// The first row to show of `len` rows in an area `height` rows high, so
/// that the selected row stays in sight: the top while the list fits or the
/// selection is in the upper half of the area, then half an area above the
/// selection, and near the end a fixed last page.
pub open spec fn table_offset(selected: usize, len: usize, height: usize) -> int {
    if len <= height {
        0
    } else if selected > height / 2 {
        if selected < len + 1 - height / 2 {
            selected - height / 2
        } else {
            len + 2 - height
        }
    } else {
        0
    }
}

/// The first row to show of a table; see [`table_offset`]. An offset
/// beyond what a machine word holds is given as the largest that it holds.
pub fn offset_for(selected: usize, len: usize, height: usize) -> (offset: usize)
    ensures
        offset == if table_offset(selected, len, height) <= usize::MAX {
            table_offset(selected, len, height)
        } else {
            usize::MAX as int
        },
{
    if len <= height {
        0
    } else if selected > height / 2 {
        if selected <= len - height / 2 {
            selected - height / 2
        } else if len - height > usize::MAX - 2 {
            usize::MAX
        } else {
            len - height + 2
        }
    } else {
        0
    }
}

/// The file browser.
#[derive(Debug)]
pub struct Files {
    /// The components of the directory shown.
    pub path: Vec<String>,
    /// The selected row at each level entered, the current level last.
    pub selected: Vec<usize>,
    pub filter: FilterState,
}

impl View for Files {
    type V = FilesModel;

    open spec fn view(&self) -> FilesModel {
        FilesModel { path: self.path.deep_view(), selected: self.selected@, filter: self.filter@ }
    }
}

impl Files {
    /// A browser that shows the directory with the components `root`, with
    /// its first row selected and no filter.
    pub fn new(root: Vec<String>) -> (files: Files)
        ensures
            files@.path == root.deep_view(),
            files@.selected == seq![0usize],
            files@.filter is Disabled,
    {
        let mut selected: Vec<usize> = Vec::new();
        selected.push(0);
        assert(selected@ =~= seq![0usize]);
        Files { path: root, selected, filter: FilterState::Disabled }
    }

    /// The selected row of the current level.
    pub fn row(&self) -> (row: usize)
        ensures
            row == self@.row(),
    {
        let n: usize = self.selected.len();
        if n == 0 {
            0
        } else {
            self.selected[n - 1]
        }
    }

    /// The row to show as selected in a list of `count` rows: the selected
    /// row, and the last row where the selection is beyond it.
    pub fn shown_row(&self, count: usize) -> (row: usize)
        ensures
            row == if self@.row() <= last_row(count) {
                self@.row()
            } else {
                last_row(count)
            },
    {
        let row: usize = self.row();
        let last: usize = if count == 0 {
            0
        } else {
            count - 1
        };
        if row <= last {
            row
        } else {
            last
        }
    }

    fn select(&mut self, row: usize)
        ensures
            final(self)@ == old(self)@.select(row),
    {
        let n: usize = self.selected.len();
        if n > 0 {
            self.selected.set(n - 1, row);
        }
    }

    fn row_down(row: usize, by: usize, count: usize) -> (to: usize)
        ensures
            to == row_down(row, by, count),
    {
        let last: usize = if count == 0 {
            0
        } else {
            count - 1
        };
        if row <= last && by <= last - row {
            row + by
        } else {
            last
        }
    }

    fn row_up(row: usize, by: usize) -> (to: usize)
        ensures
            to == row_up(row, by),
    {
        if row >= by {
            row - by
        } else {
            0
        }
    }

    /// Takes a key while the list has the keyboard. `count` is the number
    /// of rows that the list shows and `picked` the entry under the
    /// selection.
    pub fn input_files(&mut self, key: Key, ctrl: bool, count: usize, picked: Option<Picked>) -> (command:
        Option<Command>)
        ensures
            final(self)@ == old(self)@.browse(key, ctrl, count, picked.deep_view()).state,
            command.deep_view() == old(self)@.browse(key, ctrl, count, picked.deep_view()).command,
    {
        let ghost before = self@;
        match key {
            Key::Char(c) => {
                if c == 'f' && ctrl {
                    self.filter = FilterState::Active { input: String::new(), selected: true };
                    None
                } else if c == ' ' {
                    Some(Command::PlayPause)
                } else if c == 'n' {
                    Some(Command::Skip)
                } else if c == 's' {
                    Some(Command::Stop)
                } else if c == 'c' {
                    Some(Command::Clear)
                } else {
                    None
                }
            },
            Key::Up => {
                let to: usize = Files::row_up(self.row(), 1);
                self.select(to);
                None
            },
            Key::Down => {
                let to: usize = Files::row_down(self.row(), 1, count);
                self.select(to);
                None
            },
            Key::PageUp => {
                let to: usize = Files::row_up(self.row(), PAGE);
                self.select(to);
                None
            },
            Key::PageDown => {
                let to: usize = Files::row_down(self.row(), PAGE, count);
                self.select(to);
                None
            },
            Key::End => {
                let to: usize = Files::row_down(0, usize::MAX, count);
                self.select(to);
                None
            },
            Key::Home => {
                self.select(0);
                None
            },
            Key::Enter => match picked {
                Some(Picked::File(name)) => {
                    let mut path = clone_strings(&self.path);
                    path.push(name);
                    assert(path.deep_view() =~= before.path.push(name@));
                    Some(Command::Enqueue(path))
                },
                Some(Picked::Directory(name)) => {
                    self.path.push(name);
                    self.selected.push(0);
                    assert(self.path.deep_view() =~= before.path.push(name@));
                    None
                },
                None => None,
            },
            Key::Backspace => {
                if self.path.len() > 1 {
                    self.path.pop();
                    self.selected.pop();
                    assert(self.path.deep_view() =~= before.path.drop_last());
                    assert(self.selected@ =~= if before.selected.len() > 0 {
                        before.selected.drop_last()
                    } else {
                        before.selected
                    });
                }
                None
            },
            _ => None,
        }
    }

    /// Takes a key.
    pub fn input(&mut self, key: Key, ctrl: bool, count: usize, picked: Option<Picked>) -> (command:
        Option<Command>)
        ensures
            final(self)@ == old(self)@.input(key, ctrl, count, picked.deep_view()).state,
            command.deep_view() == old(self)@.input(key, ctrl, count, picked.deep_view()).command,
    {
        let editing: Option<bool> = match &self.filter {
            FilterState::Disabled => None,
            FilterState::Active { selected, .. } => Some(*selected),
        };
        match editing {
            None => self.input_files(key, ctrl, count, picked),
            Some(selected) => {
                match key {
                    Key::Esc => {
                        self.filter = FilterState::Disabled;
                        None
                    },
                    _ => {
                        if selected {
                            match &mut self.filter {
                                FilterState::Active { input, selected } => {
                                    match key {
                                        Key::Enter => {
                                            *selected = false;
                                        },
                                        Key::Char(c) => {
                                            push_char(input, c);
                                        },
                                        Key::Backspace => {
                                            pop_char(input);
                                        },
                                        _ => {},
                                    }
                                },
                                FilterState::Disabled => {},
                            }
                            None
                        } else {
                            let again = match key {
                                Key::Char(c) => c == 'f' && ctrl,
                                _ => false,
                            };
                            if again {
                                match &mut self.filter {
                                    FilterState::Active { selected, .. } => {
                                        *selected = true;
                                    },
                                    FilterState::Disabled => {},
                                }
                                None
                            } else {
                                self.input_files(key, ctrl, count, picked)
                            }
                        }
                    },
                }
            },
        }
    }

    /// Brings the selection back into a list of `count` rows, after the
    /// list has changed.
    pub fn clamp(&mut self, count: usize)
        ensures
            final(self)@ == old(self)@.clamp(count),
    {
        let n: usize = self.selected.len();
        if n > 0 && self.selected[n - 1] >= count {
            let to: usize = Files::row_down(0, usize::MAX, count);
            self.select(to);
        }
    }
}

} // verus!

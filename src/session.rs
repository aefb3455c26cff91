use vstd::prelude::*;

use toml_edit::DocumentMut;

use crate::catalog::{entries_view, ThemeEntry};
use crate::error::ConfigError;
use crate::imports::{
    add_theme_import, document_text, import_entry, imports_after, other_entries, reference_of,
    text_besides_import,
};
use crate::themes::{advanced, retreated, selection_of, SelectionModel, ThemesTab};

verus! {

/// The tabs of the picker.
#[derive(Debug, Clone, Copy, PartialEq, Eq, Structural)]
pub enum AppTab {
    Themes,
}

/// A key press, as the picker tells keys apart.
#[derive(Debug, Clone, Copy, PartialEq, Eq, Structural)]
pub enum Key {
    Up,
    Down,
    Enter,
    Char(char),
    Other,
}

/// What the caller is to do after a key press.
#[derive(Debug, Clone, Copy, PartialEq, Eq, Structural)]
pub enum Action {
    /// Redraw and wait for the next key.
    Nothing,
    /// Leave without saving anything.
    Quit,
    /// Record the highlighted theme in the configuration and save it.
    Confirm,
}

/// The state of the interactive picker.
pub struct App {
    exit: bool,
    selected_tab: AppTab,
    themes: ThemesTab,
}

/// The abstract value of an `App`.
pub struct AppModel {
    pub exit: bool,
    pub selected_tab: AppTab,
    pub selection: SelectionModel,
}

/// The key that leaves the picker: `q`.
pub open spec fn is_quit_key(key: Key) -> bool {
    key == Key::Char('q')
}

/// Keys that move the highlight up: the up arrow and `k`.
pub open spec fn is_up_key(key: Key) -> bool {
    key == Key::Up || key == Key::Char('k')
}

/// Keys that move the highlight down: the down arrow and `j`.
pub open spec fn is_down_key(key: Key) -> bool {
    key == Key::Down || key == Key::Char('j')
}

impl View for App {
    type V = AppModel;

    closed spec fn view(&self) -> AppModel {
        AppModel { exit: self.exit, selected_tab: self.selected_tab, selection: self.themes@ }
    }
}

impl App {
    /// The highlight lies inside the theme list.
    pub closed spec fn wf(&self) -> bool {
        self.themes.wf()
    }

    /// A running picker over `themes`, on the themes tab, with the first
    /// theme highlighted.
    pub fn init(themes: Vec<ThemeEntry>) -> (r: Self)
        ensures
            r.wf(),
            !r@.exit,
            r@.selected_tab == AppTab::Themes,
            r@.selection == (SelectionModel { themes: entries_view(themes@), cursor: 0 }),
    {
        App { exit: false, selected_tab: AppTab::Themes, themes: ThemesTab::init(themes) }
    }

    /// Marks the picker as finished.
    pub fn exit(&mut self)
        ensures
            final(self)@ == (AppModel { exit: true, ..old(self)@ }),
            final(self).wf() == old(self).wf(),
    {
        self.exit = true;
    }

    /// Whether the picker is still waiting for keys.
    pub fn is_running(&self) -> (r: bool)
        ensures
            r == !self@.exit,
    {
        !self.exit
    }

    /// The theme list and its highlight.
    pub fn themes(&self) -> (r: &ThemesTab)
        requires
            self.wf(),
        ensures
            r.wf(),
            r@ == self@.selection,
    {
        &self.themes
    }

    /// The highlighted theme, or nothing when there are no themes.
    pub fn current_selection(&self) -> (r: Option<&ThemeEntry>)
        requires
            self.wf(),
        ensures
            r matches Some(e) ==> selection_of(self@.selection) == Some(e@),
            r is None ==> selection_of(self@.selection) is None,
    {
        self.themes.current_selection()
    }

    /// Reacts to one key press: `q` finishes the picker, the arrows
    /// and `k`/`j` move the highlight, Enter asks for the highlighted theme to
    /// be recorded (when there is one); any other key is ignored.
    pub fn handle_key_event(&mut self, key: Key) -> (r: Action)
        requires
            old(self).wf(),
        ensures
            final(self).wf(),
            final(self)@.selected_tab == old(self)@.selected_tab,
            is_quit_key(key) ==> r == Action::Quit && final(self)@ == (AppModel {
                exit: true,
                ..old(self)@
            }),
            is_up_key(key) ==> r == Action::Nothing && final(self)@ == (AppModel {
                selection: retreated(old(self)@.selection),
                ..old(self)@
            }),
            is_down_key(key) ==> r == Action::Nothing && final(self)@ == (AppModel {
                selection: advanced(old(self)@.selection),
                ..old(self)@
            }),
            key == Key::Enter ==> final(self)@ == old(self)@ && r == (if selection_of(
                old(self)@.selection,
            ) is Some {
                Action::Confirm
            } else {
                Action::Nothing
            }),
            !is_quit_key(key) && !is_up_key(key) && !is_down_key(key) && key != Key::Enter
                ==> r == Action::Nothing && final(self)@ == old(self)@,
    {
        match key {
            Key::Up => {
                self.themes.retreat();
                Action::Nothing
            },
            Key::Down => {
                self.themes.advance();
                Action::Nothing
            },
            Key::Enter => {
                if self.themes.current_selection().is_some() {
                    Action::Confirm
                } else {
                    Action::Nothing
                }
            },
            Key::Char(c) => {
                if c == 'q' {
                    self.exit();
                    Action::Quit
                } else if c == 'k' {
                    self.themes.retreat();
                    Action::Nothing
                } else if c == 'j' {
                    self.themes.advance();
                    Action::Nothing
                } else {
                    Action::Nothing
                }
            },
            Key::Other => Action::Nothing,
        }
    }

    /// Records the highlighted theme in `doc` as
    /// `<themes_base_dir>/<name>.toml` and hands back the text to save. With no
    /// theme highlighted nothing changes and there is nothing to save; a
    /// malformed `import` entry gives `MalformedDocument`.
    pub fn confirm(&self, doc: &mut DocumentMut, themes_base_dir: &str)
        -> (r: Result<Option<String>, ConfigError>)
        requires
            self.wf(),
        ensures
            selection_of(self@.selection) is None ==> r == Ok::<Option<String>, ConfigError>(None)
                && *final(doc) == *old(doc),
            selection_of(self@.selection) matches Some(t) ==> {
                &&& import_entry(*final(doc)) == imports_after(
                    import_entry(*old(doc)),
                    reference_of(themes_base_dir@, t.name),
                )
                &&& other_entries(*final(doc)) == other_entries(*old(doc))
                &&& text_besides_import(*final(doc)) == text_besides_import(*old(doc))
                &&& (r is Err <==> import_entry(*old(doc)) == Some(None::<Seq<Seq<char>>>))
                &&& (r is Err ==> r == Err::<Option<String>, ConfigError>(
                    ConfigError::MalformedDocument,
                ))
                &&& (r is Ok ==> (r matches Ok(Some(text)) && text@ == document_text(*final(doc))))
            },
    {
        match self.themes.current_selection() {
            None => Ok(None),
            Some(entry) => {
                match add_theme_import(doc, entry.name.as_str(), themes_base_dir) {
                    Ok(()) => Ok(Some(crate::imports::render_config(doc))),
                    Err(e) => Err(e),
                }
            },
        }
    }
}

} // verus!

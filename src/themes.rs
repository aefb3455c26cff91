use vstd::prelude::*;

use crate::catalog::{entries_view, ThemeEntry, ThemeModel};

verus! {

/// The theme list with its highlighted entry. Moving the highlight saturates
/// at both ends of the list rather than wrapping around.
pub struct ThemesTab {
    themes: Vec<ThemeEntry>,
    counter: usize,
}

/// The abstract value of a `ThemesTab`.
pub struct SelectionModel {
    pub themes: Seq<ThemeModel>,
    pub cursor: nat,
}

/// The selection after moving down one entry; the last entry stays put.
pub open spec fn advanced(m: SelectionModel) -> SelectionModel {
    if m.cursor + 1 < m.themes.len() {
        SelectionModel { cursor: m.cursor + 1, ..m }
    } else {
        m
    }
}

/// The selection after moving up one entry; the first entry stays put.
pub open spec fn retreated(m: SelectionModel) -> SelectionModel {
    if m.cursor > 0 {
        SelectionModel { cursor: (m.cursor - 1) as nat, ..m }
    } else {
        m
    }
}

/// The highlighted theme, none when the list is empty.
pub open spec fn selection_of(m: SelectionModel) -> Option<ThemeModel> {
    if m.themes.len() == 0 {
        None
    } else {
        Some(m.themes[m.cursor as int])
    }
}

impl View for ThemesTab {
    type V = SelectionModel;

    closed spec fn view(&self) -> SelectionModel {
        SelectionModel { themes: entries_view(self.themes@), cursor: self.counter as nat }
    }
}

impl ThemesTab {
    /// The cursor lies inside the list, or at 0 when the list is empty.
    pub open spec fn wf(&self) -> bool {
        self@.cursor == 0 || self@.cursor < self@.themes.len()
    }

    /// A selection over `themes` with the first entry highlighted.
    pub fn init(themes: Vec<ThemeEntry>) -> (r: Self)
        ensures
            r.wf(),
            r@.themes == entries_view(themes@),
            r@.cursor == 0,
    {
        ThemesTab { themes, counter: 0 }
    }

    /// Moves the highlight one entry down, staying on the last one.
    pub fn advance(&mut self)
        requires
            old(self).wf(),
        ensures
            final(self).wf(),
            final(self)@ == advanced(old(self)@),
    {
        if self.counter < self.themes.len() && self.counter + 1 < self.themes.len() {
            self.counter = self.counter + 1;
        }
    }

    /// Moves the highlight one entry up, staying on the first one; on an
    /// empty list nothing happens.
    pub fn retreat(&mut self)
        requires
            old(self).wf(),
        ensures
            final(self).wf(),
            final(self)@ == retreated(old(self)@),
    {
        if self.counter > 0 {
            self.counter = self.counter - 1;
        }
    }

    /// The highlighted theme, or nothing when the list is empty.
    pub fn current_selection(&self) -> (r: Option<&ThemeEntry>)
        requires
            self.wf(),
        ensures
            r matches Some(e) ==> selection_of(self@) == Some(e@),
            r is None ==> selection_of(self@) is None,
    {
        if self.counter < self.themes.len() {
            Some(&self.themes[self.counter])
        } else {
            None
        }
    }

    /// The position of the highlighted theme.
    pub fn selected_index(&self) -> (r: usize)
        ensures
            r == self@.cursor,
    {
        self.counter
    }

    /// The themes, in catalog order.
    pub fn themes(&self) -> (r: &Vec<ThemeEntry>)
        ensures
            entries_view(r@) == self@.themes,
    {
        &self.themes
    }
}

} // verus!

//! The state of the object preview page and its help tables.

use vstd::prelude::*;
use vstd::string::StringExecFns;

use crate::item::{FileDetail, RawObject};

verus! {

/// The input line of the save-as dialog.
#[derive(Debug, PartialEq, Eq)]
pub struct SaveDialogState {
    pub input: String,
}

/// Whether the preview page shows only the preview or the save-as dialog
/// on top of it.
#[derive(Debug, PartialEq, Eq)]
pub enum PreviewViewState {
    Plain,
    SaveDialog(SaveDialogState),
}

/// The preview page: the previewed object, the metadata of the file it
/// belongs to, the download path it was opened with, and the dialog state.
#[derive(Debug)]
pub struct ObjectPreviewPage {
    pub file_detail: FileDetail,
    pub object: RawObject,
    pub path: String,
    pub view_state: PreviewViewState,
}

impl ObjectPreviewPage {
    pub fn new(file_detail: FileDetail, object: RawObject, path: String) -> (r: ObjectPreviewPage)
        ensures
            r.file_detail == file_detail,
            r.object == object,
            r.path == path,
            r.view_state == PreviewViewState::Plain,
    {
        ObjectPreviewPage { file_detail, object, path, view_state: PreviewViewState::Plain }
    }

    /// Open the save-as dialog with an empty input line.
    pub fn open_save_dialog(&mut self)
        ensures
            final(self).view_state matches PreviewViewState::SaveDialog(s) && s.input@
                == Seq::<char>::empty(),
            final(self).file_detail == old(self).file_detail,
            final(self).object == old(self).object,
            final(self).path == old(self).path,
    {
        self.view_state = PreviewViewState::SaveDialog(SaveDialogState { input: String::new() });
    }

    /// Close the save-as dialog.
    pub fn close_save_dialog(&mut self)
        ensures
            final(self).view_state == PreviewViewState::Plain,
            final(self).file_detail == old(self).file_detail,
            final(self).object == old(self).object,
            final(self).path == old(self).path,
    {
        self.view_state = PreviewViewState::Plain;
    }

    pub fn file_detail(&self) -> (r: &FileDetail)
        ensures
            *r == self.file_detail,
    {
        &self.file_detail
    }

    /// The text in the save-as dialog, when it is open.
    pub fn save_dialog_key_input(&self) -> (r: Option<String>)
        ensures
            match r {
                Some(input) => self.view_state matches PreviewViewState::SaveDialog(s) && input
                    == s.input,
                None => self.view_state == PreviewViewState::Plain,
            },
    {
        match &self.view_state {
            PreviewViewState::SaveDialog(state) => Some(state.input.clone()),
            PreviewViewState::Plain => None,
        }
    }

    pub fn object(&self) -> (r: &RawObject)
        ensures
            *r == self.object,
    {
        &self.object
    }

    pub fn path(&self) -> (r: &str)
        ensures
            r@ == self.path@,
    {
        self.path.as_str()
    }

    /// The help lines of the page, one per key binding, for the state the
    /// page is in.
    pub fn helps(&self) -> (r: Vec<String>)
        ensures
            self.view_state is Plain ==> {
                &&& r@.len() == 6
                &&& r@[0]@ == "Esc/Ctrl-c: Quit app"@
                &&& r@[1]@ == "j/k: Scroll forward/backward"@
                &&& r@[2]@ == "g/G: Scroll to top/end"@
                &&& r@[3]@ == "Backspace: Close preview"@
                &&& r@[4]@ == "s: Download object"@
                &&& r@[5]@ == "S: Download object as"@
            },
            self.view_state is SaveDialog ==> {
                &&& r@.len() == 3
                &&& r@[0]@ == "Ctrl-c: Quit app"@
                &&& r@[1]@ == "Esc: Close save dialog"@
                &&& r@[2]@ == "Enter: Download object"@
            },
    {
        let mut r: Vec<String> = Vec::new();
        match &self.view_state {
            PreviewViewState::Plain => {
                r.push(String::from_str("Esc/Ctrl-c: Quit app"));
                r.push(String::from_str("j/k: Scroll forward/backward"));
                r.push(String::from_str("g/G: Scroll to top/end"));
                r.push(String::from_str("Backspace: Close preview"));
                r.push(String::from_str("s: Download object"));
                r.push(String::from_str("S: Download object as"));
            },
            PreviewViewState::SaveDialog(_) => {
                r.push(String::from_str("Ctrl-c: Quit app"));
                r.push(String::from_str("Esc: Close save dialog"));
                r.push(String::from_str("Enter: Download object"));
            },
        }
        r
    }

    /// The footer help entries of the page, each with the priority used
    /// when the footer runs out of room.
    pub fn short_helps(&self) -> (r: Vec<(String, usize)>)
        ensures
            self.view_state is Plain ==> {
                &&& r@.len() == 6
                &&& r@[0].0@ == "Esc: Quit"@ && r@[0].1 == 0
                &&& r@[1].0@ == "j/k: Scroll"@ && r@[1].1 == 2
                &&& r@[2].0@ == "g/G: Top/End"@ && r@[2].1 == 4
                &&& r@[3].0@ == "s/S: Download"@ && r@[3].1 == 3
                &&& r@[4].0@ == "Backspace: Close"@ && r@[4].1 == 2
                &&& r@[5].0@ == "?: Help"@ && r@[5].1 == 0
            },
            self.view_state is SaveDialog ==> {
                &&& r@.len() == 3
                &&& r@[0].0@ == "Esc: Close"@ && r@[0].1 == 2
                &&& r@[1].0@ == "Enter: Download"@ && r@[1].1 == 1
                &&& r@[2].0@ == "?: Help"@ && r@[2].1 == 0
            },
    {
        let mut r: Vec<(String, usize)> = Vec::new();
        match &self.view_state {
            PreviewViewState::Plain => {
                r.push((String::from_str("Esc: Quit"), 0));
                r.push((String::from_str("j/k: Scroll"), 2));
                r.push((String::from_str("g/G: Top/End"), 4));
                r.push((String::from_str("s/S: Download"), 3));
                r.push((String::from_str("Backspace: Close"), 2));
                r.push((String::from_str("?: Help"), 0));
            },
            PreviewViewState::SaveDialog(_) => {
                r.push((String::from_str("Esc: Close"), 2));
                r.push((String::from_str("Enter: Download"), 1));
                r.push((String::from_str("?: Help"), 0));
            },
        }
        r
    }
}

} // verus!

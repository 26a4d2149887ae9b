//! Notes and the interface state around them: selection, reordering,
//! renaming, deletion, scrolling, and the command dispatcher. All of it
//! is plain state logic; reading the clock, the editor widget, and the
//! disk stays with the caller, which performs the `Effect` each
//! dispatch returns.

use vstd::prelude::*;
use vstd::view::View as ViewTrait;
use crate::commands::{Command, Key, View};
use crate::strutil;
use crate::strutil::drop_last_safe;
use crate::theme::{spec_dark_theme, AppTheme};

verus! {

/// One note: its text, its timestamps (seconds since the epoch), and
/// its position in the ordered list.
#[derive(Debug)]
pub struct Note {
    pub title: String,
    pub content: String,
    pub created_at: i64,
    pub updated_at: i64,
    pub selected: bool,
    pub order: usize,
}

/// The mathematical value of a note.
#[verifier::ext_equal]
pub ghost struct NoteV {
    pub title: Seq<char>,
    pub content: Seq<char>,
    pub created_at: i64,
    pub updated_at: i64,
    pub selected: bool,
    pub order: usize,
}

impl ViewTrait for Note {
    type V = NoteV;

    open spec fn view(&self) -> NoteV {
        NoteV {
            title: self.title@,
            content: self.content@,
            created_at: self.created_at,
            updated_at: self.updated_at,
            selected: self.selected,
            order: self.order,
        }
    }
}

/// The views of a sequence of notes.
pub open spec fn notes_view(v: Seq<Note>) -> Seq<NoteV> {
    v.map_values(|n: Note| n@)
}

/// The interface state: the notes, the selection, and the small flags
/// that drive the rename and delete flows.
pub struct AppState {
    pub notes: Vec<Note>,
    pub selected: usize,
    pub preview_scroll_offset: usize,
    pub current_view: View,
    pub theme: AppTheme,
    pub rename_buffer: String,
    pub creating_new_note: bool,
    pub confirm_delete: bool,
}

/// The mathematical value of the interface state.
#[verifier::ext_equal]
pub ghost struct AppStateV {
    pub notes: Seq<NoteV>,
    pub selected: usize,
    pub preview_scroll_offset: usize,
    pub current_view: View,
    pub theme: AppTheme,
    pub rename_buffer: Seq<char>,
    pub creating_new_note: bool,
    pub confirm_delete: bool,
}

impl ViewTrait for AppState {
    type V = AppStateV;

    open spec fn view(&self) -> AppStateV {
        AppStateV {
            notes: notes_view(self.notes@),
            selected: self.selected,
            preview_scroll_offset: self.preview_scroll_offset,
            current_view: self.current_view,
            theme: self.theme,
            rename_buffer: self.rename_buffer@,
            creating_new_note: self.creating_new_note,
            confirm_delete: self.confirm_delete,
        }
    }
}

/// The initial state: no notes, the first slot selected, the live
/// preview showing, the dark theme.
pub open spec fn spec_init_state() -> AppStateV {
    AppStateV {
        notes: Seq::empty(),
        selected: 0,
        preview_scroll_offset: 0,
        current_view: View::LivePreview,
        theme: spec_dark_theme(),
        rename_buffer: Seq::empty(),
        creating_new_note: false,
        confirm_delete: false,
    }
}

// ------------------------------------------------------------------
// Spec transitions
// ------------------------------------------------------------------
/// Selection moves down one note, wrapping at the end.
pub open spec fn spec_select_next(s: AppStateV) -> AppStateV {
    AppStateV {
        selected: if s.notes.len() == 0 {
            0
        } else if s.selected + 1 >= s.notes.len() {
            0
        } else {
            (s.selected + 1) as usize
        },
        ..s
    }
}

/// Selection moves up one note, wrapping at the start.
pub open spec fn spec_select_previous(s: AppStateV) -> AppStateV {
    AppStateV {
        selected: if s.notes.len() == 0 {
            0
        } else if s.selected == 0 {
            (s.notes.len() - 1) as usize
        } else {
            (s.selected - 1) as usize
        },
        ..s
    }
}

/// Whether the selected note has a neighbor above to swap with.
pub open spec fn spec_can_move_up(s: AppStateV) -> bool {
    0 < s.selected < s.notes.len()
}

/// The selected note trades places and order values with the one above
/// it; the selection follows the note.
pub open spec fn spec_move_note_up(s: AppStateV) -> AppStateV {
    if spec_can_move_up(s) {
        let sel = s.selected as int;
        let a = s.notes[sel];
        let b = s.notes[sel - 1];
        AppStateV {
            notes: s.notes.update(sel - 1, NoteV { order: b.order, ..a }).update(
                sel,
                NoteV { order: a.order, ..b },
            ),
            selected: (s.selected - 1) as usize,
            ..s
        }
    } else {
        s
    }
}

/// Whether the selected note has a neighbor below to swap with.
pub open spec fn spec_can_move_down(s: AppStateV) -> bool {
    s.notes.len() > 0 && s.selected + 1 < s.notes.len()
}

/// The selected note trades places and order values with the one below
/// it; the selection follows the note.
pub open spec fn spec_move_note_down(s: AppStateV) -> AppStateV {
    if spec_can_move_down(s) {
        let sel = s.selected as int;
        let a = s.notes[sel];
        let b = s.notes[sel + 1];
        AppStateV {
            notes: s.notes.update(sel, NoteV { order: a.order, ..b }).update(
                sel + 1,
                NoteV { order: b.order, ..a },
            ),
            selected: (s.selected + 1) as usize,
            ..s
        }
    } else {
        s
    }
}

/// Scrolling down moves the preview by five lines, only while a
/// preview is showing, and never past the machine bound.
pub open spec fn spec_scroll_down(s: AppStateV) -> AppStateV {
    if s.current_view == View::Preview || s.current_view == View::LivePreview {
        AppStateV {
            preview_scroll_offset: if s.preview_scroll_offset + 5 <= usize::MAX {
                (s.preview_scroll_offset + 5) as usize
            } else {
                usize::MAX
            },
            ..s
        }
    } else {
        s
    }
}

/// Scrolling up moves the preview back by five lines, stopping at the
/// top, only while a preview is showing.
pub open spec fn spec_scroll_up(s: AppStateV) -> AppStateV {
    if (s.current_view == View::Preview || s.current_view == View::LivePreview)
        && s.preview_scroll_offset > 0 {
        AppStateV {
            preview_scroll_offset: if s.preview_scroll_offset >= 5 {
                (s.preview_scroll_offset - 5) as usize
            } else {
                0
            },
            ..s
        }
    } else {
        s
    }
}

/// Renaming starts from the selected note's title.
pub open spec fn spec_start_rename(s: AppStateV) -> AppStateV {
    if s.selected < s.notes.len() {
        AppStateV {
            rename_buffer: s.notes[s.selected as int].title,
            current_view: View::Rename,
            ..s
        }
    } else {
        s
    }
}

/// Cancelling a rename clears the buffer and returns to the preview.
pub open spec fn spec_cancel_rename(s: AppStateV) -> AppStateV {
    AppStateV { rename_buffer: Seq::empty(), current_view: View::LivePreview, ..s }
}

/// Creating a note opens the rename dialog over an empty buffer.
pub open spec fn spec_create_new_note(s: AppStateV) -> AppStateV {
    AppStateV {
        current_view: View::Rename,
        rename_buffer: Seq::empty(),
        creating_new_note: true,
        ..s
    }
}

/// A keystroke in the rename dialog: characters append, backspace
/// removes the last character, everything else is ignored.
pub open spec fn spec_rename_input(s: AppStateV, key: Key) -> AppStateV {
    match key {
        Key::Char(c) => AppStateV { rename_buffer: s.rename_buffer.push(c), ..s },
        Key::Backspace => AppStateV { rename_buffer: drop_last_safe(s.rename_buffer), ..s },
        _ => s,
    }
}

/// The editor's text becomes the selected note's content, stamped with
/// the current time.
pub open spec fn spec_save_editor_content(s: AppStateV, content: Seq<char>, now: i64) -> AppStateV {
    if s.selected < s.notes.len() {
        AppStateV {
            notes: s.notes.update(
                s.selected as int,
                NoteV { content, updated_at: now, ..s.notes[s.selected as int] },
            ),
            ..s
        }
    } else {
        s
    }
}

/// The largest order value among the notes, zero when there are none.
pub open spec fn spec_max_order(notes: Seq<NoteV>) -> nat
    decreases notes.len(),
{
    if notes.len() == 0 {
        0
    } else {
        let m = spec_max_order(notes.drop_last());
        if notes.last().order >= m {
            notes.last().order as nat
        } else {
            m
        }
    }
}

/// A count bumped without ever wrapping.
pub open spec fn spec_bump_usize(n: nat) -> usize {
    if n < usize::MAX {
        (n + 1) as usize
    } else {
        usize::MAX
    }
}

/// Deletion of the selected note, gated on the confirmation flag:
/// the note leaves the list, the order values above it close ranks,
/// and the selection is clamped; deleting the last note opens the
/// new-note dialog. Returns the deleted title for the store.
pub open spec fn spec_delete_current(s: AppStateV) -> (AppStateV, Option<Seq<char>>) {
    if !s.confirm_delete {
        (s, None)
    } else {
        let s1 = AppStateV { confirm_delete: false, ..s };
        if s.notes.len() == 0 || s.selected >= s.notes.len() {
            (s1, None)
        } else {
            let sel = s.selected as int;
            let title = s.notes[sel].title;
            let threshold = s.notes[sel].order;
            let adjusted = s.notes.remove(sel).map_values(
                |n: NoteV|
                    if n.order > threshold {
                        NoteV { order: (n.order - 1) as usize, ..n }
                    } else {
                        n
                    },
            );
            let s2 = AppStateV { notes: adjusted, ..s1 };
            let s3 = if adjusted.len() == 0 {
                spec_create_new_note(s2)
            } else if s.selected >= adjusted.len() {
                AppStateV { selected: (adjusted.len() - 1) as usize, ..s2 }
            } else {
                s2
            };
            (s3, Some(title))
        }
    }
}

/// What a submitted rename did: nothing, a new note was created, or
/// the note with the returned old title was renamed.
#[derive(Debug)]
pub enum RenameOutcome {
    Nothing,
    Created,
    Renamed(String),
}

/// The mathematical value of a rename outcome.
pub ghost enum RenameOutcomeV {
    Nothing,
    Created,
    Renamed(Seq<char>),
}

impl ViewTrait for RenameOutcome {
    type V = RenameOutcomeV;

    open spec fn view(&self) -> RenameOutcomeV {
        match self {
            RenameOutcome::Nothing => RenameOutcomeV::Nothing,
            RenameOutcome::Created => RenameOutcomeV::Created,
            RenameOutcome::Renamed(t) => RenameOutcomeV::Renamed(t@),
        }
    }
}

/// Submitting the rename buffer: an empty buffer does nothing; while
/// creating, a new note with the buffered title goes to the end of the
/// order; otherwise the selected note takes the buffered title. Either
/// way the dialog closes into the live preview.
pub open spec fn spec_submit_rename(s: AppStateV, now: i64) -> (AppStateV, RenameOutcomeV) {
    if s.rename_buffer.len() == 0 {
        (s, RenameOutcomeV::Nothing)
    } else {
        let s1 = AppStateV { rename_buffer: Seq::empty(), ..s };
        if s.current_view != View::Rename {
            (s1, RenameOutcomeV::Nothing)
        } else if s.creating_new_note {
            let new_note = NoteV {
                title: s.rename_buffer,
                content: Seq::empty(),
                created_at: now,
                updated_at: now,
                selected: false,
                order: spec_bump_usize(spec_max_order(s.notes)),
            };
            (
                AppStateV {
                    notes: s1.notes.push(new_note),
                    selected: s.notes.len() as usize,
                    current_view: View::LivePreview,
                    ..s1
                },
                RenameOutcomeV::Created,
            )
        } else if s.selected < s.notes.len() {
            let sel = s.selected as int;
            let old_title = s.notes[sel].title;
            (
                AppStateV {
                    notes: s.notes.update(
                        sel,
                        NoteV { title: s.rename_buffer, updated_at: now, ..s.notes[sel] },
                    ),
                    current_view: View::LivePreview,
                    ..s1
                },
                RenameOutcomeV::Renamed(old_title),
            )
        } else {
            (AppStateV { current_view: View::LivePreview, ..s1 }, RenameOutcomeV::Nothing)
        }
    }
}

/// The age label of a note created at `created_at`, seen at `now`
/// (both in seconds): "just now" under a minute, then minutes, hours
/// and days; `None` once a week has passed, when a calendar date
/// should be shown instead. A creation time in the future counts as
/// "just now".
pub fn age_label(now: i64, created_at: i64) -> (r: Option<String>)
    ensures
        ({
            let d = now - created_at;
            &&& d < 60 ==> r is Some && r.unwrap()@ == "just now"@
            &&& (60 <= d && d / 60 < 60) ==> r is Some && r.unwrap()@ == strutil::spec_decimal(
                (d / 60) as nat,
            ) + "m ago"@
            &&& (d / 60 >= 60 && d / 3600 < 24) ==> r is Some && r.unwrap()@
                == strutil::spec_decimal((d / 3600) as nat) + "h ago"@
            &&& (d / 3600 >= 24 && d / 86400 < 7) ==> r is Some && r.unwrap()@
                == strutil::spec_decimal((d / 86400) as nat) + "d ago"@
            &&& d / 86400 >= 7 ==> r is None
        }),
{
    let wide: i128 = now as i128 - created_at as i128;
    if wide < 60 {
        return Some("just now".to_owned());
    }
    let d: u64 = wide as u64;
    proof {
        assert(d == now - created_at);
    }
    if d / 60 < 60 {
        Some(strutil::u64_to_decimal(d / 60).concat("m ago"))
    } else if d / 3600 < 24 {
        Some(strutil::u64_to_decimal(d / 3600).concat("h ago"))
    } else if d / 86400 < 7 {
        Some(strutil::u64_to_decimal(d / 86400).concat("d ago"))
    } else {
        None
    }
}

/// What the caller must do after a dispatch: nothing, quit, reload the
/// editor from the selected note, or persist a change to the store.
#[derive(Debug)]
pub enum Effect {
    Nothing,
    Quit,
    /// The selection changed: load the selected note into the editor.
    SyncEditor,
    /// Write the selected note to the store.
    PersistCurrent,
    /// Two neighboring notes swapped: write both and reload the editor.
    PersistSwap,
    /// Delete the note with this title from the store, write the order
    /// updates, and reload the editor.
    DeleteStored(String),
    /// A new note was appended: write it.
    PersistNew,
    /// The selected note was renamed from this old title: rename it in
    /// the store.
    RenameStored(String),
}

/// The mathematical value of an effect.
pub ghost enum EffectV {
    Nothing,
    Quit,
    SyncEditor,
    PersistCurrent,
    PersistSwap,
    DeleteStored(Seq<char>),
    PersistNew,
    RenameStored(Seq<char>),
}

impl ViewTrait for Effect {
    type V = EffectV;

    open spec fn view(&self) -> EffectV {
        match self {
            Effect::Nothing => EffectV::Nothing,
            Effect::Quit => EffectV::Quit,
            Effect::SyncEditor => EffectV::SyncEditor,
            Effect::PersistCurrent => EffectV::PersistCurrent,
            Effect::PersistSwap => EffectV::PersistSwap,
            Effect::DeleteStored(t) => EffectV::DeleteStored(t@),
            Effect::PersistNew => EffectV::PersistNew,
            Effect::RenameStored(t) => EffectV::RenameStored(t@),
        }
    }
}

/// Dispatch of one command over the state: the next state and the
/// effect the caller owes.
pub open spec fn spec_execute_command(s: AppStateV, command: Command, now: i64) -> (
    AppStateV,
    EffectV,
) {
    match command {
        Command::Quit => (s, EffectV::Quit),
        Command::NextNote => (spec_select_next(s), EffectV::SyncEditor),
        Command::PreviousNote => (spec_select_previous(s), EffectV::SyncEditor),
        Command::SwitchView(v) => (AppStateV { current_view: v, ..s }, EffectV::Nothing),
        Command::NewNote => (spec_create_new_note(s), EffectV::Nothing),
        Command::SaveNote => (s, EffectV::PersistCurrent),
        Command::DeleteNote => if s.current_view == View::DeleteConfirm {
            let pair = spec_delete_current(AppStateV { confirm_delete: true, ..s });
            (
                AppStateV { current_view: View::LivePreview, ..pair.0 },
                match pair.1 {
                    Some(t) => EffectV::DeleteStored(t),
                    None => EffectV::Nothing,
                },
            )
        } else {
            (
                AppStateV { current_view: View::DeleteConfirm, confirm_delete: false, ..s },
                EffectV::Nothing,
            )
        },
        Command::ScrollDown => (spec_scroll_down(s), EffectV::Nothing),
        Command::ScrollUp => (spec_scroll_up(s), EffectV::Nothing),
        Command::RenameNote => (spec_start_rename(s), EffectV::Nothing),
        Command::SubmitRename => {
            let pair = spec_submit_rename(s, now);
            (
                pair.0,
                match pair.1 {
                    RenameOutcomeV::Nothing => EffectV::Nothing,
                    RenameOutcomeV::Created => EffectV::PersistNew,
                    RenameOutcomeV::Renamed(t) => EffectV::RenameStored(t),
                },
            )
        },
        Command::CancelRename => if s.current_view == View::DeleteConfirm {
            (AppStateV { current_view: View::LivePreview, ..s }, EffectV::Nothing)
        } else {
            (spec_cancel_rename(s), EffectV::Nothing)
        },
        Command::MoveNoteUp => (
            spec_move_note_up(s),
            if spec_can_move_up(s) {
                EffectV::PersistSwap
            } else {
                EffectV::Nothing
            },
        ),
        Command::MoveNoteDown => (
            spec_move_note_down(s),
            if spec_can_move_down(s) {
                EffectV::PersistSwap
            } else {
                EffectV::Nothing
            },
        ),
    }
}

impl Default for AppState {
    /// The initial state.
    fn default() -> (s: AppState)
        ensures
            s@ == spec_init_state(),
    {
        let s = AppState {
            notes: Vec::new(),
            selected: 0,
            preview_scroll_offset: 0,
            current_view: View::LivePreview,
            theme: AppTheme::dark(),
            rename_buffer: String::new(),
            creating_new_note: false,
            confirm_delete: false,
        };
        proof {
            assert(s@ =~= spec_init_state());
        }
        s
    }
}

impl AppState {
    pub fn select_next_note(&mut self)
        ensures
            final(self)@ == spec_select_next(old(self)@),
    {
        let len = self.notes.len();
        self.selected = if len == 0 {
            0
        } else if self.selected >= len - 1 {
            0
        } else {
            self.selected + 1
        };
        proof {
            assert(self@ =~= spec_select_next(old(self)@));
        }
    }

    pub fn select_previous_note(&mut self)
        ensures
            final(self)@ == spec_select_previous(old(self)@),
    {
        let len = self.notes.len();
        self.selected = if len == 0 {
            0
        } else if self.selected == 0 {
            len - 1
        } else {
            self.selected - 1
        };
        proof {
            assert(self@ =~= spec_select_previous(old(self)@));
        }
    }

    pub fn move_note_up(&mut self) -> (moved: bool)
        ensures
            final(self)@ == spec_move_note_up(old(self)@),
            moved == spec_can_move_up(old(self)@),
    {
        let sel = self.selected;
        if sel == 0 || sel >= self.notes.len() {
            proof {
                assert(self@ =~= spec_move_note_up(old(self)@));
            }
            return false;
        }
        let mut a = self.notes.remove(sel);
        let mut b = self.notes.remove(sel - 1);
        let a_order = a.order;
        a.order = b.order;
        b.order = a_order;
        self.notes.insert(sel - 1, a);
        self.notes.insert(sel, b);
        self.selected = sel - 1;
        proof {
            assert(notes_view(self.notes@) =~= spec_move_note_up(old(self)@).notes);
            assert(self@ =~= spec_move_note_up(old(self)@));
        }
        true
    }

    pub fn move_note_down(&mut self) -> (moved: bool)
        ensures
            final(self)@ == spec_move_note_down(old(self)@),
            moved == spec_can_move_down(old(self)@),
    {
        let sel = self.selected;
        if self.notes.len() == 0 || sel >= self.notes.len() - 1 {
            proof {
                assert(self@ =~= spec_move_note_down(old(self)@));
            }
            return false;
        }
        let mut b = self.notes.remove(sel + 1);
        let mut a = self.notes.remove(sel);
        let a_order = a.order;
        a.order = b.order;
        b.order = a_order;
        self.notes.insert(sel, b);
        self.notes.insert(sel + 1, a);
        self.selected = sel + 1;
        proof {
            assert(notes_view(self.notes@) =~= spec_move_note_down(old(self)@).notes);
            assert(self@ =~= spec_move_note_down(old(self)@));
        }
        true
    }

    pub fn start_rename(&mut self)
        ensures
            final(self)@ == spec_start_rename(old(self)@),
    {
        if self.selected < self.notes.len() {
            self.rename_buffer = self.notes[self.selected].title.clone();
            self.current_view = View::Rename;
        }
        proof {
            assert(self@ =~= spec_start_rename(old(self)@));
        }
    }

    pub fn cancel_rename(&mut self)
        ensures
            final(self)@ == spec_cancel_rename(old(self)@),
    {
        self.rename_buffer = String::new();
        self.current_view = View::LivePreview;
        proof {
            assert(self@ =~= spec_cancel_rename(old(self)@));
        }
    }

    pub fn create_new_note(&mut self)
        ensures
            final(self)@ == spec_create_new_note(old(self)@),
    {
        self.current_view = View::Rename;
        self.rename_buffer = String::new();
        self.creating_new_note = true;
        proof {
            assert(self@ =~= spec_create_new_note(old(self)@));
        }
    }

    pub fn handle_rename_input(&mut self, key: Key)
        ensures
            final(self)@ == spec_rename_input(old(self)@, key),
    {
        match key {
            Key::Char(c) => {
                strutil::push_char(&mut self.rename_buffer, c);
                proof {
                    assert(self@ =~= spec_rename_input(old(self)@, key));
                }
            },
            Key::Backspace => {
                let _ = strutil::pop_char(&mut self.rename_buffer);
                proof {
                    assert(self@ =~= spec_rename_input(old(self)@, key));
                }
            },
            _ => {
                proof {
                    assert(self@ =~= spec_rename_input(old(self)@, key));
                }
            },
        }
    }

    /// Stores the editor's text into the selected note.
    pub fn save_editor_content(&mut self, content: String, now: i64)
        ensures
            final(self)@ == spec_save_editor_content(old(self)@, content@, now),
    {
        let sel = self.selected;
        if sel < self.notes.len() {
            let mut note = self.notes.remove(sel);
            note.content = content;
            note.updated_at = now;
            self.notes.insert(sel, note);
            proof {
                assert(notes_view(self.notes@) =~= spec_save_editor_content(
                    old(self)@,
                    content@,
                    now,
                ).notes);
            }
        }
        proof {
            assert(self@ =~= spec_save_editor_content(old(self)@, content@, now));
        }
    }

    /// Deletes the selected note if the deletion was confirmed, and
    /// returns the deleted title so the caller can delete it from the
    /// store.
    pub fn delete_current_note(&mut self) -> (r: Option<String>)
        ensures
            final(self)@ == spec_delete_current(old(self)@).0,
            r is Some <==> spec_delete_current(old(self)@).1 is Some,
            r is Some ==> r.unwrap()@ == spec_delete_current(old(self)@).1.unwrap(),
    {
        if !self.confirm_delete {
            proof {
                assert(self@ =~= spec_delete_current(old(self)@).0);
            }
            return None;
        }
        self.confirm_delete = false;
        let sel = self.selected;
        if self.notes.len() == 0 || sel >= self.notes.len() {
            proof {
                assert(self@ =~= spec_delete_current(old(self)@).0);
            }
            return None;
        }
        let removed = self.notes.remove(sel);
        let title = removed.title;
        let threshold = removed.order;
        let ghost base = notes_view(self.notes@);
        proof {
            assert(base =~= notes_view(old(self).notes@).remove(sel as int));
        }
        let n = self.notes.len();
        let mut j: usize = 0;
        while j < n
            invariant
                j <= n,
                n == self.notes@.len(),
                notes_view(self.notes@).len() == base.len(),
                n == base.len(),
                forall|t: int|
                    0 <= t < j ==> notes_view(self.notes@)[t] == (if base[t].order > threshold {
                        NoteV { order: (base[t].order - 1) as usize, ..base[t] }
                    } else {
                        base[t]
                    }),
                forall|t: int| j <= t < n ==> notes_view(self.notes@)[t] == base[t],
                self.selected == sel,
                self.confirm_delete == false,
                self.preview_scroll_offset == old(self).preview_scroll_offset,
                self.current_view == old(self).current_view,
                self.theme == old(self).theme,
                self.rename_buffer@ == old(self).rename_buffer@,
                self.creating_new_note == old(self).creating_new_note,
            decreases n - j,
        {
            let ghost prevv = notes_view(self.notes@);
            if self.notes[j].order > threshold {
                let mut note = self.notes.remove(j);
                note.order = note.order - 1;
                self.notes.insert(j, note);
                proof {
                    assert(notes_view(self.notes@) =~= prevv.update(
                        j as int,
                        NoteV { order: (base[j as int].order - 1) as usize, ..base[j as int] },
                    ));
                }
            }
            j = j + 1;
        }
        proof {
            assert(notes_view(self.notes@) =~= base.map_values(
                |nv: NoteV|
                    if nv.order > threshold {
                        NoteV { order: (nv.order - 1) as usize, ..nv }
                    } else {
                        nv
                    },
            ));
        }
        if self.notes.len() == 0 {
            self.create_new_note();
        } else if sel >= self.notes.len() {
            self.selected = self.notes.len() - 1;
        }
        proof {
            assert(self@ =~= spec_delete_current(old(self)@).0);
        }
        Some(title)
    }

    /// Submits the rename buffer: creates the pending note or renames
    /// the selected one, and says which the caller must persist.
    pub fn submit_rename(&mut self, now: i64) -> (r: RenameOutcome)
        ensures
            final(self)@ == spec_submit_rename(old(self)@, now).0,
            r@ == spec_submit_rename(old(self)@, now).1,
    {
        if self.rename_buffer.as_str().unicode_len() == 0 {
            proof {
                assert(self@ =~= spec_submit_rename(old(self)@, now).0);
            }
            return RenameOutcome::Nothing;
        }
        let new_title = self.rename_buffer.clone();
        self.rename_buffer = String::new();
        if self.current_view != View::Rename {
            proof {
                assert(self@ =~= spec_submit_rename(old(self)@, now).0);
            }
            return RenameOutcome::Nothing;
        }
        if self.creating_new_note {
            let k = self.notes.len();
            let mut max: usize = 0;
            let mut i: usize = 0;
            proof {
                assert(notes_view(self.notes@).subrange(0, 0) =~= Seq::<NoteV>::empty());
            }
            while i < k
                invariant
                    i <= k,
                    k == self.notes@.len(),
                    max == spec_max_order(notes_view(self.notes@).subrange(0, i as int)),
                decreases k - i,
            {
                let ghost views = notes_view(self.notes@);
                if self.notes[i].order > max {
                    max = self.notes[i].order;
                }
                proof {
                    assert(views.subrange(0, i + 1).drop_last() =~= views.subrange(0, i as int));
                    assert(views.subrange(0, i + 1).last() == views[i as int]);
                }
                i = i + 1;
            }
            proof {
                assert(notes_view(self.notes@).subrange(0, k as int) =~= notes_view(self.notes@));
            }
            let order: usize = if max < usize::MAX {
                max + 1
            } else {
                max
            };
            let note = Note {
                title: new_title,
                content: String::new(),
                created_at: now,
                updated_at: now,
                selected: false,
                order,
            };
            let new_sel = self.notes.len();
            self.notes.push(note);
            self.selected = new_sel;
            self.current_view = View::LivePreview;
            proof {
                assert(notes_view(self.notes@) =~= spec_submit_rename(old(self)@, now).0.notes);
                assert(self@ =~= spec_submit_rename(old(self)@, now).0);
            }
            RenameOutcome::Created
        } else if self.selected < self.notes.len() {
            let sel = self.selected;
            let mut note = self.notes.remove(sel);
            let old_title = note.title.clone();
            note.title = new_title;
            note.updated_at = now;
            self.notes.insert(sel, note);
            self.current_view = View::LivePreview;
            proof {
                assert(notes_view(self.notes@) =~= spec_submit_rename(old(self)@, now).0.notes);
                assert(self@ =~= spec_submit_rename(old(self)@, now).0);
            }
            RenameOutcome::Renamed(old_title)
        } else {
            self.current_view = View::LivePreview;
            proof {
                assert(self@ =~= spec_submit_rename(old(self)@, now).0);
            }
            RenameOutcome::Nothing
        }
    }

    /// Executes one command against the state and returns the effect
    /// the caller owes (the clock is passed in as `now`).
    pub fn execute_command(&mut self, command: Command, now: i64) -> (e: Effect)
        ensures
            final(self)@ == spec_execute_command(old(self)@, command, now).0,
            e@ == spec_execute_command(old(self)@, command, now).1,
    {
        match command {
            Command::Quit => Effect::Quit,
            Command::NextNote => {
                self.select_next_note();
                Effect::SyncEditor
            },
            Command::PreviousNote => {
                self.select_previous_note();
                Effect::SyncEditor
            },
            Command::SwitchView(v) => {
                self.current_view = v;
                proof {
                    assert(self@ =~= spec_execute_command(old(self)@, command, now).0);
                }
                Effect::Nothing
            },
            Command::NewNote => {
                self.create_new_note();
                Effect::Nothing
            },
            Command::SaveNote => Effect::PersistCurrent,
            Command::DeleteNote => {
                if self.current_view == View::DeleteConfirm {
                    self.confirm_delete = true;
                    proof {
                        assert(self@ =~= (AppStateV { confirm_delete: true, ..old(self)@ }));
                    }
                    let deleted = self.delete_current_note();
                    self.current_view = View::LivePreview;
                    proof {
                        assert(self@ =~= spec_execute_command(old(self)@, command, now).0);
                    }
                    match deleted {
                        Some(t) => Effect::DeleteStored(t),
                        None => Effect::Nothing,
                    }
                } else {
                    self.current_view = View::DeleteConfirm;
                    self.confirm_delete = false;
                    proof {
                        assert(self@ =~= spec_execute_command(old(self)@, command, now).0);
                    }
                    Effect::Nothing
                }
            },
            Command::ScrollDown => {
                if self.current_view == View::Preview || self.current_view == View::LivePreview {
                    self.preview_scroll_offset = if self.preview_scroll_offset <= usize::MAX - 5 {
                        self.preview_scroll_offset + 5
                    } else {
                        usize::MAX
                    };
                }
                proof {
                    assert(self@ =~= spec_scroll_down(old(self)@));
                }
                Effect::Nothing
            },
            Command::ScrollUp => {
                if (self.current_view == View::Preview || self.current_view == View::LivePreview)
                    && self.preview_scroll_offset > 0 {
                    self.preview_scroll_offset = if self.preview_scroll_offset >= 5 {
                        self.preview_scroll_offset - 5
                    } else {
                        0
                    };
                }
                proof {
                    assert(self@ =~= spec_scroll_up(old(self)@));
                }
                Effect::Nothing
            },
            Command::RenameNote => {
                self.start_rename();
                Effect::Nothing
            },
            Command::SubmitRename => {
                let r = self.submit_rename(now);
                match r {
                    RenameOutcome::Nothing => Effect::Nothing,
                    RenameOutcome::Created => Effect::PersistNew,
                    RenameOutcome::Renamed(t) => Effect::RenameStored(t),
                }
            },
            Command::CancelRename => {
                if self.current_view == View::DeleteConfirm {
                    self.current_view = View::LivePreview;
                    proof {
                        assert(self@ =~= spec_execute_command(old(self)@, command, now).0);
                    }
                } else {
                    self.cancel_rename();
                }
                Effect::Nothing
            },
            Command::MoveNoteUp => {
                let moved = self.move_note_up();
                if moved {
                    Effect::PersistSwap
                } else {
                    Effect::Nothing
                }
            },
            Command::MoveNoteDown => {
                let moved = self.move_note_down();
                if moved {
                    Effect::PersistSwap
                } else {
                    Effect::Nothing
                }
            },
        }
    }
}

} // verus!

//! State of the graphical application that does not depend on drawing, and its decisions:
//! for each message from the database thread or the widgets, each hotkey press and each
//! answer to a prompt, how the state changes and what is to be sent or shown. Drawing,
//! the channels and the file dialogs are not part of the library.
use vstd::prelude::*;

use crate::bins::gui::backend::{BackendMessageView, ToBackend, ToFrontend};
use crate::bins::gui::hotkey::{HotkeyState, Hotkeys};
use crate::bins::gui::settings::AppSettings;
use crate::bins::gui::widgets::{
    opt_note_view, with_note_loaded, NoteEditor, NoteEditorView, NoteList, ToApp, ToastKind,
};
use crate::types::error::prefixed;
use crate::types::id::Id;
use crate::types::note::{notes_view, Note, NoteView};
use crate::types::note_dto::CreateNote;
use crate::types::text::to_owned_string;

verus! {

/// Where the deletion of a note stands: nothing asked (`Idle`), the user asked to confirm the
/// deletion of a note, or the user confirmed it.
#[derive(Clone, Copy, Debug, PartialEq, Eq, Structural)]
pub enum DeletingState {
    Idle,
    Prompting(Id),
    Confirmed(Id),
}

impl DeletingState {
    /// The name of the confirmation prompt.
    pub const DELETE_PROMPT_NAME: &'static str = "confirm_delete";

    /// Confirms the deletion being asked about; nothing changes where none is.
    pub fn confirm(&mut self)
        ensures
            *old(self) matches DeletingState::Prompting(id) ==> *final(self) == DeletingState::Confirmed(id),
            !(*old(self) is Prompting) ==> *final(self) == *old(self),
    {
        if let DeletingState::Prompting(id) = *self {
            *self = DeletingState::Confirmed(id);
        }
    }

    /// Cancels the deletion being asked about; nothing changes where none is.
    pub fn cancel(&mut self)
        ensures
            *old(self) is Prompting ==> *final(self) == DeletingState::Idle,
            !(*old(self) is Prompting) ==> *final(self) == *old(self),
    {
        if let DeletingState::Prompting(_) = *self {
            *self = DeletingState::Idle;
        }
    }

    /// Asks to confirm the deletion of the note with identifier `id`.
    pub fn prompting(&mut self, id: Id)
        ensures
            *final(self) == DeletingState::Prompting(id),
    {
        *self = DeletingState::Prompting(id);
    }
}

/// Whether a database is open in the application.
#[derive(Clone, Copy, Debug, PartialEq, Eq, Structural)]
pub enum AppState {
    NoDatabase,
    DatabaseOpen,
}

/// Where leaving the application stands.
#[derive(Clone, Copy, Debug, PartialEq, Eq, Structural)]
pub enum ExitState {
    Running,
    ExitRequested,
    Exiting,
}

/// Something the application is to do after a decision.
pub enum AppAction {
    /// Send this message to the database thread.
    Backend(ToBackend),
    /// Show a notification of this kind with this text.
    Toast(ToastKind, String),
}

/// What an action of the application says.
pub enum AppActionView {
    Backend(BackendMessageView),
    Toast(ToastKind, Seq<char>),
}

impl View for AppAction {
    type V = AppActionView;

    open spec fn view(&self) -> AppActionView {
        match self {
            AppAction::Backend(m) => AppActionView::Backend(m@),
            AppAction::Toast(k, t) => AppActionView::Toast(*k, t@),
        }
    }
}

/// What a list of actions says, in order.
pub open spec fn app_actions_view(acts: Seq<AppAction>) -> Seq<AppActionView> {
    acts.map_values(|a: AppAction| a@)
}

/// The request for a new note: titled `New Note`, with empty content.
pub open spec fn new_note_request() -> AppActionView {
    AppActionView::Backend(
        BackendMessageView::CreateNote((Some("New Note"@), Some(""@), Seq::empty(), Seq::empty())),
    )
}

/// The update sent for the note being edited, where it has changes.
pub open spec fn pending_update(e: NoteEditorView) -> Seq<AppActionView> {
    match e.note {
        Some(n) => if e.has_changes {
            seq![AppActionView::Backend(BackendMessageView::UpdateNote(n))]
        } else {
            Seq::empty()
        },
        None => Seq::empty(),
    }
}

/// The editor once its changes are sent.
pub open spec fn changes_sent(e: NoteEditorView) -> NoteEditorView {
    NoteEditorView { has_changes: false, ..e }
}

/// The editor after it is given `note` (or none) to edit (see `NoteEditor::set_note`).
pub open spec fn note_set(e: NoteEditorView, note: Option<NoteView>) -> NoteEditorView {
    if note matches Some(n) && e.note matches Some(c) && n.id == c.id {
        e
    } else {
        with_note_loaded(e, note)
    }
}

/// The state of the graphical application.
pub struct GuiApp {
    note_list: NoteList,
    state: AppState,
    settings: AppSettings,
    settings_open: bool,
    error_log: Vec<String>,
    exit_state: ExitState,
    note_editor: NoteEditor,
    deleting_state: DeletingState,
    hotkeys: Hotkeys,
}

/// What the graphical application holds.
pub struct GuiAppView {
    pub notes: Seq<NoteView>,
    pub state: AppState,
    pub settings_open: bool,
    pub error_log: Seq<Seq<char>>,
    pub exit: ExitState,
    pub editor: NoteEditorView,
    pub deleting: DeletingState,
    pub autosave_enabled: bool,
    pub autosave_interval: u64,
    pub default_database: Seq<char>,
    pub default_save_path: Seq<char>,
    pub load_default_on_start: bool,
    pub hotkeys: Seq<Option<crate::bins::gui::hotkey::BetterBinding>>,
}

/// The texts of a list of strings.
pub open spec fn texts(v: Seq<String>) -> Seq<Seq<char>> {
    v.map_values(|s: String| s@)
}

impl View for GuiApp {
    type V = GuiAppView;

    closed spec fn view(&self) -> GuiAppView {
        GuiAppView {
            notes: self.note_list@,
            state: self.state,
            settings_open: self.settings_open,
            error_log: texts(self.error_log@),
            exit: self.exit_state,
            editor: self.note_editor@,
            deleting: self.deleting_state,
            autosave_enabled: self.settings.autosave_enabled,
            autosave_interval: self.settings.autosave_interval,
            default_database: self.settings.default_database@,
            default_save_path: self.settings.default_save_path@,
            load_default_on_start: self.settings.load_default_on_start,
            hotkeys: self.hotkeys@,
        }
    }
}

/// How the application takes in message `msg` from the database thread in state `o`: `f`
/// is the state after, `acts` what is to be done, in order.
pub open spec fn received(o: GuiAppView, msg: ToFrontend, f: GuiAppView, acts: Seq<AppActionView>) -> bool {
    match msg {
        ToFrontend::RefreshNoteList { notes } => f == (GuiAppView { notes: notes_view(notes@), ..o })
            && acts == seq![AppActionView::Toast(ToastKind::Info, "Note list updated"@)],
        ToFrontend::Error { error_msg } => f == (GuiAppView {
            error_log: o.error_log.push(error_msg@),
            ..o
        }) && acts == seq![AppActionView::Toast(ToastKind::Error, "Backend Error: "@ + error_msg@)],
        ToFrontend::NoteCreated { note } => f == (GuiAppView {
            editor: note_set(changes_sent(o.editor), Some(note@)),
            ..o
        }) && acts == pending_update(o.editor).push(
            AppActionView::Toast(ToastKind::Info, "New note created"@),
        ),
        ToFrontend::DatabaseLoaded { notes } => f == (GuiAppView {
            state: AppState::DatabaseOpen,
            notes: notes_view(notes@),
            ..o
        }) && acts.len() == 0,
        ToFrontend::DatabaseClosed => f == (GuiAppView {
            state: AppState::NoDatabase,
            notes: Seq::empty(),
            editor: with_note_loaded(o.editor, None),
            ..o
        }) && acts.len() == 0,
    }
}

/// Whether `f` is `o` asking to confirm the deletion of the note with identifier `id`.
pub open spec fn prompts_deletion(o: GuiAppView, id: u64, f: GuiAppView) -> bool {
    f.deleting matches DeletingState::Prompting(d) && d@ == id && f == (GuiAppView {
        deleting: f.deleting,
        ..o
    })
}

/// How the application takes in message `msg` from its widgets in state `o`.
pub open spec fn widget_handled(o: GuiAppView, msg: ToApp, f: GuiAppView, acts: Seq<AppActionView>) -> bool {
    match msg {
        ToApp::CreateNewNote => f == o && acts == seq![new_note_request()],
        ToApp::SetActiveNote(note) => f == (GuiAppView {
            editor: note_set(changes_sent(o.editor), Some(note@)),
            ..o
        }) && acts == pending_update(o.editor),
        ToApp::DeleteNote(note) => prompts_deletion(o, note@.id, f) && acts.len() == 0,
        ToApp::DeleteActiveNote => acts.len() == 0 && match o.editor.note {
            Some(c) => prompts_deletion(o, c.id, f),
            None => f == o,
        },
        ToApp::SaveRequested => f == (GuiAppView { editor: changes_sent(o.editor), ..o }) && acts
            == pending_update(o.editor).push(AppActionView::Backend(BackendMessageView::SaveData)),
        ToApp::Toast(kind, text) => f == o && acts == seq![AppActionView::Toast(kind, text@)],
        ToApp::Error(m) => f == (GuiAppView { error_log: o.error_log.push(m@), ..o }) && acts.len()
            == 0,
        ToApp::Debug(m) => f == (GuiAppView { error_log: o.error_log.push("DEBUG: "@ + m@), ..o })
            && acts.len() == 0,
    }
}

/// `s` with `line` added where `flag` is set.
pub open spec fn logged_if(s: Seq<Seq<char>>, flag: bool, line: Seq<char>) -> Seq<Seq<char>> {
    if flag {
        s.push(line)
    } else {
        s
    }
}

/// The log after the hotkeys that are not implemented yet were pressed: each is noted.
pub open spec fn hotkeys_logged(log: Seq<Seq<char>>, h: HotkeyState) -> Seq<Seq<char>> {
    logged_if(
        logged_if(
            logged_if(
                logged_if(logged_if(log, h.copy, "COPY hotkey pressed."@), h.cut, "CUT hotkey pressed."@),
                h.paste,
                "PASTE hotkey pressed."@,
            ),
            h.undo,
            "UNDO hotkey pressed."@,
        ),
        h.redo,
        "REDO hotkey pressed."@,
    )
}

/// The editor after the hotkeys `h` (closing the editor, then saving).
pub open spec fn editor_after_hotkeys(e: NoteEditorView, h: HotkeyState) -> NoteEditorView {
    let e1 = if h.close_note_editor {
        with_note_loaded(changes_sent(e), None)
    } else {
        e
    };
    if h.save {
        changes_sent(e1)
    } else {
        e1
    }
}

/// What the hotkeys `h` have sent, in order: a new note request, the changes of a note
/// whose editor closes, and a save with the changes it sends first.
pub open spec fn hotkey_actions(e: NoteEditorView, h: HotkeyState) -> Seq<AppActionView> {
    let e1 = if h.close_note_editor {
        with_note_loaded(changes_sent(e), None)
    } else {
        e
    };
    (if h.new_note {
        seq![new_note_request()]
    } else {
        Seq::empty()
    }) + (if h.close_note_editor {
        pending_update(e)
    } else {
        Seq::empty()
    }) + (if h.save {
        pending_update(e1).push(AppActionView::Backend(BackendMessageView::SaveData))
    } else {
        Seq::empty()
    })
}

/// How the application answers the hotkeys `h` pressed in state `o`.
pub open spec fn hotkeys_handled(o: GuiAppView, h: HotkeyState, f: GuiAppView, acts: Seq<AppActionView>) -> bool {
    let e1 = if h.close_note_editor {
        with_note_loaded(changes_sent(o.editor), None)
    } else {
        o.editor
    };
    &&& acts == hotkey_actions(o.editor, h)
    &&& f.editor == editor_after_hotkeys(o.editor, h)
    &&& (h.delete && e1.note is Some) ==> (f.deleting matches DeletingState::Prompting(d) && d@
        == e1.note->0.id)
    &&& !(h.delete && e1.note is Some) ==> f.deleting == o.deleting
    &&& f.exit == (if h.quit {
        ExitState::ExitRequested
    } else {
        o.exit
    })
    &&& f.settings_open == (if h.toggle_settings {
        !o.settings_open
    } else {
        o.settings_open
    })
    &&& f.error_log == hotkeys_logged(o.error_log, h)
    &&& f.notes == o.notes
    &&& f.state == o.state
    &&& f.autosave_enabled == o.autosave_enabled
    &&& f.autosave_interval == o.autosave_interval
    &&& f.default_database == o.default_database
    &&& f.default_save_path == o.default_save_path
    &&& f.load_default_on_start == o.load_default_on_start
    &&& f.hotkeys == o.hotkeys
}

/// The actions holding just `a`.
fn one_action(a: AppAction) -> (acts: Vec<AppAction>)
    ensures
        app_actions_view(acts@) == seq![a@],
{
    let mut acts: Vec<AppAction> = Vec::new();
    acts.push(a);
    assert(app_actions_view(acts@) =~= seq![a@]);
    acts
}

/// No actions.
fn no_actions() -> (acts: Vec<AppAction>)
    ensures
        app_actions_view(acts@) == Seq::<AppActionView>::empty(),
{
    let acts: Vec<AppAction> = Vec::new();
    assert(app_actions_view(acts@) =~= Seq::<AppActionView>::empty());
    acts
}

/// `acts` followed by `more`.
fn concat(acts: Vec<AppAction>, more: Vec<AppAction>) -> (all: Vec<AppAction>)
    ensures
        app_actions_view(all@) == app_actions_view(acts@) + app_actions_view(more@),
{
    let mut all = acts;
    let mut rest = more;
    let ghost a = all@;
    let ghost b = rest@;
    all.append(&mut rest);
    assert(app_actions_view(all@) =~= app_actions_view(a) + app_actions_view(b));
    all
}

impl GuiApp {
    /// The application as it starts with `settings`: no database open, settings closed,
    /// nothing edited. It tells the database thread to start, and, where the settings say
    /// so, to open the default database (to create it where `default_database_exists` is
    /// false).
    pub fn new(settings: AppSettings, default_database_exists: bool) -> (r: (GuiApp, Vec<AppAction>))
        ensures
            r.0@.state == AppState::NoDatabase,
            !r.0@.settings_open,
            r.0@.exit == ExitState::Running,
            r.0@.deleting == DeletingState::Idle,
            r.0@.notes.len() == 0,
            r.0@.editor.note is None,
            !r.0@.editor.has_changes,
            r.0@.error_log == seq![
                "This is a test error log entry"@,
                "This is another fake error message"@,
                "And here's a third, lets make this one really long. Like super super super super super supser upser upserup super super supser upser upser super duper long."@,
            ],
            r.0@.autosave_enabled == settings.autosave_enabled,
            r.0@.autosave_interval == settings.autosave_interval,
            r.0@.default_database == settings.default_database@,
            r.0@.default_save_path == settings.default_save_path@,
            r.0@.load_default_on_start == settings.load_default_on_start,
            r.0@.hotkeys == crate::bins::gui::hotkey::default_bindings(),
            app_actions_view(r.1@) == (if settings.load_default_on_start {
                seq![
                    AppActionView::Backend(BackendMessageView::Startup),
                    AppActionView::Backend(
                        if default_database_exists {
                            BackendMessageView::OpenDatabase(settings.default_database@)
                        } else {
                            BackendMessageView::CreateDatabase(settings.default_database@)
                        },
                    ),
                ]
            } else {
                seq![AppActionView::Backend(BackendMessageView::Startup)]
            }),
    {
        let start = one_action(AppAction::Backend(ToBackend::Startup));
        let acts = if settings.load_default_on_start {
            let path = to_owned_string(settings.default_database.as_str());
            let open = if default_database_exists {
                one_action(AppAction::Backend(ToBackend::OpenDatabase { path }))
            } else {
                one_action(AppAction::Backend(ToBackend::CreateDatabase { path }))
            };
            concat(start, open)
        } else {
            start
        };
        let mut error_log: Vec<String> = Vec::new();
        error_log.push(to_owned_string("This is a test error log entry"));
        error_log.push(to_owned_string("This is another fake error message"));
        error_log.push(
            to_owned_string(
                "And here's a third, lets make this one really long. Like super super super super super supser upser upserup super super supser upser upser super duper long.",
            ),
        );
        let ghost log = error_log@;
        let app = GuiApp {
            note_list: NoteList::new(),
            state: AppState::NoDatabase,
            settings,
            settings_open: false,
            error_log,
            exit_state: ExitState::Running,
            note_editor: NoteEditor::new(None, true),
            deleting_state: DeletingState::Idle,
            hotkeys: Hotkeys::default(),
        };
        assert(texts(log) =~= seq![
            "This is a test error log entry"@,
            "This is another fake error message"@,
            "And here's a third, lets make this one really long. Like super super super super super supser upser upserup super super supser upser upser super duper long."@,
        ]);
        (app, acts)
    }

    /// Whether a database is open.
    pub fn state(&self) -> (s: AppState)
        ensures
            s == self@.state,
    {
        self.state
    }

    /// The settings.
    pub fn settings(&self) -> (s: &AppSettings)
        ensures
            s.autosave_enabled == self@.autosave_enabled,
            s.autosave_interval == self@.autosave_interval,
            s.default_database@ == self@.default_database,
            s.default_save_path@ == self@.default_save_path,
            s.load_default_on_start == self@.load_default_on_start,
    {
        &self.settings
    }

    /// Replaces the settings (after the user changed them).
    pub fn set_settings(&mut self, settings: AppSettings)
        ensures
            final(self)@ == (GuiAppView {
                autosave_enabled: settings.autosave_enabled,
                autosave_interval: settings.autosave_interval,
                default_database: settings.default_database@,
                default_save_path: settings.default_save_path@,
                load_default_on_start: settings.load_default_on_start,
                ..old(self)@
            }),
    {
        self.settings = settings;
    }

    /// The hotkeys.
    pub fn hotkeys(&self) -> (h: &Hotkeys)
        ensures
            h@ == self@.hotkeys,
    {
        &self.hotkeys
    }

    /// Whether the settings are shown.
    pub fn settings_open(&self) -> (b: bool)
        ensures
            b == self@.settings_open,
    {
        self.settings_open
    }

    /// Shows or hides the settings.
    pub fn toggle_settings(&mut self)
        ensures
            final(self)@ == (GuiAppView { settings_open: !old(self)@.settings_open, ..old(self)@ }),
    {
        self.settings_open = !self.settings_open;
    }

    /// The messages of the error log, oldest first.
    pub fn error_log(&self) -> (log: &[String])
        ensures
            texts(log@) == self@.error_log,
    {
        self.error_log.as_slice()
    }

    /// Adds a message to the error log.
    pub fn log_error(&mut self, msg: String)
        ensures
            final(self)@ == (GuiAppView { error_log: old(self)@.error_log.push(msg@), ..old(self)@ }),
    {
        let ghost prev = self.error_log@;
        self.error_log.push(msg);
        assert(texts(self.error_log@) =~= texts(prev).push(msg@));
    }

    /// Where leaving stands.
    pub fn exit_state(&self) -> (e: ExitState)
        ensures
            e == self@.exit,
    {
        self.exit_state
    }

    /// Where the deletion of a note stands.
    pub fn deleting_state(&self) -> (d: DeletingState)
        ensures
            d == self@.deleting,
    {
        self.deleting_state
    }

    /// The list of notes shown.
    pub fn note_list(&self) -> (l: &NoteList)
        ensures
            l@ == self@.notes,
    {
        &self.note_list
    }

    /// The editor.
    pub fn note_editor(&self) -> (e: &NoteEditor)
        ensures
            e@ == self@.editor,
    {
        &self.note_editor
    }

    /// Takes in a drawing of the editor (see `NoteEditor::finish_render`); where a save
    /// was asked for, the application saves and shows that it does.
    pub fn finish_editor_render(&mut self, edited: Note, changed: bool) -> (acts: Vec<AppAction>)
        ensures
            ({
                let e = NoteEditorView {
                    note: if changed {
                        Some(edited@)
                    } else {
                        old(self)@.editor.note
                    },
                    has_changes: changed || old(self)@.editor.has_changes,
                    force_save: false,
                    ..old(self)@.editor
                };
                if old(self)@.editor.force_save {
                    &&& final(self)@ == (GuiAppView { editor: changes_sent(e), ..old(self)@ })
                    &&& app_actions_view(acts@) == pending_update(e) + seq![
                        AppActionView::Backend(BackendMessageView::SaveData),
                        AppActionView::Toast(ToastKind::Info, "Force save requested..."@),
                    ]
                } else {
                    &&& final(self)@ == (GuiAppView { editor: e, ..old(self)@ })
                    &&& app_actions_view(acts@).len() == 0
                }
            }),
    {
        let save = self.note_editor.finish_render(edited, changed);
        let ghost e = self@.editor;
        if save {
            let saved = self.save_data();
            let toast = one_action(
                AppAction::Toast(ToastKind::Info, to_owned_string("Force save requested...")),
            );
            let acts = concat(saved, toast);
            assert(app_actions_view(acts@) =~= pending_update(e) + seq![
                AppActionView::Backend(BackendMessageView::SaveData),
                AppActionView::Toast(ToastKind::Info, "Force save requested..."@),
            ]);
            acts
        } else {
            no_actions()
        }
    }

    /// Sends the changes of the note being edited, if it has any, and marks them sent.
    pub fn update_active_note(&mut self) -> (acts: Vec<AppAction>)
        ensures
            final(self)@ == (GuiAppView { editor: changes_sent(old(self)@.editor), ..old(self)@ }),
            app_actions_view(acts@) == pending_update(old(self)@.editor),
    {
        if self.note_editor.has_changes() {
            let acts = match self.note_editor.get_active_note() {
                Some(note) => one_action(AppAction::Backend(ToBackend::UpdateNote { note: note.clone() })),
                None => no_actions(),
            };
            self.note_editor.clear_has_changes();
            acts
        } else {
            let acts = no_actions();
            proof {
                assert(changes_sent(old(self)@.editor) == old(self)@.editor);
            }
            acts
        }
    }

    /// Edits `note` (or none) instead, after sending the changes of the note being edited.
    pub fn change_active_note(&mut self, note: Option<Note>) -> (acts: Vec<AppAction>)
        ensures
            final(self)@ == (GuiAppView {
                editor: note_set(changes_sent(old(self)@.editor), opt_note_view(note)),
                ..old(self)@
            }),
            app_actions_view(acts@) == pending_update(old(self)@.editor),
    {
        let acts = self.update_active_note();
        self.note_editor.set_note(note);
        acts
    }

    /// Asks the database thread for a new note titled `New Note`.
    pub fn new_note(&self) -> (acts: Vec<AppAction>)
        ensures
            app_actions_view(acts@) == seq![new_note_request()],
    {
        let dto = CreateNote::from_title_content("New Note", "");
        let acts = one_action(AppAction::Backend(ToBackend::CreateNote { dto }));
        proof {
            reveal_strlit("New Note");
            reveal_strlit("");
            assert(crate::types::text::strings_view(dto.tags@) =~= Seq::<Seq<char>>::empty());
            assert(crate::types::note_dto::reminders_view(dto.reminders@)
                =~= Seq::<crate::types::reminder::ReminderView>::empty());
        }
        acts
    }

    /// Stops editing the note with identifier `id`, if it is edited, and asks the
    /// database thread to delete it.
    pub fn delete_note(&mut self, id: Id) -> (acts: Vec<AppAction>)
        ensures
            (old(self)@.editor.note matches Some(n) && n.id == id@) ==> final(self)@ == (GuiAppView {
                editor: with_note_loaded(old(self)@.editor, None),
                ..old(self)@
            }),
            !(old(self)@.editor.note matches Some(n) && n.id == id@) ==> final(self)@ == old(self)@,
            app_actions_view(acts@) == seq![AppActionView::Backend(BackendMessageView::DeleteNote(id@))],
    {
        self.note_editor.clear_if_active_id(id);
        one_action(AppAction::Backend(ToBackend::DeleteNote { id }))
    }

    /// Sends the changes of the note being edited, then asks the database thread to save.
    pub fn save_data(&mut self) -> (acts: Vec<AppAction>)
        ensures
            final(self)@ == (GuiAppView { editor: changes_sent(old(self)@.editor), ..old(self)@ }),
            app_actions_view(acts@) == pending_update(old(self)@.editor).push(
                AppActionView::Backend(BackendMessageView::SaveData),
            ),
    {
        let sent = self.update_active_note();
        let save = one_action(AppAction::Backend(ToBackend::SaveData));
        let acts = concat(sent, save);
        assert(app_actions_view(acts@) =~= pending_update(old(self)@.editor).push(
            AppActionView::Backend(BackendMessageView::SaveData),
        ));
        acts
    }

    /// Saves (see `save_data`) where autosaving is on; does nothing otherwise.
    pub fn autosave(&mut self) -> (acts: Vec<AppAction>)
        ensures
            old(self)@.autosave_enabled ==> final(self)@ == (GuiAppView {
                editor: changes_sent(old(self)@.editor),
                ..old(self)@
            }) && app_actions_view(acts@) == pending_update(old(self)@.editor).push(
                AppActionView::Backend(BackendMessageView::SaveData),
            ),
            !old(self)@.autosave_enabled ==> final(self)@ == old(self)@ && app_actions_view(acts@).len() == 0,
    {
        if self.settings.autosave_enabled {
            self.save_data()
        } else {
            no_actions()
        }
    }

    /// Whether the note being edited has changes not yet sent.
    pub fn needs_save(&self) -> (b: bool)
        ensures
            b == self@.editor.has_changes,
    {
        self.note_editor.has_changes()
    }

    /// How many seconds apart autosaves come; `None` where autosaving is off (never).
    pub fn auto_save_interval(&self) -> (r: Option<u64>)
        ensures
            self@.autosave_enabled ==> r == Some(self@.autosave_interval),
            !self@.autosave_enabled ==> r is None,
    {
        if self.settings.autosave_enabled {
            Some(self.settings.autosave_interval)
        } else {
            None
        }
    }

    /// The window is asked to close: the database thread is told to shut down, and a
    /// running application asks whether to save first. Returns whether the window may
    /// close now (only once the application is exiting).
    pub fn on_exit_event(&mut self) -> (r: (bool, Vec<AppAction>))
        ensures
            final(self)@ == (GuiAppView {
                exit: if old(self)@.exit == ExitState::Running {
                    ExitState::ExitRequested
                } else {
                    old(self)@.exit
                },
                ..old(self)@
            }),
            r.0 == (final(self)@.exit == ExitState::Exiting),
            app_actions_view(r.1@) == seq![AppActionView::Backend(BackendMessageView::Shutdown)],
    {
        let acts = one_action(AppAction::Backend(ToBackend::Shutdown));
        if self.exit_state == ExitState::Running {
            self.exit_state = ExitState::ExitRequested;
        }
        (self.exit_state == ExitState::Exiting, acts)
    }

    /// Asks the database thread to create a database at `path`.
    pub fn new_db(&self, path: String) -> (acts: Vec<AppAction>)
        ensures
            app_actions_view(acts@) == seq![AppActionView::Backend(BackendMessageView::CreateDatabase(path@))],
    {
        one_action(AppAction::Backend(ToBackend::CreateDatabase { path }))
    }

    /// Asks the database thread to open the database at `path`.
    pub fn load_db(&self, path: String) -> (acts: Vec<AppAction>)
        ensures
            app_actions_view(acts@) == seq![AppActionView::Backend(BackendMessageView::OpenDatabase(path@))],
    {
        one_action(AppAction::Backend(ToBackend::OpenDatabase { path }))
    }

    /// The user confirmed the deletion asked about.
    pub fn confirm_delete(&mut self)
        ensures
            final(self)@ == (GuiAppView {
                deleting: match old(self)@.deleting {
                    DeletingState::Prompting(id) => DeletingState::Confirmed(id),
                    d => d,
                },
                ..old(self)@
            }),
    {
        self.deleting_state.confirm();
    }

    /// The user declined the deletion asked about.
    pub fn cancel_delete(&mut self)
        ensures
            final(self)@ == (GuiAppView {
                deleting: match old(self)@.deleting {
                    DeletingState::Prompting(_) => DeletingState::Idle,
                    d => d,
                },
                ..old(self)@
            }),
    {
        self.deleting_state.cancel();
    }

    /// Carries out a confirmed deletion (see `delete_note`); nothing happens otherwise.
    pub fn process_deletion(&mut self) -> (acts: Vec<AppAction>)
        ensures
            old(self)@.deleting matches DeletingState::Confirmed(id) ==> {
                &&& final(self)@.deleting == DeletingState::Idle
                &&& app_actions_view(acts@) == seq![AppActionView::Backend(BackendMessageView::DeleteNote(id@))]
                &&& (old(self)@.editor.note matches Some(n) && n.id == id@) ==> final(self)@ == (GuiAppView {
                    editor: with_note_loaded(old(self)@.editor, None),
                    deleting: DeletingState::Idle,
                    ..old(self)@
                })
                &&& !(old(self)@.editor.note matches Some(n) && n.id == id@) ==> final(self)@ == (GuiAppView {
                    deleting: DeletingState::Idle,
                    ..old(self)@
                })
            },
            !(old(self)@.deleting is Confirmed) ==> final(self)@ == old(self)@ && app_actions_view(acts@).len() == 0,
    {
        match self.deleting_state {
            DeletingState::Confirmed(id) => {
                let acts = self.delete_note(id);
                self.deleting_state = DeletingState::Idle;
                acts
            },
            _ => no_actions(),
        }
    }

    /// The exit prompt is shown: a deletion being asked about is dropped.
    pub fn exit_prompt_shown(&mut self)
        ensures
            final(self)@ == (GuiAppView { deleting: DeletingState::Idle, ..old(self)@ }),
    {
        self.deleting_state = DeletingState::Idle;
    }

    /// The user chose to save before exiting: the application saves and is exiting.
    pub fn exit_with_save(&mut self) -> (acts: Vec<AppAction>)
        ensures
            final(self)@ == (GuiAppView {
                editor: changes_sent(old(self)@.editor),
                exit: ExitState::Exiting,
                ..old(self)@
            }),
            app_actions_view(acts@) == pending_update(old(self)@.editor).push(
                AppActionView::Backend(BackendMessageView::SaveData),
            ),
    {
        let acts = self.save_data();
        self.exit_state = ExitState::Exiting;
        acts
    }

    /// The user chose to exit without saving.
    pub fn exit_without_save(&mut self)
        ensures
            final(self)@ == (GuiAppView { exit: ExitState::Exiting, ..old(self)@ }),
    {
        self.exit_state = ExitState::Exiting;
    }

    /// The user chose not to exit after all.
    pub fn cancel_exit(&mut self)
        ensures
            final(self)@ == (GuiAppView { exit: ExitState::Running, ..old(self)@ }),
    {
        self.exit_state = ExitState::Running;
    }

    /// Takes in a message from the database thread.
    pub fn receive(&mut self, msg: ToFrontend) -> (acts: Vec<AppAction>)
        ensures
            received(old(self)@, msg, final(self)@, app_actions_view(acts@)),
    {
        match msg {
            ToFrontend::RefreshNoteList { notes } => {
                self.note_list.update_note_list(notes);
                one_action(AppAction::Toast(ToastKind::Info, to_owned_string("Note list updated")))
            },
            ToFrontend::Error { error_msg } => {
                let text = prefixed("Backend Error: ", error_msg.as_str());
                self.log_error(error_msg);
                one_action(AppAction::Toast(ToastKind::Error, text))
            },
            ToFrontend::NoteCreated { note } => {
                let sent = self.change_active_note(Some(note));
                let toast = one_action(
                    AppAction::Toast(ToastKind::Info, to_owned_string("New note created")),
                );
                let acts = concat(sent, toast);
                assert(app_actions_view(acts@) =~= pending_update(old(self)@.editor).push(
                    AppActionView::Toast(ToastKind::Info, "New note created"@),
                ));
                acts
            },
            ToFrontend::DatabaseLoaded { notes } => {
                self.state = AppState::DatabaseOpen;
                self.note_list.update_note_list(notes);
                no_actions()
            },
            ToFrontend::DatabaseClosed => {
                self.state = AppState::NoDatabase;
                self.note_list.clear_note_list();
                self.note_editor.clear_note();
                no_actions()
            },
        }
    }

    /// Asks to confirm the deletion of the note being edited, if there is one.
    fn prompt_delete_active(&mut self)
        ensures
            match old(self)@.editor.note {
                Some(c) => prompts_deletion(old(self)@, c.id, final(self)@),
                None => final(self)@ == old(self)@,
            },
    {
        let id = match self.note_editor.get_active_note() {
            Some(note) => Some(note.id()),
            None => None,
        };
        if let Some(id) = id {
            self.deleting_state = DeletingState::Prompting(id);
        }
    }

    /// Takes in a message from the widgets.
    pub fn widget_message(&mut self, msg: ToApp) -> (acts: Vec<AppAction>)
        ensures
            widget_handled(old(self)@, msg, final(self)@, app_actions_view(acts@)),
    {
        match msg {
            ToApp::CreateNewNote => self.new_note(),
            ToApp::SetActiveNote(note) => self.change_active_note(Some(note)),
            ToApp::DeleteNote(note) => {
                self.deleting_state = DeletingState::Prompting(note.id());
                no_actions()
            },
            ToApp::DeleteActiveNote => {
                self.prompt_delete_active();
                no_actions()
            },
            ToApp::SaveRequested => self.save_data(),
            ToApp::Toast(kind, text) => one_action(AppAction::Toast(kind, text)),
            ToApp::Error(msg) => {
                self.log_error(msg);
                no_actions()
            },
            ToApp::Debug(msg) => {
                let line = prefixed("DEBUG: ", msg.as_str());
                self.log_error(line);
                no_actions()
            },
        }
    }

    /// Notes a hotkey that is not implemented yet, where it was pressed.
    fn log_if(&mut self, flag: bool, line: &str)
        ensures
            final(self)@ == (GuiAppView {
                error_log: logged_if(old(self)@.error_log, flag, line@),
                ..old(self)@
            }),
    {
        if flag {
            self.log_error(to_owned_string(line));
        }
    }

    /// The hotkeys for a new note and for closing the editor.
    fn hotkeys_new_and_close(&mut self, state: &HotkeyState) -> (acts: Vec<AppAction>)
        ensures
            final(self)@ == (GuiAppView {
                editor: if state.close_note_editor {
                    with_note_loaded(changes_sent(old(self)@.editor), None)
                } else {
                    old(self)@.editor
                },
                ..old(self)@
            }),
            app_actions_view(acts@) == (if state.new_note {
                seq![new_note_request()]
            } else {
                Seq::empty()
            }) + (if state.close_note_editor {
                pending_update(old(self)@.editor)
            } else {
                Seq::empty()
            }),
    {
        let first = if state.new_note {
            self.new_note()
        } else {
            no_actions()
        };
        let second = if state.close_note_editor {
            self.change_active_note(None)
        } else {
            no_actions()
        };
        concat(first, second)
    }

    /// The hotkeys for deleting the edited note, quitting and the settings.
    fn hotkeys_prompts(&mut self, state: &HotkeyState)
        ensures
            (state.delete && old(self)@.editor.note is Some) ==> (final(self)@.deleting matches DeletingState::Prompting(d)
                && d@ == old(self)@.editor.note->0.id),
            !(state.delete && old(self)@.editor.note is Some) ==> final(self)@.deleting == old(self)@.deleting,
            final(self)@ == (GuiAppView {
                deleting: final(self)@.deleting,
                exit: if state.quit {
                    ExitState::ExitRequested
                } else {
                    old(self)@.exit
                },
                settings_open: if state.toggle_settings {
                    !old(self)@.settings_open
                } else {
                    old(self)@.settings_open
                },
                ..old(self)@
            }),
    {
        if state.delete {
            self.prompt_delete_active();
        }
        if state.quit {
            self.exit_state = ExitState::ExitRequested;
        }
        if state.toggle_settings {
            self.toggle_settings();
        }
    }

    /// The hotkeys that are only noted in the log.
    fn hotkeys_logged(&mut self, state: &HotkeyState)
        ensures
            final(self)@ == (GuiAppView {
                error_log: hotkeys_logged(old(self)@.error_log, *state),
                ..old(self)@
            }),
    {
        self.log_if(state.copy, "COPY hotkey pressed.");
        self.log_if(state.cut, "CUT hotkey pressed.");
        self.log_if(state.paste, "PASTE hotkey pressed.");
        self.log_if(state.undo, "UNDO hotkey pressed.");
        self.log_if(state.redo, "REDO hotkey pressed.");
    }

    /// Answers the hotkeys pressed, in this order: new note, close the editor, delete the
    /// edited note (asking first), quit (asking first), show or hide the settings, save;
    /// copy, cut, paste, undo and redo are only noted in the log.
    #[verifier::spinoff_prover]
    pub fn check_hotkeys(&mut self, state: &HotkeyState) -> (acts: Vec<AppAction>)
        ensures
            hotkeys_handled(old(self)@, *state, final(self)@, app_actions_view(acts@)),
    {
        let ghost o = self@;
        let first = self.hotkeys_new_and_close(state);
        let ghost s1 = self@;
        self.hotkeys_prompts(state);
        let ghost s2 = self@;
        let second = if state.save {
            self.save_data()
        } else {
            no_actions()
        };
        let ghost s3 = self@;
        self.hotkeys_logged(state);
        let acts = concat(first, second);
        proof {
            assert(app_actions_view(acts@) =~= hotkey_actions(o.editor, *state));
            assert(s2.editor == s1.editor);
            assert(s3.deleting == s2.deleting);
            assert(s3.error_log == o.error_log);
        }
        acts
    }
}

/// Once the changes of the edited note are sent, nothing is left to send: saving twice
/// sends them once.
pub proof fn lemma_changes_sent_once(e: NoteEditorView)
    ensures
        pending_update(changes_sent(e)).len() == 0,
        changes_sent(changes_sent(e)) == changes_sent(e),
{
}

} // verus!

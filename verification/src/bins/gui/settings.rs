//! The application's settings: where databases are kept, and autosaving.
use vstd::prelude::*;

use crate::types::numbers::{
    lemma_bool_text_roundtrip, lemma_u64_text_roundtrip,
    bool_text, bool_to_text, decimal_text, parse_bool, parse_u64, parse_u64_text, text_to_bool, u64_text,
};
use crate::types::bytes::string_push_str;
use crate::types::error::Error;
use crate::types::text::to_owned_string;

verus! {

/// The kind of value a setting holds.
pub enum ValueType {
    Path,
    String,
    Bool,
    Number,
    Choice(Vec<String>),
}

/// The settings of the application.
#[derive(Clone, Copy, Debug, PartialEq, Eq, Structural)]
pub enum AppSettingKind {
    DefaultDatabase,
    LoadDefaultOnStart,
    DefaultSavePath,
    AutosaveEnabled,
    AutosaveInterval,
}

impl AppSettingKind {
    /// The kind of value the setting holds.
    pub fn get_value_type(self) -> (t: ValueType)
        ensures
            (self == AppSettingKind::DefaultDatabase || self == AppSettingKind::DefaultSavePath)
                ==> t is Path,
            (self == AppSettingKind::LoadDefaultOnStart || self == AppSettingKind::AutosaveEnabled)
                ==> t is Bool,
            self == AppSettingKind::AutosaveInterval ==> t is Number,
    {
        match self {
            AppSettingKind::DefaultDatabase | AppSettingKind::DefaultSavePath => ValueType::Path,
            AppSettingKind::LoadDefaultOnStart | AppSettingKind::AutosaveEnabled => ValueType::Bool,
            AppSettingKind::AutosaveInterval => ValueType::Number,
        }
    }
}

/// The settings of the application. Paths are held as text.
pub struct AppSettings {
    /// The database opened by default.
    pub default_database: String,
    /// Where new databases are saved by default.
    pub default_save_path: String,
    /// How often to autosave, in seconds.
    pub autosave_interval: u64,
    /// Whether the default database is opened on start.
    pub load_default_on_start: bool,
    /// Whether autosaving is on.
    pub autosave_enabled: bool,
}

/// `name` under directory `base`: a separator is put between them unless `base` is empty
/// or ends with one.
pub open spec fn join_path(base: Seq<char>, name: Seq<char>) -> Seq<char> {
    if base.len() == 0 {
        name
    } else if base.last() == '/' {
        base + name
    } else {
        base + seq!['/'] + name
    }
}

/// `name` under directory `base`.
fn join(base: &str, name: &str) -> (p: String)
    ensures
        p@ == join_path(base@, name@),
{
    let mut p = to_owned_string(base);
    let n = base.unicode_len();
    if n > 0 && base.get_char(n - 1) != '/' {
        string_push_str(&mut p, "/");
        proof {
            reveal_strlit("/");
        }
    }
    string_push_str(&mut p, name);
    p
}

/// The error given where the system's project directories are unknown.
pub open spec fn no_project_dirs(e: Error) -> bool {
    e matches Error::Io(msg) && msg@ == "Unable to load project directories from system"@
}

fn no_project_dirs_error() -> (e: Error)
    ensures
        no_project_dirs(e),
{
    Error::Io("Unable to load project directories from system".to_owned())
}

/// What setting `key` from the text `v` does: a path takes any text; a flag takes `true`
/// or `false`; the interval takes a decimal number that fits in a `u64` (with an optional
/// `+`). Only that setting changes, and where the text is not a value of it, `None` with
/// nothing changed.
pub open spec fn setting_applied(
    before: AppSettings,
    key: AppSettingKind,
    v: Seq<char>,
    after: AppSettings,
    r: Option<()>,
) -> bool {
    &&& (key == AppSettingKind::DefaultDatabase ==> r is Some && after.default_database@
            == v && after.default_save_path == before.default_save_path
            && after.autosave_interval == before.autosave_interval
            && after.load_default_on_start == before.load_default_on_start
            && after.autosave_enabled == before.autosave_enabled)
    &&& (key == AppSettingKind::DefaultSavePath ==> r is Some && after.default_save_path@
            == v && after.default_database == before.default_database
            && after.autosave_interval == before.autosave_interval
            && after.load_default_on_start == before.load_default_on_start
            && after.autosave_enabled == before.autosave_enabled)
    &&& (key == AppSettingKind::AutosaveInterval ==> (match parse_u64_text(v) {
            Some(n) => r is Some && after.autosave_interval == n,
            None => r is None && after.autosave_interval == before.autosave_interval,
        }) && after.default_database == before.default_database
            && after.default_save_path == before.default_save_path
            && after.load_default_on_start == before.load_default_on_start
            && after.autosave_enabled == before.autosave_enabled)
    &&& (key == AppSettingKind::LoadDefaultOnStart ==> (match parse_bool(v) {
            Some(b) => r is Some && after.load_default_on_start == b,
            None => r is None && after.load_default_on_start == before.load_default_on_start,
        }) && after.default_database == before.default_database
            && after.default_save_path == before.default_save_path
            && after.autosave_interval == before.autosave_interval
            && after.autosave_enabled == before.autosave_enabled)
    &&& (key == AppSettingKind::AutosaveEnabled ==> (match parse_bool(v) {
            Some(b) => r is Some && after.autosave_enabled == b,
            None => r is None && after.autosave_enabled == before.autosave_enabled,
        }) && after.default_database == before.default_database
            && after.default_save_path == before.default_save_path
            && after.autosave_interval == before.autosave_interval
            && after.load_default_on_start == before.load_default_on_start)
}

/// Whether a text is a value of a setting.
pub open spec fn setting_accepts(key: AppSettingKind, v: Seq<char>) -> bool {
    match key {
        AppSettingKind::DefaultDatabase | AppSettingKind::DefaultSavePath => true,
        AppSettingKind::AutosaveInterval => parse_u64_text(v) is Some,
        AppSettingKind::LoadDefaultOnStart | AppSettingKind::AutosaveEnabled => parse_bool(v) is Some,
    }
}

/// The text `get_setting` gives for a setting.
pub open spec fn setting_text(s: AppSettings, kind: AppSettingKind) -> Seq<char> {
    match kind {
        AppSettingKind::DefaultDatabase => s.default_database@,
        AppSettingKind::DefaultSavePath => s.default_save_path@,
        AppSettingKind::LoadDefaultOnStart => bool_text(s.load_default_on_start),
        AppSettingKind::AutosaveEnabled => bool_text(s.autosave_enabled),
        AppSettingKind::AutosaveInterval => decimal_text(s.autosave_interval as nat),
    }
}

/// Whether a text is the written form of a value of a setting: any path, `true` or
/// `false`, a number in plain decimal.
pub open spec fn is_setting_text(key: AppSettingKind, v: Seq<char>) -> bool {
    match key {
        AppSettingKind::AutosaveInterval => parse_u64_text(v) matches Some(n) && decimal_text(n as nat) == v,
        _ => setting_accepts(key, v),
    }
}

impl AppSettings {
    /// The settings a new installation starts with, given the system's data directory:
    /// databases are saved there, the default one is `default.noted` there, autosaving
    /// every 30 seconds is on, and the default database opens on start. An error where the
    /// system gives no project directories (`None`).
    pub fn new(data_dir: Option<String>) -> (r: Result<AppSettings, Error>)
        ensures
            data_dir is None ==> (r matches Err(e) && no_project_dirs(e)),
            data_dir matches Some(d) ==> (r matches Ok(s) && s.default_save_path@ == d@
                && s.default_database@ == join_path(d@, "default.noted"@) && s.autosave_interval
                == 30 && s.load_default_on_start && s.autosave_enabled),
    {
        match data_dir {
            None => Err(no_project_dirs_error()),
            Some(dir) => {
                proof {
                    reveal_strlit("default.noted");
                }
                let default_database = join(dir.as_str(), "default.noted");
                Ok(
                    AppSettings {
                        default_database,
                        default_save_path: dir,
                        autosave_interval: 30,
                        load_default_on_start: true,
                        autosave_enabled: true,
                    },
                )
            },
        }
    }

    /// The name of the settings file.
    pub const DEFAULT_FILENAME: &'static str = "noted_config.json";

    /// The settings file, `noted_config.json` in the system's configuration directory; an
    /// error where the system gives no project directories (`None`).
    pub fn default_config_file(config_dir: Option<String>) -> (r: Result<String, Error>)
        ensures
            config_dir is None ==> (r matches Err(e) && no_project_dirs(e)),
            config_dir matches Some(d) ==> (r matches Ok(p) && p@ == join_path(
                d@,
                "noted_config.json"@,
            )),
    {
        match config_dir {
            None => Err(no_project_dirs_error()),
            Some(dir) => Ok(join(dir.as_str(), "noted_config.json")),
        }
    }

    /// The value of a setting as text: a path as it is, a flag as `true` or `false`, a
    /// number in decimal.
    pub fn get_setting(&self, kind: AppSettingKind) -> (v: String)
        ensures
            v@ == setting_text(*self, kind),
            kind == AppSettingKind::DefaultDatabase ==> v@ == self.default_database@,
            kind == AppSettingKind::DefaultSavePath ==> v@ == self.default_save_path@,
            kind == AppSettingKind::LoadDefaultOnStart ==> v@ == bool_text(self.load_default_on_start),
            kind == AppSettingKind::AutosaveEnabled ==> v@ == bool_text(self.autosave_enabled),
            kind == AppSettingKind::AutosaveInterval ==> v@ == decimal_text(
                self.autosave_interval as nat,
            ),
    {
        match kind {
            AppSettingKind::DefaultDatabase => self.default_database.clone(),
            AppSettingKind::LoadDefaultOnStart => bool_to_text(self.load_default_on_start),
            AppSettingKind::DefaultSavePath => self.default_save_path.clone(),
            AppSettingKind::AutosaveInterval => u64_text(self.autosave_interval),
            AppSettingKind::AutosaveEnabled => bool_to_text(self.autosave_enabled),
        }
    }

    /// Sets a setting from text. A path takes any text; a flag takes `true` or `false`; the
    /// interval takes a decimal number that fits in a `u64` (with an optional `+`).
    /// `None`, with the setting left as it was, where the text is not a value of it.
    pub fn set_setting(&mut self, key: AppSettingKind, value: &str) -> (r: Option<()>)
        ensures
            setting_applied(*old(self), key, value@, *final(self), r),
            r is Some <==> setting_accepts(key, value@),
            r is None ==> *final(self) == *old(self),
    {
        match key {
            AppSettingKind::DefaultDatabase => {
                self.default_database = to_owned_string(value);
                Some(())
            },
            AppSettingKind::DefaultSavePath => {
                self.default_save_path = to_owned_string(value);
                Some(())
            },
            AppSettingKind::AutosaveInterval => {
                match parse_u64(value) {
                    Some(n) => {
                        self.autosave_interval = n;
                        Some(())
                    },
                    None => None,
                }
            },
            AppSettingKind::LoadDefaultOnStart => {
                match text_to_bool(value) {
                    Some(b) => {
                        self.load_default_on_start = b;
                        Some(())
                    },
                    None => None,
                }
            },
            AppSettingKind::AutosaveEnabled => {
                match text_to_bool(value) {
                    Some(b) => {
                        self.autosave_enabled = b;
                        Some(())
                    },
                    None => None,
                }
            },
        }
    }
}

/// Setting a setting to the text `get_setting` gives for it keeps its value: every value
/// written as text reads back as itself.
pub proof fn lemma_set_what_get_gives(s: AppSettings)
    ensures
        parse_u64_text(decimal_text(s.autosave_interval as nat)) == Some(s.autosave_interval),
        parse_bool(bool_text(s.load_default_on_start)) == Some(s.load_default_on_start),
        parse_bool(bool_text(s.autosave_enabled)) == Some(s.autosave_enabled),
{
    lemma_u64_text_roundtrip(s.autosave_interval);
    lemma_bool_text_roundtrip(s.load_default_on_start);
    lemma_bool_text_roundtrip(s.autosave_enabled);
}

/// Reading a setting back after setting it from its written form gives that text, and
/// leaves what the other settings read as they were.
pub proof fn lemma_get_what_set_gave(
    before: AppSettings,
    key: AppSettingKind,
    v: Seq<char>,
    after: AppSettings,
    r: Option<()>,
)
    requires
        setting_applied(before, key, v, after, r),
        is_setting_text(key, v),
    ensures
        r is Some,
        setting_text(after, key) == v,
        forall|k: AppSettingKind| k != key ==> #[trigger] setting_text(after, k) == setting_text(before, k),
{
}

} // verus!

//! The user's global settings: what they hold, what they default to, where
//! they are kept, and what loading and saving them report.

use crate::json::{member_texts, object_of_strings, string_object};
use crate::report::{described, report_step};
use crate::store::{
    load_report, report_load, report_save, save_report, SaveFailure, Stored, Wording,
};
use vstd::prelude::*;
use vstd::string::*;

verus! {

/// The settings kept for one user, in a file below the user's
/// configuration directory.
#[derive(Debug)]
pub struct GlobalSettings {
    /// Projects the user opened, most recent first.
    pub recent_projects: Vec<String>,
    /// Free-form editor preferences, carried as they are.
    pub editor_settings: serde_json::Value,
}

/// Mathematical model of [`GlobalSettings`].
pub struct SettingsModel {
    pub recent_projects: Seq<Seq<char>>,
    pub editor_settings: serde_json::Value,
}

impl View for GlobalSettings {
    type V = SettingsModel;

    open spec fn view(&self) -> SettingsModel {
        SettingsModel {
            recent_projects: Seq::new(
                self.recent_projects@.len(),
                |i: int| self.recent_projects@[i]@,
            ),
            editor_settings: self.editor_settings,
        }
    }
}

/// The settings a user has when none are stored: no recent project and an
/// empty object of preferences.
pub open spec fn default_settings() -> SettingsModel {
    SettingsModel { recent_projects: Seq::empty(), editor_settings: string_object(Seq::empty()) }
}

impl Clone for GlobalSettings {
    fn clone(&self) -> (copy: GlobalSettings)
        ensures
            copy@ == self@,
    {
        let mut recent: Vec<String> = Vec::new();
        let mut i: usize = 0;
        while i < self.recent_projects.len()
            invariant
                i <= self.recent_projects.len(),
                recent.len() == i,
                forall|k: int| 0 <= k < i ==> recent@[k]@ == self.recent_projects@[k]@,
            decreases self.recent_projects.len() - i,
        {
            recent.push(self.recent_projects[i].clone());
            i = i + 1;
        }
        let copy = GlobalSettings {
            recent_projects: recent,
            editor_settings: self.editor_settings.clone(),
        };
        proof {
            assert(copy@.recent_projects =~= self@.recent_projects);
        }
        copy
    }
}

impl Default for GlobalSettings {
    fn default() -> (settings: GlobalSettings)
        ensures
            settings@ == default_settings(),
    {
        let members: Vec<(String, String)> = Vec::new();
        proof {
            assert(member_texts(members@) =~= Seq::empty());
        }
        let settings = GlobalSettings {
            recent_projects: Vec::new(),
            editor_settings: object_of_strings(members),
        };
        proof {
            assert(settings@.recent_projects =~= Seq::empty());
        }
        settings
    }
}

/// Directory below the user's configuration directory that holds the
/// settings file.
pub const APP_DIR: &'static str = "incipit";

/// Name of the settings file.
pub const SETTINGS_FILE: &'static str = "settings.json";

/// Asks `dirs::config_dir` for the user's configuration directory, which it
/// takes from the environment and the platform's conventions, and gives the
/// path as text. Whether there is one, and which, is not known here.
#[verifier::external_body]
fn user_config_dir() -> (dir: Option<String>) {
    dirs::config_dir().map(|path| path.to_string_lossy().into_owned())
}

/// The refusal given when the user has no configuration directory.
pub open spec fn no_config_dir() -> Seq<char> {
    "Failed to determine config directory"@
}

/// Where the settings are rooted, given the user's configuration directory
/// if there is one: that directory, below which [`APP_DIR`] holds
/// [`SETTINGS_FILE`].
pub fn settings_root_in(config_dir: Option<String>) -> (root: Result<String, String>)
    ensures
        match config_dir {
            Some(dir) => root == Ok::<String, String>(dir),
            None => root matches Err(message) && message@ == no_config_dir(),
        },
{
    match config_dir {
        Some(dir) => Ok(dir),
        None => Err("Failed to determine config directory".to_owned()),
    }
}

/// Finds the user's configuration directory, below which [`APP_DIR`] holds
/// [`SETTINGS_FILE`]. The only failure is a user without such a directory.
pub fn settings_root() -> (root: Result<String, String>)
    ensures
        root matches Err(message) ==> message@ == no_config_dir(),
{
    settings_root_in(user_config_dir())
}

/// Where the settings file is kept: a directory of the application below
/// the user's configuration directory, and the file's name in it.
#[derive(Debug)]
pub struct SettingsPlace {
    /// The user's configuration directory.
    pub config_dir: String,
    /// Name of the application's directory below it, made if missing.
    pub app_dir: &'static str,
    /// Name of the settings file in the application's directory.
    pub file_name: &'static str,
}

impl SettingsPlace {
    /// This is the place of the settings below the given configuration
    /// directory.
    pub open spec fn is_below(self, config_dir: Seq<char>) -> bool {
        &&& self.config_dir@ == config_dir
        &&& self.app_dir@ == APP_DIR@
        &&& self.file_name@ == SETTINGS_FILE@
    }
}

/// The place of the settings file, given the user's configuration
/// directory if there is one; a user without one is refused.
pub fn settings_place_in(config_dir: Option<String>) -> (place: Result<SettingsPlace, String>)
    ensures
        match config_dir {
            Some(dir) => place matches Ok(found) && found.is_below(dir@),
            None => place matches Err(message) && message@ == no_config_dir(),
        },
{
    match settings_root_in(config_dir) {
        Ok(dir) => Ok(
            SettingsPlace { config_dir: dir, app_dir: APP_DIR, file_name: SETTINGS_FILE },
        ),
        Err(message) => Err(message),
    }
}

/// Finds the place of the settings file below the user's configuration
/// directory. The only failure is a user without such a directory.
pub fn settings_place() -> (place: Result<SettingsPlace, String>)
    ensures
        place matches Ok(found) ==> found.is_below(found.config_dir@),
        place matches Err(message) ==> message@ == no_config_dir(),
{
    settings_place_in(user_config_dir())
}

/// Reports how making the application's directory went.
pub fn report_app_dir(made: Result<(), String>) -> (report: Result<(), String>)
    ensures
        match made {
            Ok(()) => report is Ok,
            Err(reason) => report matches Err(message) && message@ == described(
                "Failed to create config directory"@,
                reason@,
            ),
        },
{
    report_step("Failed to create config directory", made)
}

/// How the global settings store words its failures.
pub open spec fn settings_wording() -> Wording<'static> {
    Wording {
        unreadable: "Failed to read settings",
        malformed: "Failed to parse settings",
        serialize: "Failed to serialize settings",
        write: "Failed to write settings",
    }
}

/// The wording of the global settings store.
pub fn global_settings_wording() -> (wording: Wording<'static>)
    ensures
        wording == settings_wording(),
{
    Wording {
        unreadable: "Failed to read settings",
        malformed: "Failed to parse settings",
        serialize: "Failed to serialize settings",
        write: "Failed to write settings",
    }
}

/// What loading the global settings returns, given what was found in their
/// place: stored settings as they are, the defaults when there is no file,
/// and a failure otherwise.
pub open spec fn loaded_settings(stored: Stored<GlobalSettings>) -> Result<
    SettingsModel,
    Seq<char>,
> {
    match load_report(settings_wording(), stored) {
        None => Ok(default_settings()),
        Some(Ok(settings)) => Ok(settings@),
        Some(Err(text)) => Err(text),
    }
}

/// Loads the global settings from what was found in their place.
pub fn load_global_settings(stored: Stored<GlobalSettings>) -> (result: Result<
    GlobalSettings,
    String,
>)
    ensures
        match loaded_settings(stored) {
            Ok(model) => result matches Ok(settings) && settings@ == model,
            Err(text) => result matches Err(message) && message@ == text,
        },
        stored matches Stored::Parsed(settings) ==> result == Ok::<GlobalSettings, String>(
            settings,
        ),
{
    let wording = global_settings_wording();
    match report_load(&wording, stored) {
        None => Ok(GlobalSettings::default()),
        Some(report) => report,
    }
}

/// Reports how saving the global settings went.
pub fn save_global_settings(saved: Result<(), SaveFailure>) -> (result: Result<(), String>)
    ensures
        match save_report(settings_wording(), saved) {
            Ok(()) => result is Ok,
            Err(text) => result matches Err(message) && message@ == text,
        },
{
    let wording = global_settings_wording();
    report_save(&wording, saved)
}

} // verus!

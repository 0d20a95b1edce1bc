//! Per-project metadata: what it holds, what it defaults to, and what
//! loading and saving it report.

use crate::clock::{is_stamp, timestamp_now};
use crate::json::{member_texts, object_of_strings, string_object};
use crate::store::{
    load_report, report_load, report_save, save_report, SaveFailure, Stored, Wording,
};
use vstd::prelude::*;
use vstd::string::*;

verus! {

/// The metadata kept for one project, in a hidden file at the project root.
#[derive(Debug)]
pub struct ProjectMeta {
    /// The file that was open when the project was last used.
    pub last_opened_file: Option<String>,
    /// The file a compilation starts from.
    pub root_file: String,
    /// Free-form settings, carried as they are.
    pub project_settings: serde_json::Value,
}

/// Mathematical model of [`ProjectMeta`].
pub struct MetaModel {
    pub last_opened_file: Option<Seq<char>>,
    pub root_file: Seq<char>,
    pub project_settings: serde_json::Value,
}

impl View for ProjectMeta {
    type V = MetaModel;

    open spec fn view(&self) -> MetaModel {
        MetaModel {
            last_opened_file: match self.last_opened_file {
                Some(file) => Some(file@),
                None => None,
            },
            root_file: self.root_file@,
            project_settings: self.project_settings,
        }
    }
}

/// File that a new project opens and compiles.
pub const MAIN_FILE: &'static str = "main.tex";

/// Key under which fresh metadata records when it was made.
pub const CREATED_AT: &'static str = "created_at";

/// The metadata a project has when none is stored: the main file open and
/// set as root, and the time of creation as the only setting.
pub open spec fn fresh_meta(created_at: Seq<char>) -> MetaModel {
    MetaModel {
        last_opened_file: Some(MAIN_FILE@),
        root_file: MAIN_FILE@,
        project_settings: string_object(seq![(CREATED_AT@, created_at)]),
    }
}

impl ProjectMeta {
    /// The metadata of a project created at the given time.
    pub fn fresh(created_at: String) -> (meta: ProjectMeta)
        ensures
            meta@ == fresh_meta(created_at@),
    {
        let ghost stamp = created_at@;
        let mut members: Vec<(String, String)> = Vec::new();
        members.push((CREATED_AT.to_owned(), created_at));
        proof {
            assert(member_texts(members@) =~= seq![(CREATED_AT@, stamp)]);
        }
        ProjectMeta {
            last_opened_file: Some(MAIN_FILE.to_owned()),
            root_file: MAIN_FILE.to_owned(),
            project_settings: object_of_strings(members),
        }
    }
}

impl Clone for ProjectMeta {
    fn clone(&self) -> (copy: ProjectMeta)
        ensures
            copy@ == self@,
    {
        ProjectMeta {
            last_opened_file: match &self.last_opened_file {
                Some(file) => Some(file.clone()),
                None => None,
            },
            root_file: self.root_file.clone(),
            project_settings: self.project_settings.clone(),
        }
    }
}

impl Default for ProjectMeta {
    /// Fresh metadata, stamped with the current time.
    fn default() -> (meta: ProjectMeta)
        ensures
            exists|created_at: Seq<char>| is_stamp(created_at) && meta@ == fresh_meta(created_at),
    {
        ProjectMeta::fresh(timestamp_now())
    }
}

/// How the project metadata store words its failures.
pub open spec fn meta_wording() -> Wording<'static> {
    Wording {
        unreadable: "Failed to read project metadata",
        malformed: "Failed to parse project metadata",
        serialize: "Failed to serialize",
        write: "Failed to write metadata",
    }
}

/// The wording of the project metadata store.
pub fn project_meta_wording() -> (wording: Wording<'static>)
    ensures
        wording == meta_wording(),
{
    Wording {
        unreadable: "Failed to read project metadata",
        malformed: "Failed to parse project metadata",
        serialize: "Failed to serialize",
        write: "Failed to write metadata",
    }
}

/// What loading a project's metadata returns, given what was found in its
/// place and the time to stamp fresh metadata with: stored metadata as it
/// is, fresh metadata when there is no file, and a failure otherwise.
pub open spec fn loaded_meta(stored: Stored<ProjectMeta>, now: Seq<char>) -> Result<
    MetaModel,
    Seq<char>,
> {
    match load_report(meta_wording(), stored) {
        None => Ok(fresh_meta(now)),
        Some(Ok(meta)) => Ok(meta@),
        Some(Err(text)) => Err(text),
    }
}

/// Loads a project's metadata from what was found in its place, stamping
/// fresh metadata with `now` when there is no file.
pub fn load_project_meta_at(stored: Stored<ProjectMeta>, now: String) -> (result: Result<
    ProjectMeta,
    String,
>)
    ensures
        match loaded_meta(stored, now@) {
            Ok(model) => result matches Ok(meta) && meta@ == model,
            Err(text) => result matches Err(message) && message@ == text,
        },
        stored matches Stored::Parsed(meta) ==> result == Ok::<ProjectMeta, String>(meta),
{
    let wording = project_meta_wording();
    match report_load(&wording, stored) {
        None => Ok(ProjectMeta::fresh(now)),
        Some(report) => report,
    }
}

/// Loads a project's metadata from what was found in its place. A project
/// without a metadata file gets fresh metadata, stamped with the current
/// time; stored metadata is returned as it is.
pub fn load_project_meta(stored: Stored<ProjectMeta>) -> (result: Result<ProjectMeta, String>)
    ensures
        match load_report(meta_wording(), stored) {
            None => result matches Ok(meta) && exists|now: Seq<char>|
                is_stamp(now) && meta@ == fresh_meta(now),
            Some(Ok(found)) => result == Ok::<ProjectMeta, String>(found),
            Some(Err(text)) => result matches Err(message) && message@ == text,
        },
{
    let wording = project_meta_wording();
    match report_load(&wording, stored) {
        None => Ok(ProjectMeta::default()),
        Some(report) => report,
    }
}

/// Reports how saving a project's metadata went.
pub fn save_project_meta(saved: Result<(), SaveFailure>) -> (result: Result<(), String>)
    ensures
        match save_report(meta_wording(), saved) {
            Ok(()) => result is Ok,
            Err(text) => result matches Err(message) && message@ == text,
        },
{
    let wording = project_meta_wording();
    report_save(&wording, saved)
}

/// Stored metadata comes back from a load as it was saved: loading what a
/// save put in place returns it unchanged, whatever the time.
pub proof fn lemma_load_returns_saved(meta: ProjectMeta, now: Seq<char>)
    ensures
        loaded_meta(Stored::Parsed(meta), now) == Ok::<MetaModel, Seq<char>>(meta@),
{
}

/// A project without a metadata file loads the defaults: the main file
/// open and set as root.
pub proof fn lemma_load_defaults(now: Seq<char>)
    ensures
        loaded_meta(Stored::Absent, now) == Ok::<MetaModel, Seq<char>>(fresh_meta(now)),
        fresh_meta(now).last_opened_file == Some("main.tex"@),
        fresh_meta(now).root_file == "main.tex"@,
{
}

} // verus!

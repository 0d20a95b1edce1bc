//! Opening, reading, writing and creating projects: what is checked before
//! the file system is touched and what is reported afterwards.

use crate::clock::is_stamp;
use crate::meta::{fresh_meta, ProjectMeta, MAIN_FILE};
use crate::names::{is_hidden, is_hidden_name, BUILD_DIR};
use crate::report::{describe, described, report_step};
use crate::tree::{
    build_file_tree, shown_tree, unreadable_message, DiskEntry, FileNode, NodeModel,
};
use crate::tree_laws::well_formed;
use vstd::prelude::*;
use vstd::string::*;

verus! {

/// What opening a project returns, given the path that was asked for and
/// what was found there: the tree of a directory, and a failure for a path
/// that does not exist, is no directory, or cannot be listed.
pub open spec fn opened(path: Seq<char>, found: Option<DiskEntry>) -> Result<
    NodeModel,
    Seq<char>,
> {
    match found {
        None => Err(described("Path does not exist"@, path)),
        Some(DiskEntry::File { .. }) => Err(described("Path is not a directory"@, path)),
        Some(DiskEntry::Unreadable { reason, .. }) => Err(unreadable_message(path, reason@)),
        Some(root) => Ok(shown_tree(root, Seq::empty())->0),
    }
}

/// Opens the project at `path`, given what was found there.
pub fn open_project(path: &str, found: &Option<DiskEntry>) -> (result: Result<FileNode, String>)
    ensures
        match opened(path@, *found) {
            Ok(model) => result matches Ok(tree) && tree@ == model,
            Err(text) => result matches Err(message) && message@ == text,
        },
        result matches Ok(tree) ==> well_formed(tree@),
{
    match found {
        None => Err(describe("Path does not exist", path)),
        Some(DiskEntry::File { .. }) => Err(describe("Path is not a directory", path)),
        Some(root) => build_file_tree(path, root),
    }
}

/// What reading a project file is reported as, given the path that was
/// asked for and how the read went.
pub fn report_read(file_path: &str, read: Result<String, String>) -> (result: Result<
    String,
    String,
>)
    ensures
        match read {
            Ok(text) => result == Ok::<String, String>(text),
            Err(reason) => result matches Err(message) && message@ == described(
                "Failed to read file "@ + file_path@,
                reason@,
            ),
        },
{
    let mut context = "Failed to read file ".to_owned();
    context.append(file_path);
    report_step(context.as_str(), read)
}

/// What writing a project file is reported as, given the path that was
/// asked for and how the write went.
pub fn report_write(file_path: &str, written: Result<(), String>) -> (result: Result<(), String>)
    ensures
        match written {
            Ok(()) => result is Ok,
            Err(reason) => result matches Err(message) && message@ == described(
                "Failed to write file "@ + file_path@,
                reason@,
            ),
        },
{
    let mut context = "Failed to write file ".to_owned();
    context.append(file_path);
    report_step(context.as_str(), written)
}

/// A directory can take a new project when everything in it is hidden.
pub open spec fn is_vacant(names: Seq<String>) -> bool {
    forall|i: int| 0 <= i < names.len() ==> is_hidden_name(#[trigger] names[i]@)
}

/// The refusal given for a directory that already holds something.
pub open spec fn not_vacant() -> Seq<char> {
    "Directory is not empty. Please choose an empty directory for the new project."@
}

/// Checks that a directory can take a new project, given the names of its
/// entries.
pub fn check_vacant(names: &Vec<String>) -> (result: Result<(), String>)
    ensures
        is_vacant(names@) ==> result is Ok,
        !is_vacant(names@) ==> (result matches Err(message) && message@ == not_vacant()),
{
    let mut i: usize = 0;
    while i < names.len()
        invariant
            i <= names.len(),
            forall|k: int| 0 <= k < i ==> is_hidden_name(#[trigger] names@[k]@),
        decreases names.len() - i,
    {
        if !is_hidden(names[i].as_str()) {
            let refusal =
                "Directory is not empty. Please choose an empty directory for the new project.";
            return Err(refusal.to_owned());
        }
        i = i + 1;
    }
    Ok(())
}

/// The first content of a new project's main file.
pub const MAIN_FILE_TEMPLATE: &'static str = r#"\documentclass{article}
\usepackage[utf8]{inputenc}
\usepackage{graphicx}
\usepackage{amsmath}

\title{New LaTeX Project}
\author{Your Name}
\date{\today}

\begin{document}

\maketitle

\section{Introduction}

Welcome to your new LaTeX project! This is a properly configured project with:

\begin{itemize}
    \item A dedicated build directory for compiled outputs
    \item Project-based compilation with Tectonic
    \item Support for multi-file projects with \texttt{\textbackslash input} and \texttt{\textbackslash include}
\end{itemize}

\section{Getting Started}

Start editing this file or create new \texttt{.tex} files in your project.
Use the file tree on the left to navigate between files.

\subsection{Mathematical Equations}

Here's an example equation:
\[
    E = mc^2
\]

\end{document}"#;

/// What a new project is made of: a build directory, a main file with its
/// first content, and fresh metadata.
#[derive(Debug)]
pub struct NewProject {
    /// Name of the directory to create below the project root.
    pub build_dir: &'static str,
    /// Name of the main file to write at the project root.
    pub main_file: &'static str,
    /// What to write into the main file.
    pub main_content: &'static str,
    /// The metadata to save.
    pub meta: ProjectMeta,
}

impl NewProject {
    /// The plan is the one every new project gets, with metadata made at
    /// the given time.
    pub open spec fn is_standard(self, created_at: Seq<char>) -> bool {
        &&& self.build_dir@ == BUILD_DIR@
        &&& self.main_file@ == MAIN_FILE@
        &&& self.main_content@ == MAIN_FILE_TEMPLATE@
        &&& self.meta@ == fresh_meta(created_at)
    }
}

/// Plans a new project in a directory, given the names of the directory's
/// entries and the time of creation: a directory that holds anything not
/// hidden is refused, a vacant one gets the standard plan.
pub fn create_new_project_at(names: &Vec<String>, created_at: String) -> (result: Result<
    NewProject,
    String,
>)
    ensures
        is_vacant(names@) ==> (result matches Ok(plan) && plan.is_standard(created_at@)),
        !is_vacant(names@) ==> (result matches Err(message) && message@ == not_vacant()),
{
    match check_vacant(names) {
        Err(message) => Err(message),
        Ok(()) => Ok(
            NewProject {
                build_dir: BUILD_DIR,
                main_file: MAIN_FILE,
                main_content: MAIN_FILE_TEMPLATE,
                meta: ProjectMeta::fresh(created_at),
            },
        ),
    }
}

/// Plans a new project in a directory, given the names of the directory's
/// entries: a directory that holds anything not hidden is refused, a vacant
/// one gets the standard plan, with metadata stamped with the current time.
pub fn create_new_project(names: &Vec<String>) -> (result: Result<NewProject, String>)
    ensures
        is_vacant(names@) ==> (result matches Ok(plan) && exists|created_at: Seq<char>|
            is_stamp(created_at) && plan.is_standard(created_at)),
        !is_vacant(names@) ==> (result matches Err(message) && message@ == not_vacant()),
{
    match check_vacant(names) {
        Err(message) => Err(message),
        Ok(()) => {
            let meta = ProjectMeta::default();
            let plan = NewProject {
                build_dir: BUILD_DIR,
                main_file: MAIN_FILE,
                main_content: MAIN_FILE_TEMPLATE,
                meta,
            };
            proof {
                let created_at = choose|created_at: Seq<char>|
                    is_stamp(created_at) && meta@ == fresh_meta(created_at);
                assert(plan.is_standard(created_at));
            }
            Ok(plan)
        },
    }
}

/// One step of creating a project that the caller performs.
#[derive(Debug, Clone, Copy, PartialEq, Eq, Structural)]
pub enum CreateStage {
    /// Make the project directory unless it exists.
    CreateProjectDir,
    /// List the project directory, to see that it is vacant.
    ListProjectDir,
    /// Make the build directory.
    CreateBuildDir,
    /// Write the main file with its first content.
    WriteMainFile,
}

impl CreateStage {
    /// What a failure of this stage is reported as, before the reason.
    pub open spec fn context(self) -> Seq<char> {
        match self {
            CreateStage::CreateProjectDir => "Failed to create project directory"@,
            CreateStage::ListProjectDir => "Failed to read project directory"@,
            CreateStage::CreateBuildDir => "Failed to create build directory"@,
            CreateStage::WriteMainFile => "Failed to create main.tex"@,
        }
    }

    /// The context under which a failure of this stage is reported.
    pub fn failure_context(&self) -> (context: &'static str)
        ensures
            context@ == self.context(),
    {
        match self {
            CreateStage::CreateProjectDir => "Failed to create project directory",
            CreateStage::ListProjectDir => "Failed to read project directory",
            CreateStage::CreateBuildDir => "Failed to create build directory",
            CreateStage::WriteMainFile => "Failed to create main.tex",
        }
    }
}

/// Reports how a step of creating a project went: its value, or its
/// failure under the stage's context.
pub fn report_create<T>(stage: CreateStage, done: Result<T, String>) -> (report: Result<T, String>)
    ensures
        match done {
            Ok(value) => report == Ok::<T, String>(value),
            Err(reason) => report matches Err(message) && message@ == described(
                stage.context(),
                reason@,
            ),
        },
{
    report_step(stage.failure_context(), done)
}

} // verus!

//! The compilation dispatcher: the order of the steps that turn a source
//! file into a document, what each failure is reported as, and what counts
//! as a compiled document.
//!
//! The steps themselves (writing files, running the engine) are performed
//! by the caller; this module decides what comes next and what is returned.

use crate::names::BUILD_DIR;
use crate::report::{describe, described, lemma_described_ends_with_detail};
use crate::sandbox::{
    access_decision, access_denied, authorize_write, lies_within, resolved, write_decision,
    Resolved, WriteTarget,
};
use vstd::prelude::*;
use vstd::string::*;

verus! {

/// One step of a compilation that the caller performs.
#[derive(Debug, Clone, Copy, PartialEq, Eq, Structural)]
pub enum CompileStage {
    /// Write the editor's text to the source file, so that includes resolve.
    WriteSource,
    /// Make sure the build directory exists.
    CreateBuildDir,
    /// Open the engine's configuration.
    OpenConfig,
    /// Get the bundle of packages the engine draws on.
    LoadBundle,
    /// Find where the engine caches its formats.
    LocateFormatCache,
    /// Set the engine up for this project and file.
    CreateSession,
    /// Run the engine.
    RunEngine,
}

impl CompileStage {
    /// Position of the stage in a compilation, counted from 0.
    pub open spec fn rank(self) -> nat {
        match self {
            CompileStage::WriteSource => 0,
            CompileStage::CreateBuildDir => 1,
            CompileStage::OpenConfig => 2,
            CompileStage::LoadBundle => 3,
            CompileStage::LocateFormatCache => 4,
            CompileStage::CreateSession => 5,
            CompileStage::RunEngine => 6,
        }
    }

    /// The stage that follows this one, if any.
    pub open spec fn following(self) -> Option<CompileStage> {
        match self {
            CompileStage::WriteSource => Some(CompileStage::CreateBuildDir),
            CompileStage::CreateBuildDir => Some(CompileStage::OpenConfig),
            CompileStage::OpenConfig => Some(CompileStage::LoadBundle),
            CompileStage::LoadBundle => Some(CompileStage::LocateFormatCache),
            CompileStage::LocateFormatCache => Some(CompileStage::CreateSession),
            CompileStage::CreateSession => Some(CompileStage::RunEngine),
            CompileStage::RunEngine => None,
        }
    }

    /// What a failure of this stage is reported as, before the reason.
    pub open spec fn context(self) -> Seq<char> {
        match self {
            CompileStage::WriteSource => "Failed to write file"@,
            CompileStage::CreateBuildDir => "Failed to create build directory"@,
            CompileStage::OpenConfig => "Failed to open Tectonic config"@,
            CompileStage::LoadBundle => "Failed to get bundle"@,
            CompileStage::LocateFormatCache => "Failed to get format cache path"@,
            CompileStage::CreateSession => "Failed to create session"@,
            CompileStage::RunEngine => "LaTeX compilation failed"@,
        }
    }

    /// The context under which a failure of this stage is reported.
    pub fn failure_context(&self) -> (context: &'static str)
        ensures
            context@ == self.context(),
    {
        match self {
            CompileStage::WriteSource => "Failed to write file",
            CompileStage::CreateBuildDir => "Failed to create build directory",
            CompileStage::OpenConfig => "Failed to open Tectonic config",
            CompileStage::LoadBundle => "Failed to get bundle",
            CompileStage::LocateFormatCache => "Failed to get format cache path",
            CompileStage::CreateSession => "Failed to create session",
            CompileStage::RunEngine => "LaTeX compilation failed",
        }
    }
}

/// What the caller does after a stage.
#[derive(Debug)]
pub enum CompileStep {
    /// Perform this stage next.
    Run(CompileStage),
    /// The engine has run: look for the document it wrote.
    Collect,
    /// Give up and report this failure.
    Fail(String),
}

/// A compilation starts by writing the source.
pub fn first_stage() -> (stage: CompileStage)
    ensures
        stage == CompileStage::WriteSource,
        stage.rank() == 0,
{
    CompileStage::WriteSource
}

/// How a compilation begins, given what the sandbox says to the write of
/// the source: with the first stage if the write is allowed, and with the
/// sandbox's refusal, before anything is written or run, if it is not.
pub open spec fn started(decision: Result<(), Seq<char>>) -> Result<CompileStage, Seq<char>> {
    match decision {
        Ok(()) => Ok(CompileStage::WriteSource),
        Err(refusal) => Err(refusal),
    }
}

/// Begins a compilation, given what resolving the project directory gave
/// and the path that stands for the source file in the sandbox check.
///
/// The source is written first, so the sandbox is asked first: a source
/// outside the project ends the compilation with the sandbox's refusal, and
/// no stage is performed.
pub fn start_compile(project: &Resolved, source: &WriteTarget) -> (step: CompileStep)
    ensures
        match started(write_decision(resolved(*project), *source)) {
            Ok(stage) => step == CompileStep::Run(stage),
            Err(refusal) => step matches CompileStep::Fail(message) && message@ == refusal,
        },
        !(step is Collect),
{
    match authorize_write(project, source) {
        Ok(()) => CompileStep::Run(first_stage()),
        Err(refusal) => CompileStep::Fail(refusal),
    }
}

/// What the engine writes.
#[derive(Debug, Clone, Copy, PartialEq, Eq, Structural)]
pub enum OutputKind {
    /// The auxiliary file only.
    Aux,
    /// Web pages.
    Html,
    /// The extended device-independent file.
    Xdv,
    /// A PDF document.
    Pdf,
    /// A format file.
    Format,
}

/// What the engine is set up with for one compilation.
#[derive(Debug)]
pub struct EnginePlan {
    /// Name of the input, relative to the project root, which is the root
    /// of the engine's file system.
    pub tex_input_name: String,
    /// Name of the format the input is written in.
    pub format_name: &'static str,
    /// Directory below the project root that receives the output.
    pub output_dir: &'static str,
    /// What the engine writes.
    pub output_format: OutputKind,
    /// Whether the engine's log files are kept.
    pub keep_logs: bool,
    /// Whether the engine's intermediate files are kept.
    pub keep_intermediates: bool,
    /// Whether the engine prints what the document prints.
    pub print_stdout: bool,
    /// Whether a missing configuration file is created.
    pub create_config: bool,
    /// Whether only a bundle that is already cached may be used.
    pub only_cached_bundle: bool,
}

impl EnginePlan {
    /// The plan is the one every project compilation runs with: LaTeX in,
    /// a PDF in the build directory out, nothing else kept or printed, no
    /// configuration file created, and any bundle allowed.
    pub open spec fn is_standard(self, file_path: Seq<char>) -> bool {
        &&& self.tex_input_name@ == file_path
        &&& self.format_name@ == "latex"@
        &&& self.output_dir@ == BUILD_DIR@
        &&& self.output_format == OutputKind::Pdf
        &&& !self.keep_logs
        &&& !self.keep_intermediates
        &&& !self.print_stdout
        &&& !self.create_config
        &&& !self.only_cached_bundle
    }
}

/// Plans the engine's setup for compiling the file at `file_path`, a path
/// relative to the project root.
pub fn engine_plan(file_path: &str) -> (plan: EnginePlan)
    ensures
        plan.is_standard(file_path@),
{
    EnginePlan {
        tex_input_name: file_path.to_owned(),
        format_name: "latex",
        output_dir: BUILD_DIR,
        output_format: OutputKind::Pdf,
        keep_logs: false,
        keep_intermediates: false,
        print_stdout: false,
        create_config: false,
        only_cached_bundle: false,
    }
}

/// Decides what follows a stage, given how the stage went: a failure ends
/// the compilation and is reported under the stage's context; after a
/// success the next stage runs, and after the engine the document is
/// collected.
pub fn advance(stage: CompileStage, done: Result<(), String>) -> (step: CompileStep)
    ensures
        match done {
            Err(reason) => step matches CompileStep::Fail(message) && message@ == described(
                stage.context(),
                reason@,
            ),
            Ok(()) => match stage.following() {
                Some(next) => step == CompileStep::Run(next),
                None => step is Collect,
            },
        },
{
    match done {
        Err(reason) => CompileStep::Fail(describe(stage.failure_context(), reason.as_str())),
        Ok(()) => match stage {
            CompileStage::WriteSource => CompileStep::Run(CompileStage::CreateBuildDir),
            CompileStage::CreateBuildDir => CompileStep::Run(CompileStage::OpenConfig),
            CompileStage::OpenConfig => CompileStep::Run(CompileStage::LoadBundle),
            CompileStage::LoadBundle => CompileStep::Run(CompileStage::LocateFormatCache),
            CompileStage::LocateFormatCache => CompileStep::Run(CompileStage::CreateSession),
            CompileStage::CreateSession => CompileStep::Run(CompileStage::RunEngine),
            CompileStage::RunEngine => CompileStep::Collect,
        },
    }
}

/// Each stage is followed by the one ranked next, and only the engine run
/// is followed by none: a compilation passes through every stage once, in
/// order, and runs the engine last.
pub proof fn lemma_stages_in_order(stage: CompileStage)
    ensures
        stage.rank() <= 6,
        stage.following() matches Some(next) ==> next.rank() == stage.rank() + 1,
        stage.following() is None <==> stage == CompileStage::RunEngine,
{
}

/// A place where a compiled document is looked for.
#[derive(Debug, Clone, Copy, PartialEq, Eq, Structural)]
pub enum PdfPlace {
    /// The build directory below the project root.
    BuildDir,
    /// The project root itself.
    ProjectRoot,
}

/// Where the document of a compilation is taken from, given where a file of
/// its name exists: the build directory if it is there, else the project
/// root if it is there, else nowhere.
pub open spec fn located(in_build_dir: bool, in_project_root: bool) -> Option<PdfPlace> {
    if in_build_dir {
        Some(PdfPlace::BuildDir)
    } else if in_project_root {
        Some(PdfPlace::ProjectRoot)
    } else {
        None
    }
}

/// Chooses where the document of a compilation is taken from, given where
/// a file of its name exists. The build directory comes first; the project
/// root is the fallback.
pub fn locate_pdf(in_build_dir: bool, in_project_root: bool) -> (place: Option<PdfPlace>)
    ensures
        place == located(in_build_dir, in_project_root),
        place is None <==> !in_build_dir && !in_project_root,
{
    if in_build_dir {
        Some(PdfPlace::BuildDir)
    } else if in_project_root {
        Some(PdfPlace::ProjectRoot)
    } else {
        None
    }
}

/// What was found where the engine writes the document.
#[derive(Debug)]
pub enum PdfFile {
    /// There is no such file.
    Missing,
    /// The file is there but could not be read, with the reason.
    Unreadable(String),
    /// The bytes of the file.
    Bytes(Vec<u8>),
}

/// What is returned for a document that was looked for at `pdf_path`: its
/// bytes; a failure if it is missing or unreadable; and, where an empty
/// document counts as none, a failure if it is empty.
pub open spec fn pdf_outcome(pdf_path: Seq<char>, file: PdfFile, reject_empty: bool) -> Result<
    Seq<u8>,
    Seq<char>,
> {
    match file {
        PdfFile::Missing => Err(described("PDF not found at"@, pdf_path)),
        PdfFile::Unreadable(reason) => Err(described("Failed to read PDF"@, reason@)),
        PdfFile::Bytes(bytes) => if reject_empty && bytes@.len() == 0 {
            Err("Compilation produced no output"@)
        } else {
            Ok(bytes@)
        },
    }
}

fn pdf_result(pdf_path: &str, file: PdfFile, reject_empty: bool) -> (result: Result<
    Vec<u8>,
    String,
>)
    ensures
        match pdf_outcome(pdf_path@, file, reject_empty) {
            Ok(bytes) => result matches Ok(found) && found@ == bytes,
            Err(text) => result matches Err(message) && message@ == text,
        },
{
    match file {
        PdfFile::Missing => Err(describe("PDF not found at", pdf_path)),
        PdfFile::Unreadable(reason) => Err(describe("Failed to read PDF", reason.as_str())),
        PdfFile::Bytes(bytes) => {
            if reject_empty && bytes.len() == 0 {
                Err("Compilation produced no output".to_owned())
            } else {
                Ok(bytes)
            }
        },
    }
}

/// Ends a compilation whose engine run succeeded, given what was found at
/// `pdf_path`, where the engine writes the document. Only a document that
/// is there, readable and not empty is returned.
pub fn collect_pdf(pdf_path: &str, file: PdfFile) -> (result: Result<Vec<u8>, String>)
    ensures
        match pdf_outcome(pdf_path@, file, true) {
            Ok(bytes) => result matches Ok(found) && found@ == bytes,
            Err(text) => result matches Err(message) && message@ == text,
        },
        result matches Ok(found) ==> found@.len() > 0,
{
    pdf_result(pdf_path, file, true)
}

/// Hands out a document compiled earlier, given what was found at
/// `pdf_path`: its bytes as they are, or why there are none.
pub fn load_pdf(pdf_path: &str, file: PdfFile) -> (result: Result<Vec<u8>, String>)
    ensures
        match pdf_outcome(pdf_path@, file, false) {
            Ok(bytes) => result matches Ok(found) && found@ == bytes,
            Err(text) => result matches Err(message) && message@ == text,
        },
{
    pdf_result(pdf_path, file, false)
}

/// What compiling a single document in memory returns, given what the
/// engine gave back: its failure under the engine's context, and a failure
/// too when it gave back nothing.
pub open spec fn standalone_outcome(compiled: Result<Vec<u8>, String>) -> Result<
    Seq<u8>,
    Seq<char>,
> {
    match compiled {
        Err(reason) => Err(described(CompileStage::RunEngine.context(), reason@)),
        Ok(bytes) => if bytes@.len() == 0 {
            Err("Compilation produced no output"@)
        } else {
            Ok(bytes@)
        },
    }
}

/// Ends the compilation of a single document in memory, given what the
/// engine gave back. Only a document that is not empty is returned.
pub fn collect_standalone(compiled: Result<Vec<u8>, String>) -> (result: Result<Vec<u8>, String>)
    ensures
        match standalone_outcome(compiled) {
            Ok(bytes) => result matches Ok(found) && found@ == bytes,
            Err(text) => result matches Err(message) && message@ == text,
        },
        result matches Ok(found) ==> found@.len() > 0,
{
    match compiled {
        Err(reason) => Err(
            describe(CompileStage::RunEngine.failure_context(), reason.as_str()),
        ),
        Ok(bytes) => {
            if bytes.len() == 0 {
                Err("Compilation produced no output".to_owned())
            } else {
                Ok(bytes)
            }
        },
    }
}

/// What is reported when the worker that ran a compilation did not finish.
pub fn worker_failure(reason: &str) -> (message: String)
    ensures
        message@ == described("Task join error"@, reason@),
{
    describe("Task join error", reason)
}

/// A compilation whose source resolves outside the project is refused
/// before its first stage: nothing is written and the engine is not run.
pub proof fn lemma_outside_source_is_refused(root: Seq<Seq<char>>, source: Seq<Seq<char>>)
    requires
        !lies_within(root, source),
    ensures
        started(access_decision(Ok(root), Ok(source))) == Err::<CompileStage, Seq<char>>(
            access_denied(),
        ),
{
}

/// When the engine fails, the compilation fails with a text that ends with
/// the engine's own diagnostic, unchanged.
pub proof fn lemma_engine_failure_reported(reason: String)
    ensures
        ({
            let text = described(CompileStage::RunEngine.context(), reason@);
            &&& standalone_outcome(Err(reason)) == Err::<Seq<u8>, Seq<char>>(text)
            &&& text.len() >= reason@.len()
            &&& text.subrange(text.len() - reason@.len(), text.len() as int) == reason@
        }),
{
    lemma_described_ends_with_detail(CompileStage::RunEngine.context(), reason@);
}

/// A compilation never returns an empty document, and it returns a
/// document only if one was found and read.
pub proof fn lemma_compiled_is_not_empty(pdf_path: Seq<char>, file: PdfFile)
    ensures
        pdf_outcome(pdf_path, file, true) matches Ok(bytes) ==> bytes.len() > 0 && (file
            matches PdfFile::Bytes(found) && found@ == bytes),
        file is Missing ==> pdf_outcome(pdf_path, file, true) == Err::<Seq<u8>, Seq<char>>(
            described("PDF not found at"@, pdf_path),
        ),
{
}

} // verus!

//! The creation of a project, step by step: the target directory is
//! cleared and made, `cargo init` sets up the package, the manifest gets its
//! dependencies, the files of the template are written, and the first commit
//! is made. This module decides what comes next; the caller does it and
//! reports back.

use crate::files::{join_path, joined, FileState, FileView};
use crate::manifest::{ManifestError, Requirement, RequirementView};
use crate::project::{add_dependency, dependency_outcome, DependencyError, MANIFEST_FILE};
use crate::store::{asset_views, TemplateAsset, TemplateAssetView};
use crate::text::{copy_bytes, encode};
use vstd::prelude::*;
use vstd::utf8::encode_utf8;

verus! {

/// The number of dependencies that a new project gets.
pub const DEPENDENCY_COUNT: usize = 20;

/// What the user is asked before an existing target is removed.
pub const DELETION_PROMPT: &'static str = "Delete directory contents?";

/// The dependencies of a new project, in the order in which they are added:
/// of each its name and what is asked of it.
pub open spec fn dependency_table() -> Seq<(Seq<char>, RequirementView)> {
    seq![
        ("actix-files"@, RequirementView::Version("0.5.0"@)),
        ("actix-http"@, RequirementView::Version("2.2.0"@)),
        ("actix-web"@, RequirementView::Version("3.3.2"@)),
        ("actix-web-httpauth"@, RequirementView::Version("0.5.0"@)),
        ("anyhow"@, RequirementView::Version("1.0.33"@)),
        ("chrono"@, RequirementView::Detailed("version = \"0.4.19\"\nfeatures = [\"serde\"]"@)),
        ("derive_more"@, RequirementView::Version("0.99.11"@)),
        ("diesel"@, RequirementView::Detailed("version = \"1.4.5\"\nfeatures = [\"postgres\", \"uuid\", \"r2d2\", \"chrono\", \"32-column-tables\"]\ndefault-features = false"@)),
        ("dotenv"@, RequirementView::Version("0.15.0"@)),
        ("env_logger"@, RequirementView::Version("0.8.1"@)),
        ("futures-util"@, RequirementView::Version("0.3.8"@)),
        ("jsonwebtoken"@, RequirementView::Version("7.2.0"@)),
        ("lettre"@, RequirementView::Version("0.9.5"@)),
        ("lettre_email"@, RequirementView::Version("0.9.4"@)),
        ("sentry"@, RequirementView::Version("0.22.0"@)),
        ("serde"@, RequirementView::Detailed("version = \"1.0.117\"\nfeatures = [\"derive\"]"@)),
        ("serde_derive"@, RequirementView::Version("1.0.117"@)),
        ("serde_json"@, RequirementView::Version("1.0.59"@)),
        ("tsync"@, RequirementView::Version("1.0.1"@)),
        ("uuid"@, RequirementView::Detailed("version = \"0.8.1\"\nfeatures = [\"serde\", \"v4\"]"@)),
    ]
}

/// The table holds as many dependencies as a new project gets.
pub proof fn lemma_dependency_table_len()
    ensures
        dependency_table().len() == DEPENDENCY_COUNT,
{
}

/// One dependency of a project.
#[derive(Clone, Debug)]
pub struct Dependency {
    pub name: String,
    pub requirement: Requirement,
}

impl View for Dependency {
    type V = (Seq<char>, RequirementView);

    open spec fn view(&self) -> (Seq<char>, RequirementView) {
        (self.name@, self.requirement@)
    }
}

/// Dependency `index` of a new project.
pub fn dependency(index: usize) -> (found: Option<Dependency>)
    ensures
        found is Some <==> index < DEPENDENCY_COUNT,
        found matches Some(dependency) ==> dependency@ == dependency_table()[index as int],
{
    let (name, requirement) = match index {
        0 => ("actix-files", Requirement::Version("0.5.0".to_owned())),
        1 => ("actix-http", Requirement::Version("2.2.0".to_owned())),
        2 => ("actix-web", Requirement::Version("3.3.2".to_owned())),
        3 => ("actix-web-httpauth", Requirement::Version("0.5.0".to_owned())),
        4 => ("anyhow", Requirement::Version("1.0.33".to_owned())),
        5 => ("chrono", Requirement::Detailed("version = \"0.4.19\"\nfeatures = [\"serde\"]".to_owned())),
        6 => ("derive_more", Requirement::Version("0.99.11".to_owned())),
        7 => ("diesel", Requirement::Detailed("version = \"1.4.5\"\nfeatures = [\"postgres\", \"uuid\", \"r2d2\", \"chrono\", \"32-column-tables\"]\ndefault-features = false".to_owned())),
        8 => ("dotenv", Requirement::Version("0.15.0".to_owned())),
        9 => ("env_logger", Requirement::Version("0.8.1".to_owned())),
        10 => ("futures-util", Requirement::Version("0.3.8".to_owned())),
        11 => ("jsonwebtoken", Requirement::Version("7.2.0".to_owned())),
        12 => ("lettre", Requirement::Version("0.9.5".to_owned())),
        13 => ("lettre_email", Requirement::Version("0.9.4".to_owned())),
        14 => ("sentry", Requirement::Version("0.22.0".to_owned())),
        15 => ("serde", Requirement::Detailed("version = \"1.0.117\"\nfeatures = [\"derive\"]".to_owned())),
        16 => ("serde_derive", Requirement::Version("1.0.117".to_owned())),
        17 => ("serde_json", Requirement::Version("1.0.59".to_owned())),
        18 => ("tsync", Requirement::Version("1.0.1".to_owned())),
        19 => ("uuid", Requirement::Detailed("version = \"0.8.1\"\nfeatures = [\"serde\", \"v4\"]".to_owned())),
        _ => {
            return None;
        },
    };
    Some(Dependency { name: name.to_owned(), requirement })
}

/// Which answer the creation of a project is waiting for.
#[derive(Clone, Copy, Debug, PartialEq, Eq, Structural)]
pub enum CreateStep {
    /// Whether the target exists.
    ProbeTarget,
    /// The full path of the target, which exists.
    ResolveTarget,
    /// Whether the user agrees to the removal of the target.
    ConfirmDeletion,
    /// The removal of the target and all it holds.
    RemoveTarget,
    /// The making of the target directory.
    MakeTarget,
    /// `cargo init` in the target.
    CargoInit,
    /// The reading of the manifest, for the dependency with this index.
    ReadManifest(usize),
    /// The writing of the manifest, with the dependency with this index in
    /// it.
    WriteManifest(usize),
    /// The writing of the asset with this index.
    WriteAsset(usize),
    /// `git init`.
    GitInit,
    /// `git add -A`.
    GitAddAll,
    /// `git commit -m "Initial commit"`.
    GitCommit,
    /// `git branch -M main`.
    GitRenameBranch,
    /// Nothing: the creation is over.
    Finished,
}

/// How the creation of a project ended.
#[derive(Clone, Copy, Debug, PartialEq, Eq, Structural)]
pub enum Ending {
    /// The project stands.
    Created,
    /// The target exists, and the user did not agree to its removal.
    Declined,
    /// The step named did not go through.
    Failed(CreateStep),
    /// The dependency with this index could not be put into the manifest.
    Manifest(usize, ManifestError),
}

/// What the caller is asked to do next.
#[derive(Clone, Debug)]
pub enum CreateRequest {
    /// Find out whether anything exists at `path`.
    Probe { path: String },
    /// Find the full path of `path`.
    Resolve { path: String },
    /// Put the question `prompt` to the user; no answer means no.
    Confirm { prompt: String },
    /// Remove the directory `path` and all it holds.
    RemoveDirectory { path: String },
    /// Create the directory `path` and the directories above it that are
    /// missing.
    CreateDirectory { path: String },
    /// Run `program` with `arguments` in `directory`; where `quiet`, its
    /// output is dropped.
    Run { program: String, arguments: Vec<String>, directory: String, quiet: bool },
    /// Read the whole of `path` as text.
    Read { path: String },
    /// Write the whole of `content` to `path`, after creating the
    /// directories above it that are missing.
    Write { path: String, content: Vec<u8> },
    /// Nothing more: the creation is over, and ended so.
    Finish(Ending),
}

/// A request, its texts as sequences.
pub enum CreateRequestView {
    Probe { path: Seq<char> },
    Resolve { path: Seq<char> },
    Confirm { prompt: Seq<char> },
    RemoveDirectory { path: Seq<char> },
    CreateDirectory { path: Seq<char> },
    Run { program: Seq<char>, arguments: Seq<Seq<char>>, directory: Seq<char>, quiet: bool },
    Read { path: Seq<char> },
    Write { path: Seq<char>, content: Seq<u8> },
    Finish(Ending),
}

impl View for CreateRequest {
    type V = CreateRequestView;

    open spec fn view(&self) -> CreateRequestView {
        match self {
            CreateRequest::Probe { path } => CreateRequestView::Probe { path: path@ },
            CreateRequest::Resolve { path } => CreateRequestView::Resolve { path: path@ },
            CreateRequest::Confirm { prompt } => CreateRequestView::Confirm { prompt: prompt@ },
            CreateRequest::RemoveDirectory { path } => CreateRequestView::RemoveDirectory {
                path: path@,
            },
            CreateRequest::CreateDirectory { path } => CreateRequestView::CreateDirectory {
                path: path@,
            },
            CreateRequest::Run { program, arguments, directory, quiet } => CreateRequestView::Run {
                program: program@,
                arguments: arguments@.map_values(|argument: String| argument@),
                directory: directory@,
                quiet: *quiet,
            },
            CreateRequest::Read { path } => CreateRequestView::Read { path: path@ },
            CreateRequest::Write { path, content } => CreateRequestView::Write {
                path: path@,
                content: content@,
            },
            CreateRequest::Finish(ending) => CreateRequestView::Finish(*ending),
        }
    }
}

/// What the caller reports of the last request.
#[derive(Clone, Debug)]
pub enum CreateResponse {
    /// The answer to a question is yes.
    Yes,
    /// The answer to a question is no.
    No,
    /// What was asked for has been done.
    Done,
    /// What was asked for could not be done.
    Failed,
    /// The full path asked for.
    Path(String),
    /// What the read found.
    File(FileState),
}

/// An answer, its texts as character sequences.
pub enum CreateResponseView {
    Yes,
    No,
    Done,
    Failed,
    Path(Seq<char>),
    File(FileView),
}

impl View for CreateResponse {
    type V = CreateResponseView;

    open spec fn view(&self) -> CreateResponseView {
        match self {
            CreateResponse::Yes => CreateResponseView::Yes,
            CreateResponse::No => CreateResponseView::No,
            CreateResponse::Done => CreateResponseView::Done,
            CreateResponse::Failed => CreateResponseView::Failed,
            CreateResponse::Path(full) => CreateResponseView::Path(full@),
            CreateResponse::File(file) => CreateResponseView::File(file@),
        }
    }
}

/// Where the creation stands after a step: the target directory, the answer
/// awaited, the ending, if it is over, and the request that goes out.
pub struct CreationProgress {
    pub target: Seq<char>,
    pub step: CreateStep,
    pub ending: Option<Ending>,
    pub request: CreateRequestView,
}

/// The step `step` names a dependency or an asset that there is.
pub open spec fn step_holds(assets: Seq<TemplateAssetView>, step: CreateStep) -> bool {
    match step {
        CreateStep::ReadManifest(k) | CreateStep::WriteManifest(k) => k < DEPENDENCY_COUNT,
        CreateStep::WriteAsset(i) => i < assets.len(),
        _ => true,
    }
}

/// The creation ends.
pub open spec fn ended(target: Seq<char>, ending: Ending) -> CreationProgress {
    CreationProgress {
        target,
        step: CreateStep::Finished,
        ending: Some(ending),
        request: CreateRequestView::Finish(ending),
    }
}

/// The creation goes on: `request` goes out, and its answer is awaited at
/// `step`.
pub open spec fn awaiting(
    target: Seq<char>,
    step: CreateStep,
    request: CreateRequestView,
) -> CreationProgress {
    CreationProgress { target, step, ending: None, request }
}

/// The command that is run in the target directory.
pub open spec fn command(
    target: Seq<char>,
    program: Seq<char>,
    arguments: Seq<Seq<char>>,
    quiet: bool,
) -> CreateRequestView {
    CreateRequestView::Run { program, arguments, directory: target, quiet }
}

/// The creation takes up the writing of asset `i`, or, behind the last
/// asset, the first commit.
pub open spec fn enter_assets(assets: Seq<TemplateAssetView>, target: Seq<char>, i: int) -> CreationProgress {
    if i < assets.len() {
        awaiting(
            target,
            CreateStep::WriteAsset(i as usize),
            CreateRequestView::Write {
                path: joined(target, assets[i].logical_path),
                content: assets[i].raw_bytes,
            },
        )
    } else {
        awaiting(target, CreateStep::GitInit, command(target, "git"@, seq!["init"@], true))
    }
}

/// The creation takes up dependency `k`, or, behind the last dependency, the
/// assets.
pub open spec fn enter_dependencies(
    assets: Seq<TemplateAssetView>,
    target: Seq<char>,
    k: int,
) -> CreationProgress {
    if k < DEPENDENCY_COUNT {
        awaiting(
            target,
            CreateStep::ReadManifest(k as usize),
            CreateRequestView::Read { path: joined(target, MANIFEST_FILE@) },
        )
    } else {
        enter_assets(assets, target, 0)
    }
}

/// The first step of a creation: the target is probed.
pub open spec fn first_step(target: Seq<char>) -> CreationProgress {
    awaiting(target, CreateStep::ProbeTarget, CreateRequestView::Probe { path: target })
}

/// One step of a creation: the answer `response` has come in for the request
/// awaited at `step`.
pub open spec fn create_step(
    assets: Seq<TemplateAssetView>,
    target: Seq<char>,
    step: CreateStep,
    ending: Option<Ending>,
    response: CreateResponseView,
) -> CreationProgress {
    match step {
        CreateStep::ProbeTarget => match response {
            CreateResponseView::Yes => awaiting(
                target,
                CreateStep::ResolveTarget,
                CreateRequestView::Resolve { path: target },
            ),
            CreateResponseView::No => awaiting(
                target,
                CreateStep::MakeTarget,
                CreateRequestView::CreateDirectory { path: target },
            ),
            _ => ended(target, Ending::Failed(step)),
        },
        CreateStep::ResolveTarget => match response {
            CreateResponseView::Path(full) => awaiting(
                full,
                CreateStep::ConfirmDeletion,
                CreateRequestView::Confirm { prompt: DELETION_PROMPT@ },
            ),
            _ => ended(target, Ending::Failed(step)),
        },
        CreateStep::ConfirmDeletion => match response {
            CreateResponseView::Yes => awaiting(
                target,
                CreateStep::RemoveTarget,
                CreateRequestView::RemoveDirectory { path: target },
            ),
            CreateResponseView::No => ended(target, Ending::Declined),
            _ => ended(target, Ending::Failed(step)),
        },
        CreateStep::RemoveTarget => match response {
            CreateResponseView::Done => awaiting(
                target,
                CreateStep::MakeTarget,
                CreateRequestView::CreateDirectory { path: target },
            ),
            _ => ended(target, Ending::Failed(step)),
        },
        CreateStep::MakeTarget => match response {
            CreateResponseView::Done => awaiting(
                target,
                CreateStep::CargoInit,
                command(target, "cargo"@, seq!["init"@], false),
            ),
            _ => ended(target, Ending::Failed(step)),
        },
        CreateStep::CargoInit => match response {
            CreateResponseView::Done => enter_dependencies(assets, target, 0),
            _ => ended(target, Ending::Failed(step)),
        },
        CreateStep::ReadManifest(k) => match response {
            CreateResponseView::File(manifest) => match dependency_outcome(
                target,
                dependency_table()[k as int].0,
                dependency_table()[k as int].1,
                manifest,
            ) {
                Ok(write) => awaiting(
                    target,
                    CreateStep::WriteManifest(k),
                    CreateRequestView::Write { path: write.0, content: encode_utf8(write.1) },
                ),
                Err(DependencyError::Manifest(error)) => ended(target, Ending::Manifest(k, error)),
                Err(DependencyError::Io) => ended(target, Ending::Failed(step)),
            },
            _ => ended(target, Ending::Failed(step)),
        },
        CreateStep::WriteManifest(k) => match response {
            CreateResponseView::Done => enter_dependencies(assets, target, k + 1),
            _ => ended(target, Ending::Failed(step)),
        },
        CreateStep::WriteAsset(i) => match response {
            CreateResponseView::Done => enter_assets(assets, target, i + 1),
            _ => ended(target, Ending::Failed(step)),
        },
        CreateStep::GitInit => match response {
            CreateResponseView::Done => awaiting(
                target,
                CreateStep::GitAddAll,
                command(target, "git"@, seq!["add"@, "-A"@], true),
            ),
            _ => ended(target, Ending::Failed(step)),
        },
        CreateStep::GitAddAll => match response {
            CreateResponseView::Done => awaiting(
                target,
                CreateStep::GitCommit,
                command(target, "git"@, seq!["commit"@, "-m"@, "Initial commit"@], true),
            ),
            _ => ended(target, Ending::Failed(step)),
        },
        CreateStep::GitCommit => match response {
            CreateResponseView::Done => awaiting(
                target,
                CreateStep::GitRenameBranch,
                command(target, "git"@, seq!["branch"@, "-M"@, "main"@], true),
            ),
            _ => ended(target, Ending::Failed(step)),
        },
        CreateStep::GitRenameBranch => match response {
            CreateResponseView::Done => ended(target, Ending::Created),
            _ => ended(target, Ending::Failed(step)),
        },
        CreateStep::Finished => CreationProgress {
            target,
            step,
            ending,
            request: CreateRequestView::Finish(
                match ending {
                    Some(ending) => ending,
                    None => Ending::Created,
                },
            ),
        },
    }
}

/// The place of a step in the order of a creation with `assets` files.
pub open spec fn step_rank(assets: Seq<TemplateAssetView>, step: CreateStep) -> int {
    match step {
        CreateStep::ProbeTarget => 0,
        CreateStep::ResolveTarget => 1,
        CreateStep::ConfirmDeletion => 2,
        CreateStep::RemoveTarget => 3,
        CreateStep::MakeTarget => 4,
        CreateStep::CargoInit => 5,
        CreateStep::ReadManifest(k) => 6 + 2 * k,
        CreateStep::WriteManifest(k) => 7 + 2 * k,
        CreateStep::WriteAsset(i) => 6 + 2 * DEPENDENCY_COUNT + i,
        CreateStep::GitInit => 6 + 2 * DEPENDENCY_COUNT + assets.len(),
        CreateStep::GitAddAll => 7 + 2 * DEPENDENCY_COUNT + assets.len(),
        CreateStep::GitCommit => 8 + 2 * DEPENDENCY_COUNT + assets.len(),
        CreateStep::GitRenameBranch => 9 + 2 * DEPENDENCY_COUNT + assets.len(),
        CreateStep::Finished => 10 + 2 * DEPENDENCY_COUNT + assets.len(),
    }
}

/// Every step leads to a later one: the target is made before `cargo init`
/// runs, the manifest gets its dependencies one after the other, no file is
/// written before the last dependency is in, and the commit comes last.
pub proof fn lemma_create_step_moves_on(
    assets: Seq<TemplateAssetView>,
    target: Seq<char>,
    step: CreateStep,
    response: CreateResponseView,
)
    requires
        assets.len() <= usize::MAX,
        step_holds(assets, step),
        step != CreateStep::Finished,
    ensures
        step_holds(assets, create_step(assets, target, step, None, response).step),
        step_rank(assets, step) < step_rank(
            assets,
            create_step(assets, target, step, None, response).step,
        ),
{
}

/// A creation that is over stays over, with the ending that it has.
pub proof fn lemma_creation_finished_is_final(
    assets: Seq<TemplateAssetView>,
    target: Seq<char>,
    ending: Ending,
    response: CreateResponseView,
)
    ensures
        create_step(assets, target, CreateStep::Finished, Some(ending), response) == ended(
            target,
            ending,
        ),
{
}

/// Nothing is removed unless the user says yes: any other answer to the
/// question ends the creation, and no request but the last goes out.
pub proof fn lemma_no_removal_without_consent(
    assets: Seq<TemplateAssetView>,
    target: Seq<char>,
    response: CreateResponseView,
)
    requires
        !(response is Yes),
    ensures
        create_step(assets, target, CreateStep::ConfirmDeletion, None, response).step
            == CreateStep::Finished,
        create_step(assets, target, CreateStep::ConfirmDeletion, None, response).request is Finish,
        response is No ==> create_step(
            assets,
            target,
            CreateStep::ConfirmDeletion,
            None,
            response,
        ) == ended(target, Ending::Declined),
{
}

/// A step that does not go through ends the creation at once: whatever is
/// reported but success, the next request is the last.
pub proof fn lemma_failure_ends_creation(
    assets: Seq<TemplateAssetView>,
    target: Seq<char>,
    step: CreateStep,
)
    requires
        step != CreateStep::Finished,
    ensures
        create_step(assets, target, step, None, CreateResponseView::Failed) == ended(
            target,
            Ending::Failed(step),
        ),
{
}

/// A step as the creation holds it.
struct CreationOutcome {
    target: String,
    step: CreateStep,
    ending: Option<Ending>,
    request: CreateRequest,
}

impl View for CreationOutcome {
    type V = CreationProgress;

    closed spec fn view(&self) -> CreationProgress {
        CreationProgress {
            target: self.target@,
            step: self.step,
            ending: self.ending,
            request: self.request@,
        }
    }
}

fn end(target: String, ending: Ending) -> (outcome: CreationOutcome)
    ensures
        outcome@ == ended(target@, ending),
{
    CreationOutcome {
        target,
        step: CreateStep::Finished,
        ending: Some(ending),
        request: CreateRequest::Finish(ending),
    }
}

fn wait(target: String, step: CreateStep, request: CreateRequest) -> (outcome: CreationOutcome)
    ensures
        outcome@ == awaiting(target@, step, request@),
{
    CreationOutcome { target, step, ending: None, request }
}

/// The request to run `program` with up to three arguments in `target`.
fn run(target: &String, program: &str, arguments: [&str; 3], count: usize, quiet: bool) -> (request:
    CreateRequest)
    requires
        count <= 3,
    ensures
        request@ == command(
            target@,
            program@,
            arguments@.take(count as int).map_values(|argument: &str| argument@),
            quiet,
        ),
{
    let mut list: Vec<String> = Vec::new();
    let mut i: usize = 0;
    while i < count
        invariant
            i <= count <= 3,
            list@.len() == i,
            forall|j: int| 0 <= j < i ==> (#[trigger] list@[j])@ == arguments@[j]@,
        decreases count - i,
    {
        list.push(arguments[i].to_owned());
        i += 1;
    }
    assert(list@.map_values(|argument: String| argument@) =~= arguments@.take(
        count as int,
    ).map_values(|argument: &str| argument@));
    CreateRequest::Run {
        program: program.to_owned(),
        arguments: list,
        directory: target.clone(),
        quiet,
    }
}

fn start_assets(assets: &Vec<TemplateAsset>, target: String, i: usize) -> (outcome: CreationOutcome)
    requires
        i <= assets@.len(),
    ensures
        outcome@ == enter_assets(asset_views(assets@), target@, i as int),
        step_holds(asset_views(assets@), outcome.step),
        outcome.step == CreateStep::Finished <==> outcome.ending is Some,
{
    if i < assets.len() {
        let request = CreateRequest::Write {
            path: join_path(target.as_str(), assets[i].logical_path.as_str()),
            content: copy_bytes(&assets[i].raw_bytes),
        };
        wait(target, CreateStep::WriteAsset(i), request)
    } else {
        let request = run(&target, "git", ["init", "", ""], 1, true);
        assert(["init", "", ""]@.take(1).map_values(|argument: &str| argument@) =~= seq![
            "init"@,
        ]);
        wait(target, CreateStep::GitInit, request)
    }
}

fn start_dependencies(assets: &Vec<TemplateAsset>, target: String, k: usize) -> (outcome:
    CreationOutcome)
    requires
        k <= DEPENDENCY_COUNT,
    ensures
        outcome@ == enter_dependencies(asset_views(assets@), target@, k as int),
        step_holds(asset_views(assets@), outcome.step),
        outcome.step == CreateStep::Finished <==> outcome.ending is Some,
{
    if k < DEPENDENCY_COUNT {
        let request = CreateRequest::Read { path: join_path(target.as_str(), MANIFEST_FILE) };
        wait(target, CreateStep::ReadManifest(k), request)
    } else {
        start_assets(assets, target, 0)
    }
}

/// One step of a creation.
fn advance_from(
    assets: &Vec<TemplateAsset>,
    target: String,
    step: CreateStep,
    ending: Option<Ending>,
    response: CreateResponse,
) -> (outcome: CreationOutcome)
    requires
        step_holds(asset_views(assets@), step),
        step == CreateStep::Finished <==> ending is Some,
    ensures
        outcome@ == create_step(asset_views(assets@), target@, step, ending, response@),
        step_holds(asset_views(assets@), outcome.step),
        outcome.step == CreateStep::Finished <==> outcome.ending is Some,
{
    match step {
        CreateStep::ProbeTarget => match response {
            CreateResponse::Yes => {
                let request = CreateRequest::Resolve { path: target.clone() };
                wait(target, CreateStep::ResolveTarget, request)
            },
            CreateResponse::No => {
                let request = CreateRequest::CreateDirectory { path: target.clone() };
                wait(target, CreateStep::MakeTarget, request)
            },
            _ => end(target, Ending::Failed(step)),
        },
        CreateStep::ResolveTarget => match response {
            CreateResponse::Path(full) => wait(
                full,
                CreateStep::ConfirmDeletion,
                CreateRequest::Confirm { prompt: DELETION_PROMPT.to_owned() },
            ),
            _ => end(target, Ending::Failed(step)),
        },
        CreateStep::ConfirmDeletion => match response {
            CreateResponse::Yes => {
                let request = CreateRequest::RemoveDirectory { path: target.clone() };
                wait(target, CreateStep::RemoveTarget, request)
            },
            CreateResponse::No => end(target, Ending::Declined),
            _ => end(target, Ending::Failed(step)),
        },
        CreateStep::RemoveTarget => match response {
            CreateResponse::Done => {
                let request = CreateRequest::CreateDirectory { path: target.clone() };
                wait(target, CreateStep::MakeTarget, request)
            },
            _ => end(target, Ending::Failed(step)),
        },
        CreateStep::MakeTarget => match response {
            CreateResponse::Done => {
                let request = run(&target, "cargo", ["init", "", ""], 1, false);
                assert(["init", "", ""]@.take(1).map_values(|argument: &str| argument@) =~= seq![
                    "init"@,
                ]);
                wait(target, CreateStep::CargoInit, request)
            },
            _ => end(target, Ending::Failed(step)),
        },
        CreateStep::CargoInit => match response {
            CreateResponse::Done => start_dependencies(assets, target, 0),
            _ => end(target, Ending::Failed(step)),
        },
        CreateStep::ReadManifest(k) => match response {
            CreateResponse::File(manifest) => {
                let wanted = match dependency(k) {
                    Some(wanted) => wanted,
                    None => {
                        return end(target, Ending::Failed(step));
                    },
                };
                match add_dependency(
                    target.as_str(),
                    wanted.name.as_str(),
                    &wanted.requirement,
                    &manifest,
                ) {
                    Ok(write) => {
                        let content = encode(write.content.as_str());
                        wait(
                            target,
                            CreateStep::WriteManifest(k),
                            CreateRequest::Write { path: write.path, content },
                        )
                    },
                    Err(DependencyError::Manifest(error)) => end(target, Ending::Manifest(k, error)),
                    Err(DependencyError::Io) => end(target, Ending::Failed(step)),
                }
            },
            _ => end(target, Ending::Failed(step)),
        },
        CreateStep::WriteManifest(k) => match response {
            CreateResponse::Done => start_dependencies(assets, target, k + 1),
            _ => end(target, Ending::Failed(step)),
        },
        CreateStep::WriteAsset(i) => match response {
            CreateResponse::Done => {
                assert(i < assets.len());
                start_assets(assets, target, i + 1)
            },
            _ => end(target, Ending::Failed(step)),
        },
        CreateStep::GitInit => match response {
            CreateResponse::Done => {
                let request = run(&target, "git", ["add", "-A", ""], 2, true);
                assert(["add", "-A", ""]@.take(2).map_values(|argument: &str| argument@) =~= seq![
                    "add"@,
                    "-A"@,
                ]);
                wait(target, CreateStep::GitAddAll, request)
            },
            _ => end(target, Ending::Failed(step)),
        },
        CreateStep::GitAddAll => match response {
            CreateResponse::Done => {
                let request = run(&target, "git", ["commit", "-m", "Initial commit"], 3, true);
                assert(["commit", "-m", "Initial commit"]@.take(3).map_values(
                    |argument: &str| argument@,
                ) =~= seq!["commit"@, "-m"@, "Initial commit"@]);
                wait(target, CreateStep::GitCommit, request)
            },
            _ => end(target, Ending::Failed(step)),
        },
        CreateStep::GitCommit => match response {
            CreateResponse::Done => {
                let request = run(&target, "git", ["branch", "-M", "main"], 3, true);
                assert(["branch", "-M", "main"]@.take(3).map_values(|argument: &str| argument@)
                    =~= seq!["branch"@, "-M"@, "main"@]);
                wait(target, CreateStep::GitRenameBranch, request)
            },
            _ => end(target, Ending::Failed(step)),
        },
        CreateStep::GitRenameBranch => match response {
            CreateResponse::Done => end(target, Ending::Created),
            _ => end(target, Ending::Failed(step)),
        },
        CreateStep::Finished => {
            let last = match ending {
                Some(last) => last,
                None => Ending::Created,
            };
            CreationOutcome { target, step, ending, request: CreateRequest::Finish(last) }
        },
    }
}

/// The creation of one project: the target directory, the files of the
/// template, the answer awaited, and the ending, once it is over.
#[derive(Debug)]
pub struct ProjectCreation {
    pub target: String,
    pub assets: Vec<TemplateAsset>,
    pub step: CreateStep,
    pub ending: Option<Ending>,
}

impl ProjectCreation {
    /// The step names a dependency or an asset that there is, and an ending
    /// is held exactly where the creation is over.
    pub open spec fn well_formed(&self) -> bool {
        &&& step_holds(asset_views(self.assets@), self.step)
        &&& self.step == CreateStep::Finished <==> self.ending is Some
    }

    /// Where the creation stands, `request` having gone out.
    pub open spec fn progress(&self, request: CreateRequest) -> CreationProgress {
        CreationProgress {
            target: self.target@,
            step: self.step,
            ending: self.ending,
            request: request@,
        }
    }

    /// Starts the creation of a project in `target` with the files `assets`:
    /// the creation, and its first request.
    pub fn new(target: &str, assets: Vec<TemplateAsset>) -> (started: (ProjectCreation, CreateRequest))
        ensures
            started.0.well_formed(),
            started.0.assets == assets,
            started.0.progress(started.1) == first_step(target@),
    {
        (
            ProjectCreation {
                target: target.to_owned(),
                assets,
                step: CreateStep::ProbeTarget,
                ending: None,
            },
            CreateRequest::Probe { path: target.to_owned() },
        )
    }

    /// Takes the answer to the last request and gives the next one. Once the
    /// creation is over, every answer gets its ending again.
    pub fn advance(&mut self, response: CreateResponse) -> (request: CreateRequest)
        requires
            old(self).well_formed(),
        ensures
            final(self).well_formed(),
            final(self).assets == old(self).assets,
            final(self).progress(request) == create_step(
                asset_views(old(self).assets@),
                old(self).target@,
                old(self).step,
                old(self).ending,
                response@,
            ),
    {
        let outcome = advance_from(
            &self.assets,
            self.target.clone(),
            self.step,
            self.ending,
            response,
        );
        self.target = outcome.target;
        self.step = outcome.step;
        self.ending = outcome.ending;
        outcome.request
    }
}

} // verus!

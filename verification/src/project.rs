//! Projects and the resources added to them.

use crate::content::model::MODEL_TEMPLATE;
use crate::creation::{first_step, CreateRequest, ProjectCreation};
use crate::files::{join_path, joined, FileState, FileView, FileWrite, IoError};
use crate::manifest::{manifest_with, upsert_dependency, ManifestError, Requirement, RequirementView};
use crate::materializer::{Plan, PlanView, Registration, RegistrationView};
use crate::naming::{first_token, first_word, is_blank, names_of, ResourceNameSet};
use crate::patcher::{added_behind, Patch, PatchSpec};
use crate::registry::{register_module, registry_outcome};
use crate::store::{TemplateAsset, TemplateAssetView};
use crate::text::{chars_of, encode, push_range, string_of};
use vstd::prelude::*;
use vstd::utf8::encode_utf8;

verus! {

/// The two writes that add a source file to a directory, in the order in
/// which they are made: first the directory's registry gets the text
/// `registry_text`, then the file `file_name`, with `.rs` behind it, gets
/// `file_contents`.
pub open spec fn rust_file_writes(
    file_directory: Seq<char>,
    file_name: Seq<char>,
    file_contents: Seq<char>,
    registry_text: Seq<char>,
) -> Seq<(Seq<char>, Seq<char>)> {
    seq![
        (file_directory + "/mod.rs"@, registry_text),
        (file_directory + "/"@ + file_name + ".rs"@, file_contents),
    ]
}

/// Adds the source file `file_name` to the directory `file_directory`, whose
/// registry, `mod.rs`, was found in the state `registry`: the module is
/// declared at the end of the registry, and the file gets `file_contents`.
pub fn add_rust_file(
    file_directory: &str,
    file_name: &str,
    file_contents: &str,
    registry: &FileState,
) -> (result: Result<Vec<FileWrite>, IoError>)
    ensures
        match registry_outcome(registry@, file_name@) {
            Ok(text) => result matches Ok(writes) && writes@.map_values(|w: FileWrite| w@)
                == rust_file_writes(file_directory@, file_name@, file_contents@, text),
            Err(error) => result matches Err(e) && e == error,
        },
{
    let registry_text = match register_module(registry, file_name) {
        Ok(text) => text,
        Err(error) => {
            return Err(error);
        },
    };
    let directory = chars_of(file_directory);
    let name = chars_of(file_name);
    let registry_name = chars_of("/mod.rs");
    let slash = chars_of("/");
    let extension = chars_of(".rs");
    let mut registry_path: Vec<char> = Vec::new();
    push_range(&mut registry_path, &directory, 0, directory.len());
    push_range(&mut registry_path, &registry_name, 0, registry_name.len());
    let mut file_path: Vec<char> = Vec::new();
    push_range(&mut file_path, &directory, 0, directory.len());
    push_range(&mut file_path, &slash, 0, slash.len());
    push_range(&mut file_path, &name, 0, name.len());
    push_range(&mut file_path, &extension, 0, extension.len());
    assert(registry_path@ =~= file_directory@ + "/mod.rs"@);
    assert(file_path@ =~= file_directory@ + "/"@ + file_name@ + ".rs"@);
    let mut writes: Vec<FileWrite> = Vec::new();
    writes.push(FileWrite { path: string_of(&registry_path), content: registry_text });
    writes.push(FileWrite { path: string_of(&file_path), content: file_contents.to_owned() });
    assert(writes@.map_values(|w: FileWrite| w@) =~= rust_file_writes(
        file_directory@,
        file_name@,
        file_contents@,
        registry_text@,
    ));
    Ok(writes)
}

/// The name of the manifest in the project directory.
pub const MANIFEST_FILE: &'static str = "Cargo.toml";

/// Why a project did not get a dependency.
#[derive(Clone, Copy, Debug, PartialEq, Eq, Structural)]
pub enum DependencyError {
    /// The manifest is missing or could not be read.
    Io,
    /// The manifest could not be changed.
    Manifest(ManifestError),
}

/// What adding the dependency `name` to the project in `project_dir` comes
/// to, its manifest having been found in the state `manifest`: the path of
/// the manifest and its new text.
pub open spec fn dependency_outcome(
    project_dir: Seq<char>,
    name: Seq<char>,
    version: RequirementView,
    manifest: FileView,
) -> Result<(Seq<char>, Seq<char>), DependencyError> {
    match manifest {
        FileView::Text(text) => match manifest_with(text, name, version) {
            Ok(written) => Ok((joined(project_dir, MANIFEST_FILE@), written)),
            Err(error) => Err(DependencyError::Manifest(error)),
        },
        _ => Err(DependencyError::Io),
    }
}

/// Adds the dependency `name` to the project in `project_dir`, whose
/// manifest was found in the state `manifest`: the write that puts the
/// changed manifest back.
pub fn add_dependency(
    project_dir: &str,
    name: &str,
    version: &Requirement,
    manifest: &FileState,
) -> (result: Result<FileWrite, DependencyError>)
    ensures
        match dependency_outcome(project_dir@, name@, version@, manifest@) {
            Ok(write) => result matches Ok(w) && w@ == write,
            Err(error) => result matches Err(e) && e == error,
        },
{
    match manifest {
        FileState::Text(text) => match upsert_dependency(text.as_str(), name, version) {
            Ok(content) => Ok(FileWrite { path: join_path(project_dir, MANIFEST_FILE), content }),
            Err(error) => Err(DependencyError::Manifest(error)),
        },
        _ => Err(DependencyError::Io),
    }
}

/// Starts the creation of a project in the directory `target` from the files
/// `assets`: the creation, and its first request, which asks whether the
/// target exists.
pub fn create(target: &str, assets: Vec<TemplateAsset>) -> (started: (ProjectCreation, CreateRequest))
    ensures
        started.0.well_formed(),
        started.0.assets == assets,
        started.0.progress(started.1) == first_step(target@),
{
    ProjectCreation::new(target, assets)
}

/// The file that holds the routes of a project.
pub const MAIN_FILE: &'static str = "src/main.rs";

/// The landmark in the main file behind which services are registered.
pub const API_SCOPE: &'static str = "web::scope(\"/api\")";

/// The line that goes behind the landmark when a service is registered.
pub const SERVICE_LINE: &'static str =
    "\n                    .service(services::{}::endpoints(web::scope(\"/{}\")))";

/// The patch that registers a service in the main file.
pub open spec fn service_patch() -> Patch {
    added_behind(MAIN_FILE@, API_SCOPE@, SERVICE_LINE@)
}

/// The patch that registers the service of the file `service_file_name` in
/// the main file. The line that goes in is the same for every service: the
/// two `{}` in it are written as they stand.
pub fn register_service(service_file_name: &str) -> (patch: PatchSpec)
    ensures
        patch@ == service_patch(),
{
    PatchSpec::behind(MAIN_FILE, API_SCOPE, SERVICE_LINE)
}

/// The plan that adds the resource called `word` to the project in the
/// current directory: the model file and the service file are written, from
/// the model template and from `service_template`; the service is registered
/// in the main file; and both files are declared in the registries of their
/// directories.
pub open spec fn resource_plan(word: Seq<char>, service_template: Seq<char>) -> PlanView {
    let names = names_of(word);
    PlanView {
        project_root: Seq::empty(),
        names: Some(names),
        strict: false,
        assets: seq![
            TemplateAssetView {
                logical_path: "src/models/"@ + names.snake_case + ".rs"@,
                raw_bytes: encode_utf8(MODEL_TEMPLATE@),
            },
            TemplateAssetView {
                logical_path: "src/services/"@ + names.snake_case + ".rs"@,
                raw_bytes: encode_utf8(service_template),
            },
        ],
        patches: seq![service_patch()],
        registrations: seq![
            RegistrationView { registry_path: "src/models/mod.rs"@, entry: names.snake_case },
            RegistrationView { registry_path: "src/services/mod.rs"@, entry: names.snake_case },
        ],
        migrations: Seq::empty(),
    }
}

/// The path of the source file `file_name` in `directory`.
fn source_path(directory: &str, file_name: &str) -> (path: String)
    ensures
        path@ == directory@ + file_name@ + ".rs"@,
{
    let mut path = chars_of(directory);
    let name = chars_of(file_name);
    let extension = chars_of(".rs");
    push_range(&mut path, &name, 0, name.len());
    push_range(&mut path, &extension, 0, extension.len());
    assert(path@ =~= directory@ + file_name@ + ".rs"@);
    string_of(&path)
}

/// The plan that adds a resource to the project in the current directory.
/// The resource is named by the first word of `target`; there is no plan
/// where `target` is blank. The service file is made from
/// `service_template`.
pub fn create_resource(target: &str, service_template: &str) -> (plan: Option<Plan>)
    ensures
        plan is None <==> is_blank(target@),
        plan matches Some(p) ==> p@ == resource_plan(first_word(target@), service_template@),
{
    let word = match first_token(target) {
        Some(word) => word,
        None => {
            return None;
        },
    };
    let names = ResourceNameSet::derive(word.as_str());
    let file_name = names.snake_case.clone();
    let mut assets: Vec<TemplateAsset> = Vec::new();
    assets.push(
        TemplateAsset {
            logical_path: source_path("src/models/", file_name.as_str()),
            raw_bytes: encode(MODEL_TEMPLATE),
        },
    );
    assets.push(
        TemplateAsset {
            logical_path: source_path("src/services/", file_name.as_str()),
            raw_bytes: encode(service_template),
        },
    );
    let mut patches: Vec<PatchSpec> = Vec::new();
    patches.push(register_service(file_name.as_str()));
    let mut registrations: Vec<Registration> = Vec::new();
    registrations.push(
        Registration { registry_path: "src/models/mod.rs".to_owned(), entry: file_name.clone() },
    );
    registrations.push(
        Registration { registry_path: "src/services/mod.rs".to_owned(), entry: file_name },
    );
    let plan = Plan {
        project_root: String::new(),
        names: Some(names),
        strict: false,
        assets,
        patches,
        registrations,
        migrations: Vec::new(),
    };
    assert(plan@.assets =~= resource_plan(first_word(target@), service_template@).assets);
    assert(plan@.patches =~= resource_plan(first_word(target@), service_template@).patches);
    assert(plan@.registrations =~= resource_plan(
        first_word(target@),
        service_template@,
    ).registrations);
    assert(plan@.migrations =~= Seq::empty());
    Some(plan)
}

} // verus!

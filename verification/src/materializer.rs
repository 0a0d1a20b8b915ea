//! The materializer: it carries one plan through, task by task. It decides
//! what is to be read or written next and what a failure means; the caller
//! does the reading and writing and reports back.
//!
//! The tasks of a plan run in a fixed order: every asset is written, then
//! every patch is applied, then every registration is made, then every
//! migration directory is set up. The first failure ends the run. Nothing is
//! undone: what was written before stays written.

use crate::expander::{expand, expand_strict, expanded, unrecognized_at};
use crate::files::{
    join_path, joined, listing, DirectoryEntry, DirectoryEntryView, FileState, FileView,
};
use crate::migration::{
    allocate_migration, count_directories, count_subdirectories, decimal, directory_name,
    pad_number,
};
use crate::naming::{snake_case_of, ResourceNameSet, ResourceNames};
use crate::patcher::{patch, patch_outcome, Patch, PatchError, PatchMode, PatchSpec};
use crate::registry::{register_module, registry_outcome};
use crate::store::{asset_views, TemplateAsset, TemplateAssetView};
use crate::text::{chars_of, copy_bytes, decode, encode, occurs, push_range, string_of};
use vstd::prelude::*;
use vstd::utf8::{decode_utf8, encode_utf8, valid_utf8};

verus! {

/// One entry to append to a registry file.
#[derive(Clone, Debug)]
pub struct Registration {
    pub registry_path: String,
    pub entry: String,
}

/// One migration to set up below a migrations root.
#[derive(Clone, Debug)]
pub struct MigrationRequest {
    pub root: String,
    pub name: String,
    pub up_content: String,
    pub down_content: String,
}

/// A registration as character sequences.
pub struct RegistrationView {
    pub registry_path: Seq<char>,
    pub entry: Seq<char>,
}

impl View for Registration {
    type V = RegistrationView;

    open spec fn view(&self) -> RegistrationView {
        RegistrationView { registry_path: self.registry_path@, entry: self.entry@ }
    }
}

/// A migration to set up, as character sequences.
pub struct MigrationRequestView {
    pub root: Seq<char>,
    pub name: Seq<char>,
    pub up_content: Seq<char>,
    pub down_content: Seq<char>,
}

impl View for MigrationRequest {
    type V = MigrationRequestView;

    open spec fn view(&self) -> MigrationRequestView {
        MigrationRequestView {
            root: self.root@,
            name: self.name@,
            up_content: self.up_content@,
            down_content: self.down_content@,
        }
    }
}

/// What went wrong.
#[derive(Clone, Copy, Debug, PartialEq, Eq, Structural)]
pub enum ErrorKind {
    /// The template store holds no asset under a path.
    AssetNotFound,
    /// A template names a placeholder that is not known.
    TemplateError,
    /// The anchor of a patch stands nowhere in its target file.
    AnchorNotFound,
    /// The target file of a patch does not exist.
    FileNotFound,
    /// A file could not be read or written, or a directory not listed.
    IoError,
    /// A migration directory could not be created.
    DirectoryCreationError,
}

/// The list of the plan that a task belongs to.
#[derive(Clone, Copy, Debug, PartialEq, Eq, Structural)]
pub enum Stage {
    Asset,
    Patch,
    Registration,
    Migration,
}

/// The failure that ended a run: what went wrong, at which task, and on
/// which path.
#[derive(Clone, Debug)]
pub struct MaterializeError {
    pub kind: ErrorKind,
    pub stage: Stage,
    /// The index of the task in its list.
    pub index: usize,
    pub path: String,
}

/// A failure, its path as a character sequence.
pub struct Failure {
    pub kind: ErrorKind,
    pub stage: Stage,
    pub index: usize,
    pub path: Seq<char>,
}

impl View for MaterializeError {
    type V = Failure;

    open spec fn view(&self) -> Failure {
        Failure { kind: self.kind, stage: self.stage, index: self.index, path: self.path@ }
    }
}

/// Everything that one run is to bring about.
#[derive(Clone, Debug)]
pub struct Plan {
    /// The directory that every path of the plan is taken from.
    pub project_root: String,
    /// The names that the placeholders of the assets stand for. Without
    /// names every asset is written as it is.
    pub names: Option<ResourceNameSet>,
    /// Whether a template with an unrecognized placeholder is refused.
    pub strict: bool,
    pub assets: Vec<TemplateAsset>,
    pub patches: Vec<PatchSpec>,
    pub registrations: Vec<Registration>,
    pub migrations: Vec<MigrationRequest>,
}

/// A plan as sequences.
pub struct PlanView {
    pub project_root: Seq<char>,
    pub names: Option<ResourceNames>,
    pub strict: bool,
    pub assets: Seq<TemplateAssetView>,
    pub patches: Seq<Patch>,
    pub registrations: Seq<RegistrationView>,
    pub migrations: Seq<MigrationRequestView>,
}

impl View for Plan {
    type V = PlanView;

    open spec fn view(&self) -> PlanView {
        PlanView {
            project_root: self.project_root@,
            names: match self.names {
                Some(names) => Some(names@),
                None => None,
            },
            strict: self.strict,
            assets: asset_views(self.assets@),
            patches: self.patches@.map_values(|patch: PatchSpec| patch@),
            registrations: self.registrations@.map_values(|entry: Registration| entry@),
            migrations: self.migrations@.map_values(|migration: MigrationRequest| migration@),
        }
    }
}

/// Which answer the materializer is waiting for.
#[derive(Clone, Copy, Debug, PartialEq, Eq, Structural)]
pub enum Position {
    /// The asset with this index is being written.
    Asset(usize),
    /// The target of the patch with this index is being read.
    PatchRead(usize),
    /// The target of the patch with this index is being written.
    PatchWrite(usize),
    /// The registry of the registration with this index is being read.
    RegistryRead(usize),
    /// The registry of the registration with this index is being written.
    RegistryWrite(usize),
    /// The root of the migration with this index is being listed.
    MigrationList(usize),
    /// The directory of the migration with the first index is being
    /// created; the second is the number that the migration got.
    MigrationCreate(usize, usize),
    /// The `up` file of the migration with the first index is being
    /// written; the second is the number that the migration got.
    MigrationUp(usize, usize),
    /// The `down` file of the migration with the first index is being
    /// written; the second is the number that the migration got.
    MigrationDown(usize, usize),
    /// The run is over.
    Finished,
}

/// What the caller is asked to do next.
#[derive(Clone, Debug)]
pub enum Request {
    /// Write the whole of `content` to `path`, replacing what is there, after
    /// creating the directories above it that are missing.
    Write { path: String, content: Vec<u8> },
    /// Read the whole of `path` as text.
    Read { path: String },
    /// List the entries of the directory `path`.
    List { path: String },
    /// Create the directory `path`.
    CreateDirectory { path: String },
    /// Nothing more: the run is over, and every task was carried out.
    Finish,
    /// Nothing more: the run is over, ended by this failure.
    Abort(MaterializeError),
}

/// A request, its texts as sequences.
pub enum RequestView {
    Write { path: Seq<char>, content: Seq<u8> },
    Read { path: Seq<char> },
    List { path: Seq<char> },
    CreateDirectory { path: Seq<char> },
    Finish,
    Abort(Failure),
}

impl View for Request {
    type V = RequestView;

    open spec fn view(&self) -> RequestView {
        match self {
            Request::Write { path, content } => RequestView::Write {
                path: path@,
                content: content@,
            },
            Request::Read { path } => RequestView::Read { path: path@ },
            Request::List { path } => RequestView::List { path: path@ },
            Request::CreateDirectory { path } => RequestView::CreateDirectory { path: path@ },
            Request::Finish => RequestView::Finish,
            Request::Abort(error) => RequestView::Abort(error@),
        }
    }
}

/// What the caller reports of the last request.
#[derive(Clone, Debug)]
pub enum Response {
    /// The write or the creation of the directory went through.
    Done,
    /// The request could not be carried out.
    Failed,
    /// What the read found.
    File(FileState),
    /// The entries of the directory.
    Listing(Vec<DirectoryEntry>),
}

/// An answer, its texts as sequences.
pub enum ResponseView {
    Done,
    Failed,
    File(FileView),
    Listing(Seq<DirectoryEntryView>),
}

impl View for Response {
    type V = ResponseView;

    open spec fn view(&self) -> ResponseView {
        match self {
            Response::Done => ResponseView::Done,
            Response::Failed => ResponseView::Failed,
            Response::File(file) => ResponseView::File(file@),
            Response::Listing(entries) => ResponseView::Listing(listing(entries@)),
        }
    }
}

/// Where a run stands after a step: the answer awaited, the failure that
/// ended it, if one did, and the request that goes out.
pub struct Progress {
    pub position: Position,
    pub failure: Option<Failure>,
    pub request: RequestView,
}

impl PlanView {
    /// Every list of the plan is short enough to be held in memory.
    pub open spec fn fits(&self) -> bool {
        &&& self.assets.len() <= usize::MAX
        &&& self.patches.len() <= usize::MAX
        &&& self.registrations.len() <= usize::MAX
        &&& self.migrations.len() <= usize::MAX
    }

    /// The number of tasks in the plan.
    pub open spec fn task_count(&self) -> int {
        (self.assets.len() + self.patches.len() + self.registrations.len()
            + self.migrations.len()) as int
    }

    /// Where asset `i` is written.
    pub open spec fn asset_path(&self, i: int) -> Seq<char> {
        joined(self.project_root, self.assets[i].logical_path)
    }

    /// Asset `i` is a template: the plan has names, and the raw bytes of the
    /// asset are text.
    pub open spec fn is_template(&self, i: int) -> bool {
        self.names is Some && valid_utf8(self.assets[i].raw_bytes)
    }

    /// What is written for asset `i`: for a template, its text with the
    /// placeholders expanded; for any other asset, its raw bytes.
    pub open spec fn asset_content(&self, i: int) -> Seq<u8> {
        let raw = self.assets[i].raw_bytes;
        if self.is_template(i) {
            encode_utf8(expanded(decode_utf8(raw), self.names->0))
        } else {
            raw
        }
    }

    /// Asset `i` is refused: the plan is strict, and the asset is a template
    /// with an unrecognized placeholder.
    pub open spec fn asset_refused(&self, i: int) -> bool {
        self.strict && self.is_template(i) && exists|at: int|
            unrecognized_at(decode_utf8(self.assets[i].raw_bytes), at)
    }

    /// The target file of patch `i`.
    pub open spec fn patch_path(&self, i: int) -> Seq<char> {
        joined(self.project_root, self.patches[i].target_file)
    }

    /// The registry file of registration `i`.
    pub open spec fn registry_path(&self, i: int) -> Seq<char> {
        joined(self.project_root, self.registrations[i].registry_path)
    }

    /// The migrations root of migration `i`.
    pub open spec fn migration_root(&self, i: int) -> Seq<char> {
        joined(self.project_root, self.migrations[i].root)
    }

    /// The directory of migration `i`, should it get the number `number`.
    pub open spec fn migration_path(&self, i: int, number: int) -> Seq<char> {
        joined(
            self.migration_root(i),
            directory_name(number as nat, snake_case_of(self.migrations[i].name)),
        )
    }

    /// The position `position` names a task of this plan.
    pub open spec fn holds(&self, position: Position) -> bool {
        match position {
            Position::Asset(i) => i < self.assets.len(),
            Position::PatchRead(i) | Position::PatchWrite(i) => i < self.patches.len(),
            Position::RegistryRead(i) | Position::RegistryWrite(i) => i
                < self.registrations.len(),
            Position::MigrationList(i)
            | Position::MigrationCreate(i, _)
            | Position::MigrationUp(i, _)
            | Position::MigrationDown(i, _) => i < self.migrations.len(),
            Position::Finished => true,
        }
    }

    /// The place of the task at `position` among all tasks of the plan, in
    /// the order in which they run; the number of tasks where the run is
    /// over.
    pub open spec fn rank(&self, position: Position) -> int {
        match position {
            Position::Asset(i) => i as int,
            Position::PatchRead(i) | Position::PatchWrite(i) => self.assets.len() + i,
            Position::RegistryRead(i) | Position::RegistryWrite(i) => self.assets.len()
                + self.patches.len() + i,
            Position::MigrationList(i)
            | Position::MigrationCreate(i, _)
            | Position::MigrationUp(i, _)
            | Position::MigrationDown(i, _) => self.assets.len() + self.patches.len()
                + self.registrations.len() + i,
            Position::Finished => self.task_count(),
        }
    }
}

/// The run ends well.
pub open spec fn complete() -> Progress {
    Progress { position: Position::Finished, failure: None, request: RequestView::Finish }
}

/// The run ends with a failure.
pub open spec fn fail(kind: ErrorKind, stage: Stage, index: usize, path: Seq<char>) -> Progress {
    let failure = Failure { kind, stage, index, path };
    Progress {
        position: Position::Finished,
        failure: Some(failure),
        request: RequestView::Abort(failure),
    }
}

/// The run goes on: `request` goes out, and its answer is awaited at
/// `position`.
pub open spec fn proceed(position: Position, request: RequestView) -> Progress {
    Progress { position, failure: None, request }
}

/// The run takes up the task with the place `task` among all tasks of the
/// plan; behind the last task it ends.
pub open spec fn begin(plan: PlanView, task: int) -> Progress {
    let assets = plan.assets.len() as int;
    let patches = plan.patches.len() as int;
    let registrations = plan.registrations.len() as int;
    if task < assets {
        if plan.asset_refused(task) {
            fail(ErrorKind::TemplateError, Stage::Asset, task as usize, plan.asset_path(task))
        } else {
            proceed(
                Position::Asset(task as usize),
                RequestView::Write {
                    path: plan.asset_path(task),
                    content: plan.asset_content(task),
                },
            )
        }
    } else if task < assets + patches {
        let i = task - assets;
        proceed(Position::PatchRead(i as usize), RequestView::Read { path: plan.patch_path(i) })
    } else if task < assets + patches + registrations {
        let i = task - assets - patches;
        proceed(
            Position::RegistryRead(i as usize),
            RequestView::Read { path: plan.registry_path(i) },
        )
    } else if task < plan.task_count() {
        let i = task - assets - patches - registrations;
        proceed(
            Position::MigrationList(i as usize),
            RequestView::List { path: plan.migration_root(i) },
        )
    } else {
        complete()
    }
}

/// The kind of failure that a refused patch comes to.
pub open spec fn patch_failure(error: PatchError) -> ErrorKind {
    match error {
        PatchError::FileNotFound => ErrorKind::FileNotFound,
        PatchError::IoError => ErrorKind::IoError,
        PatchError::AnchorNotFound => ErrorKind::AnchorNotFound,
    }
}

/// One step of a run: the answer `response` has come in for the request
/// awaited at `position`.
pub open spec fn step(
    plan: PlanView,
    position: Position,
    failure: Option<Failure>,
    response: ResponseView,
) -> Progress {
    let next = plan.rank(position) + 1;
    match position {
        Position::Asset(i) => match response {
            ResponseView::Done => begin(plan, next),
            _ => fail(ErrorKind::IoError, Stage::Asset, i, plan.asset_path(i as int)),
        },
        Position::PatchRead(i) => match response {
            ResponseView::File(file) => match patch_outcome(file, plan.patches[i as int]) {
                Ok(text) => proceed(
                    Position::PatchWrite(i),
                    RequestView::Write {
                        path: plan.patch_path(i as int),
                        content: encode_utf8(text),
                    },
                ),
                Err(error) => fail(
                    patch_failure(error),
                    Stage::Patch,
                    i,
                    plan.patch_path(i as int),
                ),
            },
            _ => fail(ErrorKind::IoError, Stage::Patch, i, plan.patch_path(i as int)),
        },
        Position::PatchWrite(i) => match response {
            ResponseView::Done => begin(plan, next),
            _ => fail(ErrorKind::IoError, Stage::Patch, i, plan.patch_path(i as int)),
        },
        Position::RegistryRead(i) => match response {
            ResponseView::File(file) => match registry_outcome(
                file,
                plan.registrations[i as int].entry,
            ) {
                Ok(text) => proceed(
                    Position::RegistryWrite(i),
                    RequestView::Write {
                        path: plan.registry_path(i as int),
                        content: encode_utf8(text),
                    },
                ),
                Err(_) => fail(
                    ErrorKind::IoError,
                    Stage::Registration,
                    i,
                    plan.registry_path(i as int),
                ),
            },
            _ => fail(ErrorKind::IoError, Stage::Registration, i, plan.registry_path(i as int)),
        },
        Position::RegistryWrite(i) => match response {
            ResponseView::Done => begin(plan, next),
            _ => fail(ErrorKind::IoError, Stage::Registration, i, plan.registry_path(i as int)),
        },
        Position::MigrationList(i) => match response {
            ResponseView::Listing(entries) => {
                let number = count_directories(entries);
                proceed(
                    Position::MigrationCreate(i, number as usize),
                    RequestView::CreateDirectory {
                        path: plan.migration_path(i as int, number as int),
                    },
                )
            },
            _ => fail(ErrorKind::IoError, Stage::Migration, i, plan.migration_root(i as int)),
        },
        Position::MigrationCreate(i, number) => match response {
            ResponseView::Done => proceed(
                Position::MigrationUp(i, number),
                RequestView::Write {
                    path: joined(plan.migration_path(i as int, number as int), "up.sql"@),
                    content: encode_utf8(plan.migrations[i as int].up_content),
                },
            ),
            _ => fail(
                ErrorKind::DirectoryCreationError,
                Stage::Migration,
                i,
                plan.migration_path(i as int, number as int),
            ),
        },
        Position::MigrationUp(i, number) => match response {
            ResponseView::Done => proceed(
                Position::MigrationDown(i, number),
                RequestView::Write {
                    path: joined(plan.migration_path(i as int, number as int), "down.sql"@),
                    content: encode_utf8(plan.migrations[i as int].down_content),
                },
            ),
            _ => fail(
                ErrorKind::IoError,
                Stage::Migration,
                i,
                joined(plan.migration_path(i as int, number as int), "up.sql"@),
            ),
        },
        Position::MigrationDown(i, number) => match response {
            ResponseView::Done => begin(plan, next),
            _ => fail(
                ErrorKind::IoError,
                Stage::Migration,
                i,
                joined(plan.migration_path(i as int, number as int), "down.sql"@),
            ),
        },
        Position::Finished => Progress {
            position: Position::Finished,
            failure,
            request: match failure {
                Some(error) => RequestView::Abort(error),
                None => RequestView::Finish,
            },
        },
    }
}

/// Once a run is over it stays over: whatever comes in, the position and the
/// failure stay as they are, and the request repeats the result.
pub proof fn lemma_finished_is_final(
    plan: PlanView,
    failure: Option<Failure>,
    response: ResponseView,
)
    ensures
        step(plan, Position::Finished, failure, response).position == Position::Finished,
        step(plan, Position::Finished, failure, response).failure == failure,
        step(plan, Position::Finished, failure, response).request == match failure {
            Some(error) => RequestView::Abort(error),
            None => RequestView::Finish,
        },
{
}

/// The requests that go out, one per answer, when the answers `responses`
/// come in one after the other, the first of them at `position`.
pub open spec fn requests(
    plan: PlanView,
    position: Position,
    failure: Option<Failure>,
    responses: Seq<ResponseView>,
) -> Seq<RequestView>
    decreases responses.len(),
{
    if responses.len() == 0 {
        Seq::empty()
    } else {
        let after = step(plan, position, failure, responses[0]);
        seq![after.request] + requests(plan, after.position, after.failure, responses.skip(1))
    }
}

/// After the end of a run nothing is read or written any more: however the
/// caller goes on answering, every request only repeats the result.
pub proof fn lemma_nothing_follows_the_end(
    plan: PlanView,
    failure: Option<Failure>,
    responses: Seq<ResponseView>,
    k: int,
)
    requires
        0 <= k < responses.len(),
    ensures
        requests(plan, Position::Finished, failure, responses).len() == responses.len(),
        requests(plan, Position::Finished, failure, responses)[k] == match failure {
            Some(error) => RequestView::Abort(error),
            None => RequestView::Finish,
        },
    decreases responses.len(),
{
    lemma_requests_len(plan, Position::Finished, failure, responses);
    if k > 0 {
        lemma_nothing_follows_the_end(plan, failure, responses.skip(1), k - 1);
    }
}

/// One request goes out for each answer.
pub proof fn lemma_requests_len(
    plan: PlanView,
    position: Position,
    failure: Option<Failure>,
    responses: Seq<ResponseView>,
)
    ensures
        requests(plan, position, failure, responses).len() == responses.len(),
    decreases responses.len(),
{
    if responses.len() > 0 {
        let after = step(plan, position, failure, responses[0]);
        lemma_requests_len(plan, after.position, after.failure, responses.skip(1));
    }
}

/// A write of an asset that fails is the last thing that the run asks for:
/// whatever the answers behind it, no later asset, patch or registration is
/// taken up, and every request behind the failure hands out the same
/// failure, which names the asset.
pub proof fn lemma_failed_asset_is_the_last(
    plan: PlanView,
    i: usize,
    responses: Seq<ResponseView>,
    k: int,
)
    requires
        i < plan.assets.len(),
        0 <= k < responses.len(),
        !(responses[0] is Done),
    ensures
        requests(plan, Position::Asset(i), None, responses)[k] == RequestView::Abort(
            Failure {
                kind: ErrorKind::IoError,
                stage: Stage::Asset,
                index: i,
                path: plan.asset_path(i as int),
            },
        ),
{
    let failure = Failure {
        kind: ErrorKind::IoError,
        stage: Stage::Asset,
        index: i,
        path: plan.asset_path(i as int),
    };
    if k > 0 {
        lemma_nothing_follows_the_end(plan, Some(failure), responses.skip(1), k - 1);
    }
}

/// A step that fails ends the run and asks for nothing: the failure is held,
/// the run is over, and the request hands the failure out. A step that does
/// not fail holds none.
pub proof fn lemma_failure_ends_run(plan: PlanView, position: Position, response: ResponseView)
    requires
        position != Position::Finished,
    ensures
        ({
            let after = step(plan, position, None, response);
            match after.failure {
                Some(error) => after.position == Position::Finished && after.request
                    == RequestView::Abort(error),
                None => !(after.request is Abort),
            }
        }),
{
}

/// A write of an asset that does not go through ends the run with an
/// `IoError` that names the asset: no later asset is taken up, and what was
/// written before is not touched again.
pub proof fn lemma_failed_asset_ends_run(plan: PlanView, i: usize, response: ResponseView)
    requires
        i < plan.assets.len(),
        !(response is Done),
    ensures
        step(plan, Position::Asset(i), None, response) == fail(
            ErrorKind::IoError,
            Stage::Asset,
            i,
            plan.asset_path(i as int),
        ),
{
}

/// A patch whose anchor stands nowhere in the text read ends the run with
/// `AnchorNotFound`, the patch and its file named; nothing is written.
pub proof fn lemma_missing_anchor_ends_run(plan: PlanView, i: usize, content: Seq<char>)
    requires
        i < plan.patches.len(),
        plan.patches[i as int].mode == PatchMode::ReplaceKeepingAnchor,
        !occurs(content, plan.patches[i as int].anchor),
    ensures
        step(plan, Position::PatchRead(i), None, ResponseView::File(FileView::Text(content)))
            == fail(
            ErrorKind::AnchorNotFound,
            Stage::Patch,
            i,
            plan.patch_path(i as int),
        ),
{
}

/// The tasks of a plan are taken up in the plan's order and never again: a
/// step stays with its task or moves to a later one, and the run is over
/// only behind the last.
pub proof fn lemma_step_keeps_order(
    plan: PlanView,
    position: Position,
    failure: Option<Failure>,
    response: ResponseView,
)
    requires
        plan.fits(),
        plan.holds(position),
    ensures
        plan.holds(step(plan, position, failure, response).position),
        plan.rank(position) <= plan.rank(step(plan, position, failure, response).position)
            <= plan.task_count(),
{
}

/// The lists of a plan that is held in memory are short enough for it.
pub proof fn lemma_plan_fits(plan: Plan)
    ensures
        plan@.fits(),
{
    assert(plan.assets.len() == plan.assets@.len());
    assert(plan.patches.len() == plan.patches@.len());
    assert(plan.registrations.len() == plan.registrations@.len());
    assert(plan.migrations.len() == plan.migrations@.len());
}

/// Every asset comes before every patch, every patch before every
/// registration, and every registration before every migration.
pub proof fn lemma_stages_in_order(plan: PlanView, earlier: Position, later: Position)
    requires
        plan.holds(earlier),
        plan.holds(later),
        earlier is Asset && !(later is Asset) || (earlier is PatchRead || earlier is PatchWrite)
            && (later is RegistryRead || later is RegistryWrite || later is MigrationList
            || later is MigrationCreate || later is MigrationUp || later is MigrationDown)
            || (earlier is RegistryRead || earlier is RegistryWrite) && (later is MigrationList
            || later is MigrationCreate || later is MigrationUp || later is MigrationDown),
    ensures
        plan.rank(earlier) < plan.rank(later),
{
}

/// The request that is out while the run waits at an asset is the write of
/// that asset: to its path below the project root, and with its expanded
/// content.
pub proof fn lemma_asset_request(plan: PlanView, task: int)
    requires
        0 <= task < plan.assets.len(),
        !plan.asset_refused(task),
    ensures
        begin(plan, task).position == Position::Asset(task as usize),
        begin(plan, task).request == (RequestView::Write {
            path: plan.asset_path(task),
            content: plan.asset_content(task),
        }),
{
}

/// What a kind of failure is called in a message.
pub open spec fn kind_text(kind: ErrorKind) -> Seq<char> {
    match kind {
        ErrorKind::AssetNotFound => "asset not found"@,
        ErrorKind::TemplateError => "unrecognized placeholder"@,
        ErrorKind::AnchorNotFound => "anchor not found"@,
        ErrorKind::FileNotFound => "file not found"@,
        ErrorKind::IoError => "read or write failed"@,
        ErrorKind::DirectoryCreationError => "directory not created"@,
    }
}

/// What a stage is called in a message.
pub open spec fn stage_text(stage: Stage) -> Seq<char> {
    match stage {
        Stage::Asset => "asset"@,
        Stage::Patch => "patch"@,
        Stage::Registration => "registration"@,
        Stage::Migration => "migration"@,
    }
}

/// The message of a failure: what went wrong, then in brackets the stage
/// and the index of the task, then the path, as in
/// `anchor not found (patch 3): frontend/src/App.tsx`.
pub open spec fn failure_message(failure: Failure) -> Seq<char> {
    kind_text(failure.kind) + " ("@ + stage_text(failure.stage) + " "@ + decimal(
        failure.index as nat,
    ) + "): "@ + failure.path
}

impl MaterializeError {
    /// The message of this failure.
    pub fn message(&self) -> (message: String)
        ensures
            message@ == failure_message(self@),
    {
        let kind = match self.kind {
            ErrorKind::AssetNotFound => "asset not found",
            ErrorKind::TemplateError => "unrecognized placeholder",
            ErrorKind::AnchorNotFound => "anchor not found",
            ErrorKind::FileNotFound => "file not found",
            ErrorKind::IoError => "read or write failed",
            ErrorKind::DirectoryCreationError => "directory not created",
        };
        let stage = match self.stage {
            Stage::Asset => "asset",
            Stage::Patch => "patch",
            Stage::Registration => "registration",
            Stage::Migration => "migration",
        };
        let mut text = chars_of(kind);
        let opening = chars_of(" (");
        let stage_name = chars_of(stage);
        let space = chars_of(" ");
        let index = pad_number(self.index, 0);
        let closing = chars_of("): ");
        let path = chars_of(self.path.as_str());
        push_range(&mut text, &opening, 0, opening.len());
        push_range(&mut text, &stage_name, 0, stage_name.len());
        push_range(&mut text, &space, 0, space.len());
        push_range(&mut text, &index, 0, index.len());
        push_range(&mut text, &closing, 0, closing.len());
        push_range(&mut text, &path, 0, path.len());
        assert(text@ =~= failure_message(self@));
        string_of(&text)
    }

    /// A copy of this failure.
    pub fn duplicate(&self) -> (copy: MaterializeError)
        ensures
            copy@ == self@,
    {
        MaterializeError {
            kind: self.kind,
            stage: self.stage,
            index: self.index,
            path: self.path.clone(),
        }
    }
}

/// A step as the materializer holds it: the position, the failure, and the
/// request that goes out.
struct Outcome {
    position: Position,
    failure: Option<MaterializeError>,
    request: Request,
}

impl View for Outcome {
    type V = Progress;

    closed spec fn view(&self) -> Progress {
        Progress {
            position: self.position,
            failure: match self.failure {
                Some(error) => Some(error@),
                None => None,
            },
            request: self.request@,
        }
    }
}

fn failed(kind: ErrorKind, stage: Stage, index: usize, path: String) -> (outcome: Outcome)
    ensures
        outcome@ == fail(kind, stage, index, path@),
{
    let error = MaterializeError { kind, stage, index, path };
    let copy = error.duplicate();
    Outcome { position: Position::Finished, failure: Some(error), request: Request::Abort(copy) }
}

fn asked(position: Position, request: Request) -> (outcome: Outcome)
    ensures
        outcome@ == proceed(position, request@),
{
    Outcome { position, failure: None, request }
}

/// The place of the first task of `stage` among all tasks of `plan`.
spec fn first_of(plan: PlanView, stage: Stage) -> int {
    match stage {
        Stage::Asset => 0,
        Stage::Patch => plan.assets.len() as int,
        Stage::Registration => (plan.assets.len() + plan.patches.len()) as int,
        Stage::Migration => (plan.assets.len() + plan.patches.len()
            + plan.registrations.len()) as int,
    }
}

/// How many tasks `plan` has in `stage`.
spec fn tasks_in(plan: PlanView, stage: Stage) -> int {
    match stage {
        Stage::Asset => plan.assets.len() as int,
        Stage::Patch => plan.patches.len() as int,
        Stage::Registration => plan.registrations.len() as int,
        Stage::Migration => plan.migrations.len() as int,
    }
}

/// The write of asset `i`, or the failure that its template comes to.
fn start_asset(plan: &Plan, i: usize) -> (outcome: Outcome)
    requires
        i < plan.assets@.len(),
    ensures
        outcome@ == begin(plan@, i as int),
        plan@.holds(outcome.position),
{
    let asset = &plan.assets[i];
    let path = join_path(plan.project_root.as_str(), asset.logical_path.as_str());
    let content = match (&plan.names, decode(&asset.raw_bytes)) {
        (Some(names), Some(template)) => {
            if plan.strict {
                match expand_strict(template.as_str(), names) {
                    Ok(text) => encode(text.as_str()),
                    Err(_) => {
                        return failed(ErrorKind::TemplateError, Stage::Asset, i, path);
                    },
                }
            } else {
                encode(expand(template.as_str(), names).as_str())
            }
        },
        _ => copy_bytes(&asset.raw_bytes),
    };
    asked(Position::Asset(i), Request::Write { path, content })
}

/// Takes up task `index` of `stage`, or, where the stage has no such task,
/// the first task of the stages behind it.
fn start(plan: &Plan, stage: Stage, index: usize) -> (outcome: Outcome)
    requires
        index <= tasks_in(plan@, stage),
    ensures
        outcome@ == begin(plan@, first_of(plan@, stage) + index),
        plan@.holds(outcome.position),
{
    let mut stage = stage;
    let mut index = index;
    if stage == Stage::Asset && index >= plan.assets.len() {
        stage = Stage::Patch;
        index = 0;
    }
    if stage == Stage::Patch && index >= plan.patches.len() {
        stage = Stage::Registration;
        index = 0;
    }
    if stage == Stage::Registration && index >= plan.registrations.len() {
        stage = Stage::Migration;
        index = 0;
    }
    match stage {
        Stage::Asset => start_asset(plan, index),
        Stage::Patch => {
            let path = join_path(
                plan.project_root.as_str(),
                plan.patches[index].target_file.as_str(),
            );
            asked(Position::PatchRead(index), Request::Read { path })
        },
        Stage::Registration => {
            let path = join_path(
                plan.project_root.as_str(),
                plan.registrations[index].registry_path.as_str(),
            );
            asked(Position::RegistryRead(index), Request::Read { path })
        },
        Stage::Migration => {
            if index >= plan.migrations.len() {
                Outcome { position: Position::Finished, failure: None, request: Request::Finish }
            } else {
                let path = join_path(
                    plan.project_root.as_str(),
                    plan.migrations[index].root.as_str(),
                );
                asked(Position::MigrationList(index), Request::List { path })
            }
        },
    }
}

/// The directory of migration `i` with the number `number`.
fn migration_directory(plan: &Plan, i: usize, number: usize) -> (path: String)
    requires
        i < plan.migrations@.len(),
    ensures
        path@ == plan@.migration_path(i as int, number as int),
{
    let wanted = &plan.migrations[i];
    let root = join_path(plan.project_root.as_str(), wanted.root.as_str());
    let migration = allocate_migration(
        number,
        wanted.name.as_str(),
        wanted.up_content.as_str(),
        wanted.down_content.as_str(),
    );
    migration.path(root.as_str())
}

/// One step of a run.
fn advance_from(
    plan: &Plan,
    position: Position,
    failure: &Option<MaterializeError>,
    response: Response,
) -> (outcome: Outcome)
    requires
        plan@.holds(position),
    ensures
        outcome@ == step(
            plan@,
            position,
            match *failure {
                Some(error) => Some(error@),
                None => None,
            },
            response@,
        ),
        plan@.holds(outcome.position),
{
    match position {
        Position::Asset(i) => match response {
            Response::Done => {
                assert(i < plan.assets.len());
                start(plan, Stage::Asset, i + 1)
            },
            _ => failed(
                ErrorKind::IoError,
                Stage::Asset,
                i,
                join_path(plan.project_root.as_str(), plan.assets[i].logical_path.as_str()),
            ),
        },
        Position::PatchRead(i) => {
            let path = join_path(plan.project_root.as_str(), plan.patches[i].target_file.as_str());
            match response {
                Response::File(file) => match patch(&file, &plan.patches[i]) {
                    Ok(text) => asked(
                        Position::PatchWrite(i),
                        Request::Write { path, content: encode(text.as_str()) },
                    ),
                    Err(error) => {
                        let kind = match error {
                            PatchError::FileNotFound => ErrorKind::FileNotFound,
                            PatchError::IoError => ErrorKind::IoError,
                            PatchError::AnchorNotFound => ErrorKind::AnchorNotFound,
                        };
                        failed(kind, Stage::Patch, i, path)
                    },
                },
                _ => failed(ErrorKind::IoError, Stage::Patch, i, path),
            }
        },
        Position::PatchWrite(i) => match response {
            Response::Done => {
                assert(i < plan.patches.len());
                start(plan, Stage::Patch, i + 1)
            },
            _ => failed(
                ErrorKind::IoError,
                Stage::Patch,
                i,
                join_path(plan.project_root.as_str(), plan.patches[i].target_file.as_str()),
            ),
        },
        Position::RegistryRead(i) => {
            let path = join_path(
                plan.project_root.as_str(),
                plan.registrations[i].registry_path.as_str(),
            );
            match response {
                Response::File(file) => match register_module(
                    &file,
                    plan.registrations[i].entry.as_str(),
                ) {
                    Ok(text) => asked(
                        Position::RegistryWrite(i),
                        Request::Write { path, content: encode(text.as_str()) },
                    ),
                    Err(_) => failed(ErrorKind::IoError, Stage::Registration, i, path),
                },
                _ => failed(ErrorKind::IoError, Stage::Registration, i, path),
            }
        },
        Position::RegistryWrite(i) => match response {
            Response::Done => {
                assert(i < plan.registrations.len());
                start(plan, Stage::Registration, i + 1)
            },
            _ => failed(
                ErrorKind::IoError,
                Stage::Registration,
                i,
                join_path(
                    plan.project_root.as_str(),
                    plan.registrations[i].registry_path.as_str(),
                ),
            ),
        },
        Position::MigrationList(i) => match response {
            Response::Listing(entries) => {
                let number = count_subdirectories(&entries);
                asked(
                    Position::MigrationCreate(i, number),
                    Request::CreateDirectory { path: migration_directory(plan, i, number) },
                )
            },
            _ => failed(
                ErrorKind::IoError,
                Stage::Migration,
                i,
                join_path(plan.project_root.as_str(), plan.migrations[i].root.as_str()),
            ),
        },
        Position::MigrationCreate(i, number) => {
            let directory = migration_directory(plan, i, number);
            match response {
                Response::Done => asked(
                    Position::MigrationUp(i, number),
                    Request::Write {
                        path: join_path(directory.as_str(), "up.sql"),
                        content: encode(plan.migrations[i].up_content.as_str()),
                    },
                ),
                _ => failed(ErrorKind::DirectoryCreationError, Stage::Migration, i, directory),
            }
        },
        Position::MigrationUp(i, number) => {
            let directory = migration_directory(plan, i, number);
            match response {
                Response::Done => asked(
                    Position::MigrationDown(i, number),
                    Request::Write {
                        path: join_path(directory.as_str(), "down.sql"),
                        content: encode(plan.migrations[i].down_content.as_str()),
                    },
                ),
                _ => failed(
                    ErrorKind::IoError,
                    Stage::Migration,
                    i,
                    join_path(directory.as_str(), "up.sql"),
                ),
            }
        },
        Position::MigrationDown(i, number) => match response {
            Response::Done => {
                assert(i < plan.migrations.len());
                start(plan, Stage::Migration, i + 1)
            },
            _ => failed(
                ErrorKind::IoError,
                Stage::Migration,
                i,
                join_path(migration_directory(plan, i, number).as_str(), "down.sql"),
            ),
        },
        Position::Finished => match failure {
            Some(error) => Outcome {
                position: Position::Finished,
                failure: Some(error.duplicate()),
                request: Request::Abort(error.duplicate()),
            },
            None => Outcome {
                position: Position::Finished,
                failure: None,
                request: Request::Finish,
            },
        },
    }
}

/// A run of one plan: the plan, the answer awaited, and the failure that
/// ended the run, if one did.
#[derive(Debug)]
pub struct Materializer {
    pub plan: Plan,
    pub position: Position,
    pub failure: Option<MaterializeError>,
}

impl Materializer {
    /// The position names a task of the plan, and a failure is held only
    /// where the run is over.
    pub open spec fn well_formed(&self) -> bool {
        &&& self.plan@.holds(self.position)
        &&& self.failure is Some ==> self.position == Position::Finished
    }

    /// The failure that ended the run, its path as a character sequence.
    pub open spec fn failure_view(&self) -> Option<Failure> {
        match self.failure {
            Some(error) => Some(error@),
            None => None,
        }
    }

    /// Where the run stands, `request` having gone out.
    pub open spec fn progress(&self, request: Request) -> Progress {
        Progress { position: self.position, failure: self.failure_view(), request: request@ }
    }

    /// Starts a run of `plan`: the materializer, and its first request.
    pub fn new(plan: Plan) -> (started: (Materializer, Request))
        ensures
            started.0.well_formed(),
            started.0.plan == plan,
            started.0.progress(started.1) == begin(plan@, 0),
    {
        let outcome = start(&plan, Stage::Asset, 0);
        (
            Materializer { plan, position: outcome.position, failure: outcome.failure },
            outcome.request,
        )
    }

    /// Takes the answer to the last request and gives the next one. Once the
    /// run is over, every answer gets the result of the run again.
    pub fn advance(&mut self, response: Response) -> (request: Request)
        requires
            old(self).well_formed(),
        ensures
            final(self).well_formed(),
            final(self).plan == old(self).plan,
            final(self).progress(request) == step(
                old(self).plan@,
                old(self).position,
                old(self).failure_view(),
                response@,
            ),
    {
        let outcome = advance_from(&self.plan, self.position, &self.failure, response);
        self.position = outcome.position;
        self.failure = outcome.failure;
        outcome.request
    }

    /// Whether the run is over.
    pub fn is_finished(&self) -> (finished: bool)
        ensures
            finished == (self.position == Position::Finished),
    {
        match self.position {
            Position::Finished => true,
            _ => false,
        }
    }
}

/// The plan that writes `assets`, expanded with `names`, then applies
/// `patches` and then makes `registrations`, all paths taken from the current
/// directory.
pub open spec fn materialization(
    names: ResourceNames,
    assets: Seq<TemplateAssetView>,
    patches: Seq<Patch>,
    registrations: Seq<RegistrationView>,
) -> PlanView {
    PlanView {
        project_root: Seq::empty(),
        names: Some(names),
        strict: false,
        assets,
        patches,
        registrations,
        migrations: Seq::empty(),
    }
}

/// Starts the run that writes `assets`, expanded with `names`, then applies
/// `patches` and then makes `registrations`, each in the order given and all
/// paths taken from the current directory.
pub fn materialize(
    names: ResourceNameSet,
    assets: Vec<TemplateAsset>,
    patches: Vec<PatchSpec>,
    registrations: Vec<Registration>,
) -> (started: (Materializer, Request))
    ensures
        started.0.well_formed(),
        started.0.plan@ == materialization(
            names@,
            asset_views(assets@),
            patches@.map_values(|patch: PatchSpec| patch@),
            registrations@.map_values(|entry: Registration| entry@),
        ),
        started.0.progress(started.1) == begin(started.0.plan@, 0),
{
    let plan = Plan {
        project_root: String::new(),
        names: Some(names),
        strict: false,
        assets,
        patches,
        registrations,
        migrations: Vec::new(),
    };
    assert(plan@.migrations =~= Seq::empty());
    Materializer::new(plan)
}

} // verus!

//! Plugins: what a plugin is installed into, and what installing one comes
//! to.

use crate::materializer::{Plan, PlanView};
use vstd::prelude::*;

pub mod auth;

verus! {

/// The object mapper of a project's backend.
#[derive(Clone, Copy, Debug, PartialEq, Eq, Structural)]
pub enum BackendOrm {
    Diesel,
    Prisma,
}

/// The database of a project's backend.
#[derive(Clone, Copy, Debug, PartialEq, Eq, Structural)]
pub enum BackendDatabase {
    Postgres,
    Sqlite,
}

/// The web framework of a project's backend.
#[derive(Clone, Copy, Debug, PartialEq, Eq, Structural)]
pub enum BackendFramework {
    ActixWeb,
    Poem,
}

/// The project that a plugin is installed into.
#[derive(Clone, Debug)]
pub struct InstallConfig {
    /// The root of the project.
    pub project_dir: String,
    /// The directory, taken from the root, that holds the migrations.
    pub migrations_root: String,
    pub backend_orm: BackendOrm,
    pub backend_database: BackendDatabase,
    pub backend_framework: BackendFramework,
}

/// A project that a plugin is installed into, its paths as character
/// sequences.
pub struct InstallConfigView {
    pub project_dir: Seq<char>,
    pub migrations_root: Seq<char>,
    pub backend_orm: BackendOrm,
    pub backend_database: BackendDatabase,
    pub backend_framework: BackendFramework,
}

impl View for InstallConfig {
    type V = InstallConfigView;

    open spec fn view(&self) -> InstallConfigView {
        InstallConfigView {
            project_dir: self.project_dir@,
            migrations_root: self.migrations_root@,
            backend_orm: self.backend_orm,
            backend_database: self.backend_database,
            backend_framework: self.backend_framework,
        }
    }
}

/// A service to mount in the backend.
#[derive(Clone, Debug)]
pub enum ServiceRegistration {
    /// For Actix: the expression `service` is mounted under `name`.
    Actix { name: String, service: String },
    /// For Poem: the expression `api` is mounted under `name` at `path`.
    Poem { name: String, api: String, path: String },
}

/// A service to mount, its texts as character sequences.
pub enum ServiceView {
    Actix { name: Seq<char>, service: Seq<char> },
    Poem { name: Seq<char>, api: Seq<char>, path: Seq<char> },
}

impl View for ServiceRegistration {
    type V = ServiceView;

    open spec fn view(&self) -> ServiceView {
        match self {
            ServiceRegistration::Actix { name, service } => ServiceView::Actix {
                name: name@,
                service: service@,
            },
            ServiceRegistration::Poem { name, api, path } => ServiceView::Poem {
                name: name@,
                api: api@,
                path: path@,
            },
        }
    }
}

/// What installing a plugin comes to: the plan to carry out, and then the
/// service to mount.
#[derive(Debug)]
pub struct Installation {
    pub plan: Plan,
    pub service: ServiceRegistration,
}

/// An installation as sequences.
pub struct InstallationView {
    pub plan: PlanView,
    pub service: ServiceView,
}

impl View for Installation {
    type V = InstallationView;

    open spec fn view(&self) -> InstallationView {
        InstallationView { plan: self.plan@, service: self.service@ }
    }
}

} // verus!

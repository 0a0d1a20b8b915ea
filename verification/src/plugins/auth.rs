//! The authentication plugin: its files, the changes it makes to the
//! frontend, the tables it needs, and the service it mounts.

use crate::materializer::{MigrationRequest, MigrationRequestView, Plan, PlanView};
use crate::patcher::{
    added_behind, lemma_added_behind_keeps_anchor, prepended, Patch, PatchMode, PatchSpec,
};
use crate::plugins::{
    BackendDatabase, BackendFramework, BackendOrm, InstallConfig, InstallConfigView, Installation,
    InstallationView, ServiceRegistration, ServiceView,
};
use crate::store::{asset_views, TemplateAsset, TemplateAssetView};
use crate::text::occurs;
use vstd::prelude::*;

verus! {

/// The file that holds the application component.
pub const APP_FILE: &'static str = "frontend/src/App.tsx";

/// The file that mounts the application.
pub const BUNDLE_FILE: &'static str = "frontend/bundles/index.tsx";

/// The imports that the application component needs.
pub const APP_IMPORTS: &'static str = "import { useAuth, useAuthCheck } from './hooks/useAuth'
import { AccountPage } from './containers/AccountPage'
import { LoginPage } from './containers/LoginPage'
import { ActivationPage } from './containers/ActivationPage'
import { RegistrationPage } from './containers/RegistrationPage'
import { RecoveryPage } from './containers/RecoveryPage'
import { ResetPage } from './containers/ResetPage'";

/// The import that the bundle needs.
pub const BUNDLE_IMPORTS: &'static str = "import { AuthProvider } from '../src/hooks/useAuth'";

/// The first line of the application component.
pub const APP_HEAD: &'static str = "const App = () => {";

/// The hooks that go behind the first line of the application component.
pub const AUTH_HOOKS: &'static str = "\n  useAuthCheck()
  const auth = useAuth()
\x20\x20\x20\x20";

/// The landmark of the routes.
pub const ROUTES: &'static str = "{/* CRA: routes */}";

/// The routes of the plugin.
pub const AUTH_ROUTES: &'static str = "\n          <Route path=\"/login\" element={<LoginPage />} />
          <Route path=\"/recovery\" element={<RecoveryPage />} />
          <Route path=\"/reset\" element={<ResetPage />} />
          <Route path=\"/activate\" element={<ActivationPage />} />
          <Route path=\"/register\" element={<RegistrationPage />} />
          <Route path=\"/account\" element={<AccountPage />} />
\x20\x20\x20\x20";

/// The landmark of the buttons on the left.
pub const LEFT_NAV: &'static str = "{/* CRA: left-aligned nav buttons */}";

/// The button that leads to the account.
pub const ACCOUNT_BUTTON: &'static str = "\n          <a className=\"NavButton\" onClick={() => navigate('/account')}>Account</a>";

/// The landmark of the buttons on the right.
pub const RIGHT_NAV: &'static str = "{/* CRA: right-aligned nav buttons */}";

/// The buttons that log in and out.
pub const SESSION_BUTTONS: &'static str = "\n          { auth.isAuthenticated && <a className=\"NavButton\" onClick={() => auth.logout()}>Logout</a> }
          { !auth.isAuthenticated && <a className=\"NavButton\" onClick={() => navigate('/login')}>Login/Register</a> }";

/// The landmark in front of the application.
pub const WRAP: &'static str = "{/* CRA: Wrap */}";

/// The opening of the provider.
pub const PROVIDER_OPEN: &'static str = "\n<AuthProvider>";

/// The landmark behind the application.
pub const UNWRAP: &'static str = "{/* CRA: Unwrap */}";

/// The closing of the provider.
pub const PROVIDER_CLOSE: &'static str = "\n</AuthProvider>";

/// The name of the migration that makes the tables of the plugin.
pub const MIGRATION_NAME: &'static str = "plugin_auth";

/// The tables of the plugin, for Postgres.
pub const POSTGRES_UP: &'static str = "CREATE TABLE users (
  id SERIAL PRIMARY KEY,
  email TEXT NOT NULL,
  hash_password TEXT NOT NULL,
  activated BOOL NOT NULL DEFAULT FALSE,
  created_at TIMESTAMPTZ NOT NULL DEFAULT CURRENT_TIMESTAMP,
  updated_at TIMESTAMPTZ NOT NULL DEFAULT CURRENT_TIMESTAMP
);
SELECT manage_updated_at('users');
CREATE TABLE user_sessions (
  id SERIAL PRIMARY KEY,
  user_id SERIAL NOT NULL REFERENCES users(id),
  refresh_token TEXT NOT NULL,
  device TEXT,
  created_at TIMESTAMPTZ NOT NULL DEFAULT CURRENT_TIMESTAMP,
  updated_at TIMESTAMPTZ NOT NULL DEFAULT CURRENT_TIMESTAMP
);
SELECT manage_updated_at('user_sessions');
CREATE TABLE user_permissions (
  user_id SERIAL NOT NULL REFERENCES users(id),
  permission TEXT NOT NULL,
  created_at TIMESTAMPTZ NOT NULL DEFAULT CURRENT_TIMESTAMP,
  PRIMARY KEY (user_id, permission)
);
CREATE TABLE user_roles (
  user_id SERIAL NOT NULL REFERENCES users(id),
  role TEXT NOT NULL,
  created_at TIMESTAMPTZ NOT NULL DEFAULT CURRENT_TIMESTAMP,
  PRIMARY KEY (user_id, role)
);
CREATE TABLE role_permissions (
  role TEXT NOT NULL,
  permission TEXT NOT NULL,
  created_at TIMESTAMPTZ NOT NULL DEFAULT CURRENT_TIMESTAMP,
  PRIMARY KEY (role, permission)
);
";

/// The tables of the plugin, for SQLite.
pub const SQLITE_UP: &'static str = "CREATE TABLE users (
  id INTEGER PRIMARY KEY AUTOINCREMENT NOT NULL,
  email TEXT NOT NULL,
  hash_password TEXT NOT NULL,
  activated BOOLEAN NOT NULL DEFAULT FALSE,
  created_at DATETIME NOT NULL DEFAULT CURRENT_TIMESTAMP
);
CREATE TABLE user_sessions (
  id INTEGER PRIMARY KEY AUTOINCREMENT NOT NULL,
  user_id INTEGER NOT NULL REFERENCES users(id),
  refresh_token TEXT NOT NULL,
  device TEXT,
  created_at DATETIME NOT NULL DEFAULT CURRENT_TIMESTAMP
);
CREATE TABLE user_permissions (
  user_id INTEGER NOT NULL REFERENCES users(id),
  permission TEXT NOT NULL,
  created_at DATETIME NOT NULL DEFAULT CURRENT_TIMESTAMP,
  PRIMARY KEY (user_id, permission)
);
CREATE TABLE user_roles (
  user_id INTEGER NOT NULL REFERENCES users(id),
  role TEXT NOT NULL,
  created_at DATETIME NOT NULL DEFAULT CURRENT_TIMESTAMP,
  PRIMARY KEY (user_id, role)
);
CREATE TABLE role_permissions (
  role TEXT NOT NULL,
  permission TEXT NOT NULL,
  created_at DATETIME NOT NULL DEFAULT CURRENT_TIMESTAMP,
  PRIMARY KEY (role, permission)
);
";

/// What drops the tables of the plugin again.
pub const DOWN: &'static str = "DROP TABLE user_permissions;
DROP TABLE role_permissions;
DROP TABLE user_roles;
DROP TABLE user_sessions;
DROP TABLE users;
";

/// The name under which the service of the plugin is registered.
pub const SERVICE_NAME: &'static str = "auth";

/// The service of the plugin, as Actix mounts it.
pub const ACTIX_SERVICE: &'static str = "create_rust_app::auth::endpoints(web::scope(\"/auth\"))";

/// The service of the plugin, as Poem mounts it.
pub const POEM_API: &'static str = "create_rust_app::auth::api()";

/// The path at which Poem mounts the service.
pub const POEM_PATH: &'static str = "/auth";

/// The authentication plugin.
#[derive(Clone, Copy, Debug, PartialEq, Eq, Structural)]
pub struct Auth {}

/// The changes that the plugin makes to the frontend, in the order in which
/// they are made.
pub open spec fn auth_patches() -> Seq<Patch> {
    seq![
        prepended(APP_FILE@, APP_IMPORTS@),
        prepended(BUNDLE_FILE@, BUNDLE_IMPORTS@),
        added_behind(APP_FILE@, APP_HEAD@, AUTH_HOOKS@),
        added_behind(APP_FILE@, ROUTES@, AUTH_ROUTES@),
        added_behind(APP_FILE@, LEFT_NAV@, ACCOUNT_BUTTON@),
        added_behind(APP_FILE@, RIGHT_NAV@, SESSION_BUTTONS@),
        added_behind(BUNDLE_FILE@, WRAP@, PROVIDER_OPEN@),
        added_behind(BUNDLE_FILE@, UNWRAP@, PROVIDER_CLOSE@),
    ]
}

/// What makes the tables of the plugin in the given database.
pub open spec fn auth_tables(database: BackendDatabase) -> Seq<char> {
    match database {
        BackendDatabase::Postgres => POSTGRES_UP@,
        BackendDatabase::Sqlite => SQLITE_UP@,
    }
}

/// The service of the plugin as the given framework mounts it.
pub open spec fn auth_service(framework: BackendFramework) -> ServiceView {
    match framework {
        BackendFramework::ActixWeb => ServiceView::Actix {
            name: SERVICE_NAME@,
            service: ACTIX_SERVICE@,
        },
        BackendFramework::Poem => ServiceView::Poem {
            name: SERVICE_NAME@,
            api: POEM_API@,
            path: POEM_PATH@,
        },
    }
}

/// What installing the plugin comes to for a project configured as
/// `config`, the plugin's files being `assets`: every file is written below
/// the project directory as it is, the frontend is patched, one migration
/// with the plugin's tables is set up below the migrations root, and the
/// plugin's service is to be mounted.
pub open spec fn auth_installation(
    config: InstallConfigView,
    assets: Seq<TemplateAssetView>,
) -> InstallationView {
    InstallationView {
        plan: PlanView {
            project_root: config.project_dir,
            names: None,
            strict: false,
            assets,
            patches: auth_patches(),
            registrations: Seq::empty(),
            migrations: seq![
                MigrationRequestView {
                    root: config.migrations_root,
                    name: MIGRATION_NAME@,
                    up_content: auth_tables(config.backend_database),
                    down_content: DOWN@,
                },
            ],
        },
        service: auth_service(config.backend_framework),
    }
}

/// Every replacement of the plugin begins with its own anchor: the landmarks
/// stay in the frontend, and whatever is installed next finds them again.
pub proof fn lemma_auth_patches_keep_their_anchors(i: int)
    requires
        2 <= i < auth_patches().len(),
    ensures
        auth_patches()[i].mode == PatchMode::ReplaceKeepingAnchor,
        occurs(auth_patches()[i].insertion, auth_patches()[i].anchor),
{
    let patch = auth_patches()[i];
    lemma_added_behind_keeps_anchor(
        patch.target_file,
        patch.anchor,
        patch.insertion.skip(patch.anchor.len() as int),
    );
    assert(patch.anchor + patch.insertion.skip(patch.anchor.len() as int) =~= patch.insertion);
}

impl Auth {
    /// The name of the plugin.
    pub fn name(&self) -> (name: &'static str)
        ensures
            name@ == "Auth"@,
    {
        "Auth"
    }

    /// What installing the plugin into the project of `install_config` comes
    /// to, the plugin's files being `assets`. Only the Diesel mapper is
    /// supported.
    pub fn install(&self, install_config: &InstallConfig, assets: Vec<TemplateAsset>) -> (installation:
        Installation)
        requires
            install_config.backend_orm == BackendOrm::Diesel,
        ensures
            installation@ == auth_installation(install_config@, asset_views(assets@)),
    {
        let mut patches: Vec<PatchSpec> = Vec::new();
        patches.push(PatchSpec::prepend(APP_FILE, APP_IMPORTS));
        patches.push(PatchSpec::prepend(BUNDLE_FILE, BUNDLE_IMPORTS));
        patches.push(PatchSpec::behind(APP_FILE, APP_HEAD, AUTH_HOOKS));
        patches.push(PatchSpec::behind(APP_FILE, ROUTES, AUTH_ROUTES));
        patches.push(PatchSpec::behind(APP_FILE, LEFT_NAV, ACCOUNT_BUTTON));
        patches.push(PatchSpec::behind(APP_FILE, RIGHT_NAV, SESSION_BUTTONS));
        patches.push(PatchSpec::behind(BUNDLE_FILE, WRAP, PROVIDER_OPEN));
        patches.push(PatchSpec::behind(BUNDLE_FILE, UNWRAP, PROVIDER_CLOSE));
        assert(patches@.map_values(|patch: PatchSpec| patch@) =~= auth_patches());
        let up_content = match install_config.backend_database {
            BackendDatabase::Postgres => POSTGRES_UP,
            BackendDatabase::Sqlite => SQLITE_UP,
        };
        let mut migrations: Vec<MigrationRequest> = Vec::new();
        migrations.push(
            MigrationRequest {
                root: install_config.migrations_root.clone(),
                name: MIGRATION_NAME.to_owned(),
                up_content: up_content.to_owned(),
                down_content: DOWN.to_owned(),
            },
        );
        let service = match install_config.backend_framework {
            BackendFramework::ActixWeb => ServiceRegistration::Actix {
                name: SERVICE_NAME.to_owned(),
                service: ACTIX_SERVICE.to_owned(),
            },
            BackendFramework::Poem => ServiceRegistration::Poem {
                name: SERVICE_NAME.to_owned(),
                api: POEM_API.to_owned(),
                path: POEM_PATH.to_owned(),
            },
        };
        let plan = Plan {
            project_root: install_config.project_dir.clone(),
            names: None,
            strict: false,
            assets,
            patches,
            registrations: Vec::new(),
            migrations,
        };
        let ghost expected = auth_installation(install_config@, asset_views(assets@)).plan;
        assert(plan@.registrations =~= expected.registrations);
        assert(plan@.migrations =~= expected.migrations);
        Installation { plan, service }
    }
}

} // verus!

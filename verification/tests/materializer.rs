use create_rust_app::files::{DirectoryEntry, FileState};
use create_rust_app::materializer::{
    materialize, ErrorKind, MaterializeError, Materializer, MigrationRequest, Plan, Position,
    Registration, Request, Response, Stage,
};
use create_rust_app::naming::ResourceNameSet;
use create_rust_app::patcher::{PatchMode, PatchSpec};
use create_rust_app::store::TemplateAsset;

fn post() -> ResourceNameSet {
    ResourceNameSet {
        raw: "post".to_string(),
        pascal_case: "Post".to_string(),
        snake_case: "post".to_string(),
        table_case: "posts".to_string(),
    }
}

fn asset(path: &str, text: &str) -> TemplateAsset {
    TemplateAsset { logical_path: path.to_string(), raw_bytes: text.as_bytes().to_vec() }
}

fn replace(file: &str, anchor: &str, insertion: &str) -> PatchSpec {
    PatchSpec {
        target_file: file.to_string(),
        anchor: anchor.to_string(),
        insertion: insertion.to_string(),
        mode: PatchMode::ReplaceKeepingAnchor,
    }
}

fn write(request: &Request) -> (String, Vec<u8>) {
    match request {
        Request::Write { path, content } => (path.clone(), content.clone()),
        other => panic!("expected a write, got {:?}", other),
    }
}

fn read(request: &Request) -> String {
    match request {
        Request::Read { path } => path.clone(),
        other => panic!("expected a read, got {:?}", other),
    }
}

fn abort(request: &Request) -> MaterializeError {
    match request {
        Request::Abort(error) => error.clone(),
        other => panic!("expected an abort, got {:?}", other),
    }
}

fn empty_plan() -> Plan {
    Plan {
        project_root: String::new(),
        names: None,
        strict: false,
        assets: Vec::new(),
        patches: Vec::new(),
        registrations: Vec::new(),
        migrations: Vec::new(),
    }
}

#[test]
fn a_failed_write_stops_the_run_and_keeps_what_was_written() {
    let assets = vec![
        asset("one.rs", "struct $MODEL_NAME;"),
        asset("two.rs", "table $TABLE_NAME"),
        asset("three.rs", "never"),
    ];
    let (mut run, first) = materialize(post(), assets, Vec::new(), Vec::new());
    assert_eq!(write(&first), ("one.rs".to_string(), b"struct Post;".to_vec()));
    let second = run.advance(Response::Done);
    assert_eq!(write(&second), ("two.rs".to_string(), b"table posts".to_vec()));
    let third = run.advance(Response::Failed);
    let error = abort(&third);
    assert_eq!(error.kind, ErrorKind::IoError);
    assert_eq!(error.stage, Stage::Asset);
    assert_eq!(error.index, 1);
    assert_eq!(error.path, "two.rs");
    assert!(run.is_finished());
    let again = run.advance(Response::Done);
    assert_eq!(abort(&again).index, 1);
    assert_eq!(run.position, Position::Finished);
}

#[test]
fn tasks_run_in_the_order_of_the_plan() {
    let plan = Plan {
        project_root: "app".to_string(),
        names: Some(post()),
        strict: false,
        assets: vec![asset("src/models/post.rs", "pub struct $MODEL_NAME;\n")],
        patches: vec![replace("src/main.rs", "// routes", "// routes\n.service(post)")],
        registrations: vec![Registration {
            registry_path: "src/models/mod.rs".to_string(),
            entry: "post".to_string(),
        }],
        migrations: vec![MigrationRequest {
            root: "migrations".to_string(),
            name: "add posts".to_string(),
            up_content: "CREATE TABLE posts;".to_string(),
            down_content: "DROP TABLE posts;".to_string(),
        }],
    };
    let (mut run, request) = Materializer::new(plan);
    assert_eq!(
        write(&request),
        ("app/src/models/post.rs".to_string(), b"pub struct Post;\n".to_vec())
    );
    assert_eq!(run.position, Position::Asset(0));

    let request = run.advance(Response::Done);
    assert_eq!(read(&request), "app/src/main.rs");
    assert_eq!(run.position, Position::PatchRead(0));

    let request = run.advance(Response::File(FileState::Text("app()\n// routes\n".to_string())));
    assert_eq!(
        write(&request),
        ("app/src/main.rs".to_string(), b"app()\n// routes\n.service(post)\n".to_vec())
    );
    assert_eq!(run.position, Position::PatchWrite(0));

    let request = run.advance(Response::Done);
    assert_eq!(read(&request), "app/src/models/mod.rs");
    assert_eq!(run.position, Position::RegistryRead(0));

    let request = run.advance(Response::File(FileState::Missing));
    assert_eq!(
        write(&request),
        ("app/src/models/mod.rs".to_string(), b"pub mod post;\n".to_vec())
    );
    assert_eq!(run.position, Position::RegistryWrite(0));

    let request = run.advance(Response::Done);
    match &request {
        Request::List { path } => assert_eq!(path, "app/migrations"),
        other => panic!("expected a listing, got {:?}", other),
    }
    assert_eq!(run.position, Position::MigrationList(0));

    let listing = vec![
        DirectoryEntry { name: "00000000000000_init".to_string(), is_directory: true },
        DirectoryEntry { name: "notes.txt".to_string(), is_directory: false },
    ];
    let request = run.advance(Response::Listing(listing));
    match &request {
        Request::CreateDirectory { path } => {
            assert_eq!(path, "app/migrations/00000000000001_add_posts")
        }
        other => panic!("expected a directory, got {:?}", other),
    }
    assert_eq!(run.position, Position::MigrationCreate(0, 1));

    let request = run.advance(Response::Done);
    assert_eq!(
        write(&request),
        (
            "app/migrations/00000000000001_add_posts/up.sql".to_string(),
            b"CREATE TABLE posts;".to_vec()
        )
    );
    let request = run.advance(Response::Done);
    assert_eq!(
        write(&request),
        (
            "app/migrations/00000000000001_add_posts/down.sql".to_string(),
            b"DROP TABLE posts;".to_vec()
        )
    );
    let request = run.advance(Response::Done);
    assert!(matches!(request, Request::Finish));
    assert!(run.is_finished());
    assert!(run.failure.is_none());
    assert!(matches!(run.advance(Response::Failed), Request::Finish));
}

#[test]
fn an_empty_plan_finishes_at_once() {
    let (run, request) = Materializer::new(empty_plan());
    assert!(matches!(request, Request::Finish));
    assert!(run.is_finished());
}

#[test]
fn a_missing_anchor_ends_the_run_without_a_write() {
    let mut plan = empty_plan();
    plan.patches = vec![
        replace("a.txt", "one", "one two"),
        replace("b.txt", "three", "three four"),
    ];
    let (mut run, request) = Materializer::new(plan);
    assert_eq!(read(&request), "a.txt");
    let request = run.advance(Response::File(FileState::Text("zero".to_string())));
    let error = abort(&request);
    assert_eq!(error.kind, ErrorKind::AnchorNotFound);
    assert_eq!(error.stage, Stage::Patch);
    assert_eq!(error.index, 0);
    assert_eq!(error.path, "a.txt");
    assert_eq!(error.message(), "anchor not found (patch 0): a.txt");
    assert!(run.is_finished());
}

#[test]
fn a_patch_sees_what_an_earlier_patch_wrote() {
    let mut plan = empty_plan();
    plan.patches = vec![
        replace("a.txt", "// here", "// here\nfirst"),
        replace("a.txt", "// here", "// here\nsecond"),
    ];
    let (mut run, _) = Materializer::new(plan);
    let request = run.advance(Response::File(FileState::Text("// here\n".to_string())));
    let (_, content) = write(&request);
    assert_eq!(content, b"// here\nfirst\n".to_vec());
    let request = run.advance(Response::Done);
    assert_eq!(read(&request), "a.txt");
    let request =
        run.advance(Response::File(FileState::Text(String::from_utf8(content).unwrap())));
    assert_eq!(write(&request).1, b"// here\nsecond\nfirst\n".to_vec());
}

#[test]
fn a_missing_patch_target_is_file_not_found() {
    let mut plan = empty_plan();
    plan.project_root = "root".to_string();
    plan.patches = vec![replace("a.txt", "one", "two")];
    let (mut run, _) = Materializer::new(plan);
    let error = abort(&run.advance(Response::File(FileState::Missing)));
    assert_eq!(error.kind, ErrorKind::FileNotFound);
    assert_eq!(error.path, "root/a.txt");
    assert_eq!(error.message(), "file not found (patch 0): root/a.txt");
}

#[test]
fn an_unreadable_file_is_an_io_error() {
    let mut plan = empty_plan();
    plan.patches = vec![replace("a.txt", "one", "two")];
    plan.registrations =
        vec![Registration { registry_path: "mod.rs".to_string(), entry: "a".to_string() }];
    let (mut run, _) = Materializer::new(plan.clone());
    let error = abort(&run.advance(Response::File(FileState::Unreadable)));
    assert_eq!(error.kind, ErrorKind::IoError);
    assert_eq!(error.stage, Stage::Patch);

    plan.patches = Vec::new();
    let (mut run, request) = Materializer::new(plan);
    assert_eq!(read(&request), "mod.rs");
    let error = abort(&run.advance(Response::File(FileState::Unreadable)));
    assert_eq!(error.kind, ErrorKind::IoError);
    assert_eq!(error.stage, Stage::Registration);
    assert_eq!(error.message(), "read or write failed (registration 0): mod.rs");
}

#[test]
fn an_answer_of_the_wrong_kind_counts_as_a_failure() {
    let mut plan = empty_plan();
    plan.patches = vec![replace("a.txt", "one", "two")];
    let (mut run, _) = Materializer::new(plan);
    let error = abort(&run.advance(Response::Done));
    assert_eq!(error.kind, ErrorKind::IoError);
    assert_eq!(error.index, 0);
}

#[test]
fn a_directory_that_cannot_be_created_ends_the_run() {
    let mut plan = empty_plan();
    plan.migrations = vec![MigrationRequest {
        root: "migrations".to_string(),
        name: "plugin_auth".to_string(),
        up_content: String::new(),
        down_content: String::new(),
    }];
    let (mut run, _) = Materializer::new(plan.clone());
    run.advance(Response::Listing(Vec::new()));
    let error = abort(&run.advance(Response::Failed));
    assert_eq!(error.kind, ErrorKind::DirectoryCreationError);
    assert_eq!(error.stage, Stage::Migration);
    assert_eq!(error.path, "migrations/00000000000000_plugin_auth");
    assert_eq!(
        error.message(),
        "directory not created (migration 0): migrations/00000000000000_plugin_auth"
    );

    let (mut run, _) = Materializer::new(plan);
    let error = abort(&run.advance(Response::Failed));
    assert_eq!(error.kind, ErrorKind::IoError);
    assert_eq!(error.path, "migrations");
}

#[test]
fn a_strict_plan_refuses_an_unknown_placeholder_before_writing_it() {
    let mut plan = empty_plan();
    plan.names = Some(post());
    plan.strict = true;
    plan.assets = vec![asset("good.rs", "$MODEL_NAME"), asset("bad.rs", "$NOPE")];
    let (mut run, request) = Materializer::new(plan);
    assert_eq!(write(&request), ("good.rs".to_string(), b"Post".to_vec()));
    let error = abort(&run.advance(Response::Done));
    assert_eq!(error.kind, ErrorKind::TemplateError);
    assert_eq!(error.stage, Stage::Asset);
    assert_eq!(error.index, 1);
    assert_eq!(error.message(), "unrecognized placeholder (asset 1): bad.rs");
}

#[test]
fn assets_that_are_no_text_are_written_as_they_are() {
    let raw = vec![0xff, 0x24, 0x4d, 0x00];
    let assets = vec![TemplateAsset { logical_path: "logo.png".to_string(), raw_bytes: raw.clone() }];
    let (_, request) = materialize(post(), assets, Vec::new(), Vec::new());
    assert_eq!(write(&request), ("logo.png".to_string(), raw));
}

#[test]
fn without_names_nothing_is_expanded() {
    let mut plan = empty_plan();
    plan.strict = true;
    plan.assets = vec![asset("a.txt", "$MODEL_NAME and $NOPE")];
    let (_, request) = Materializer::new(plan);
    assert_eq!(write(&request), ("a.txt".to_string(), b"$MODEL_NAME and $NOPE".to_vec()));
}

#[test]
fn materialize_starts_in_the_current_directory() {
    let (run, _) = materialize(post(), vec![asset("a", "b")], Vec::new(), Vec::new());
    assert_eq!(run.plan.project_root, "");
    assert!(!run.plan.strict);
    assert!(run.plan.migrations.is_empty());
    assert_eq!(run.plan.names.as_ref().unwrap().pascal_case, "Post");
}

#[test]
fn messages_name_kind_task_and_path() {
    let error = MaterializeError {
        kind: ErrorKind::AssetNotFound,
        stage: Stage::Asset,
        index: 12,
        path: "src/lib.rs".to_string(),
    };
    assert_eq!(error.message(), "asset not found (asset 12): src/lib.rs");
    assert_eq!(error.duplicate().message(), error.message());
}

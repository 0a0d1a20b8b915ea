use create_rust_app::content::model::MODEL_TEMPLATE;
use create_rust_app::creation::{
    dependency, CreateRequest, CreateResponse, CreateStep, Ending, DEPENDENCY_COUNT,
};
use create_rust_app::files::FileState;
use create_rust_app::manifest::{ManifestError, Requirement};
use create_rust_app::materializer::{Materializer, Request, Response};
use create_rust_app::patcher::{apply, PatchMode};
use create_rust_app::project::{create, create_resource, register_service};
use create_rust_app::store::TemplateAsset;

const MANIFEST: &str = "[package]\nname = \"demo\"\n\n[dependencies]\n";

fn assets() -> Vec<TemplateAsset> {
    vec![
        TemplateAsset { logical_path: "src/main.rs".to_string(), raw_bytes: b"fn main() {}".to_vec() },
        TemplateAsset { logical_path: "logo.png".to_string(), raw_bytes: vec![0xff, 0x00] },
    ]
}

fn run(request: &CreateRequest) -> (String, Vec<String>, String, bool) {
    match request {
        CreateRequest::Run { program, arguments, directory, quiet } => {
            (program.clone(), arguments.clone(), directory.clone(), *quiet)
        }
        other => panic!("expected a command, got {:?}", other),
    }
}

#[test]
fn a_blank_target_names_no_resource() {
    assert!(create_resource("", "// service").is_none());
    assert!(create_resource("  \t ", "// service").is_none());
}

#[test]
fn a_resource_gets_a_model_a_service_and_their_registrations() {
    let plan = create_resource("  blog-post and more ", "// service of $MODEL_NAME").unwrap();
    assert_eq!(plan.project_root, "");
    assert!(!plan.strict);
    let names = plan.names.as_ref().unwrap();
    assert_eq!(names.raw, "blog-post");
    assert_eq!(names.pascal_case, "BlogPost");
    assert_eq!(names.snake_case, "blog_post");
    assert_eq!(names.table_case, "blog_posts");
    assert_eq!(plan.assets.len(), 2);
    assert_eq!(plan.assets[0].logical_path, "src/models/blog_post.rs");
    assert_eq!(plan.assets[0].raw_bytes, MODEL_TEMPLATE.as_bytes().to_vec());
    assert_eq!(plan.assets[1].logical_path, "src/services/blog_post.rs");
    assert_eq!(plan.assets[1].raw_bytes, b"// service of $MODEL_NAME".to_vec());
    assert_eq!(plan.patches.len(), 1);
    assert_eq!(plan.patches[0].target_file, "src/main.rs");
    assert_eq!(plan.registrations.len(), 2);
    assert_eq!(plan.registrations[0].registry_path, "src/models/mod.rs");
    assert_eq!(plan.registrations[0].entry, "blog_post");
    assert_eq!(plan.registrations[1].registry_path, "src/services/mod.rs");
    assert_eq!(plan.registrations[1].entry, "blog_post");
    assert!(plan.migrations.is_empty());
}

#[test]
fn the_plan_of_a_resource_runs_through() {
    let plan = create_resource("post", "// service of $MODEL_NAME").unwrap();
    let (mut run, request) = Materializer::new(plan);
    match &request {
        Request::Write { path, content } => {
            assert_eq!(path, "src/models/post.rs");
            let expected =
                MODEL_TEMPLATE.replace("$MODEL_NAME", "Post").replace("$TABLE_NAME", "posts");
            assert_eq!(content, &expected.into_bytes());
        }
        other => panic!("expected a write, got {:?}", other),
    }
    match run.advance(Response::Done) {
        Request::Write { path, content } => {
            assert_eq!(path, "src/services/post.rs");
            assert_eq!(content, b"// service of Post".to_vec());
        }
        other => panic!("expected a write, got {:?}", other),
    }
    assert!(matches!(run.advance(Response::Done), Request::Read { .. }));
    let main = "App::new().service(web::scope(\"/api\"))".to_string();
    match run.advance(Response::File(FileState::Text(main))) {
        Request::Write { path, content } => {
            assert_eq!(path, "src/main.rs");
            assert_eq!(
                String::from_utf8(content).unwrap(),
                "App::new().service(web::scope(\"/api\")\n                    .service(services::{}::endpoints(web::scope(\"/{}\"))))"
            );
        }
        other => panic!("expected a write, got {:?}", other),
    }
}

#[test]
fn a_service_is_registered_behind_the_api_scope() {
    let patch = register_service("post");
    assert_eq!(patch.target_file, "src/main.rs");
    assert_eq!(patch.anchor, "web::scope(\"/api\")");
    assert_eq!(patch.mode, PatchMode::ReplaceKeepingAnchor);
    assert_eq!(
        patch.insertion,
        "web::scope(\"/api\")\n                    .service(services::{}::endpoints(web::scope(\"/{}\")))"
    );
    assert_eq!(
        apply("web::scope(\"/api\");", &patch),
        Ok("web::scope(\"/api\")\n                    .service(services::{}::endpoints(web::scope(\"/{}\")));".to_string())
    );
    assert_eq!(register_service("user").insertion, patch.insertion);
}

#[test]
fn a_new_project_has_twenty_dependencies() {
    assert_eq!(DEPENDENCY_COUNT, 20);
    assert!(dependency(20).is_none());
    let names: Vec<String> = (0..20).map(|index| dependency(index).unwrap().name).collect();
    assert_eq!(
        names,
        vec![
            "actix-files",
            "actix-http",
            "actix-web",
            "actix-web-httpauth",
            "anyhow",
            "chrono",
            "derive_more",
            "diesel",
            "dotenv",
            "env_logger",
            "futures-util",
            "jsonwebtoken",
            "lettre",
            "lettre_email",
            "sentry",
            "serde",
            "serde_derive",
            "serde_json",
            "tsync",
            "uuid",
        ]
    );
    match dependency(0).unwrap().requirement {
        Requirement::Version(version) => assert_eq!(version, "0.5.0"),
        other => panic!("expected a version, got {:?}", other),
    }
    match dependency(7).unwrap().requirement {
        Requirement::Detailed(keys) => assert_eq!(
            keys,
            "version = \"1.4.5\"\nfeatures = [\"postgres\", \"uuid\", \"r2d2\", \"chrono\", \"32-column-tables\"]\ndefault-features = false"
        ),
        other => panic!("expected keys, got {:?}", other),
    }
    match dependency(19).unwrap().requirement {
        Requirement::Detailed(keys) => {
            assert_eq!(keys, "version = \"0.8.1\"\nfeatures = [\"serde\", \"v4\"]")
        }
        other => panic!("expected keys, got {:?}", other),
    }
}

#[test]
fn a_fresh_target_is_made_filled_and_committed() {
    let (mut creation, request) = create("my-app", assets());
    assert!(matches!(&request, CreateRequest::Probe { path } if path == "my-app"));
    assert_eq!(creation.step, CreateStep::ProbeTarget);

    let request = creation.advance(CreateResponse::No);
    assert!(matches!(&request, CreateRequest::CreateDirectory { path } if path == "my-app"));

    let request = creation.advance(CreateResponse::Done);
    assert_eq!(
        run(&request),
        ("cargo".to_string(), vec!["init".to_string()], "my-app".to_string(), false)
    );

    let mut request = creation.advance(CreateResponse::Done);
    let mut manifest = MANIFEST.to_string();
    for index in 0..20 {
        assert_eq!(creation.step, CreateStep::ReadManifest(index));
        assert!(matches!(&request, CreateRequest::Read { path } if path == "my-app/Cargo.toml"));
        request = creation.advance(CreateResponse::File(FileState::Text(manifest.clone())));
        assert_eq!(creation.step, CreateStep::WriteManifest(index));
        match &request {
            CreateRequest::Write { path, content } => {
                assert_eq!(path, "my-app/Cargo.toml");
                manifest = String::from_utf8(content.clone()).unwrap();
            }
            other => panic!("expected a write, got {:?}", other),
        }
        request = creation.advance(CreateResponse::Done);
    }
    let document = manifest.parse::<toml::Value>().unwrap();
    let dependencies = document["dependencies"].as_table().unwrap();
    assert_eq!(dependencies.len(), 20);
    assert_eq!(dependencies["actix-web"].as_str(), Some("3.3.2"));
    assert_eq!(dependencies["diesel"]["default-features"].as_bool(), Some(false));
    assert_eq!(dependencies["serde"]["features"][0].as_str(), Some("derive"));

    assert_eq!(creation.step, CreateStep::WriteAsset(0));
    match &request {
        CreateRequest::Write { path, content } => {
            assert_eq!(path, "my-app/src/main.rs");
            assert_eq!(content, &b"fn main() {}".to_vec());
        }
        other => panic!("expected a write, got {:?}", other),
    }
    let request = creation.advance(CreateResponse::Done);
    match &request {
        CreateRequest::Write { path, content } => {
            assert_eq!(path, "my-app/logo.png");
            assert_eq!(content, &vec![0xff, 0x00]);
        }
        other => panic!("expected a write, got {:?}", other),
    }
    let request = creation.advance(CreateResponse::Done);
    assert_eq!(
        run(&request),
        ("git".to_string(), vec!["init".to_string()], "my-app".to_string(), true)
    );
    let request = creation.advance(CreateResponse::Done);
    assert_eq!(run(&request).1, vec!["add", "-A"]);
    let request = creation.advance(CreateResponse::Done);
    assert_eq!(run(&request).1, vec!["commit", "-m", "Initial commit"]);
    let request = creation.advance(CreateResponse::Done);
    assert_eq!(run(&request).1, vec!["branch", "-M", "main"]);
    assert!(run(&request).3);
    let request = creation.advance(CreateResponse::Done);
    assert!(matches!(request, CreateRequest::Finish(Ending::Created)));
    assert_eq!(creation.step, CreateStep::Finished);
    assert_eq!(creation.ending, Some(Ending::Created));
    assert!(matches!(
        creation.advance(CreateResponse::Failed),
        CreateRequest::Finish(Ending::Created)
    ));
}

#[test]
fn an_existing_target_is_removed_only_with_consent() {
    let (mut creation, _) = create("my-app", Vec::new());
    let request = creation.advance(CreateResponse::Yes);
    assert!(matches!(&request, CreateRequest::Resolve { path } if path == "my-app"));
    let request = creation.advance(CreateResponse::Path("/home/me/my-app".to_string()));
    assert!(
        matches!(&request, CreateRequest::Confirm { prompt } if prompt == "Delete directory contents?")
    );
    assert_eq!(creation.target, "/home/me/my-app");
    let request = creation.advance(CreateResponse::No);
    assert!(matches!(request, CreateRequest::Finish(Ending::Declined)));
    assert_eq!(creation.ending, Some(Ending::Declined));

    let (mut creation, _) = create("my-app", Vec::new());
    creation.advance(CreateResponse::Yes);
    creation.advance(CreateResponse::Path("/home/me/my-app".to_string()));
    let request = creation.advance(CreateResponse::Yes);
    assert!(
        matches!(&request, CreateRequest::RemoveDirectory { path } if path == "/home/me/my-app")
    );
    let request = creation.advance(CreateResponse::Done);
    assert!(
        matches!(&request, CreateRequest::CreateDirectory { path } if path == "/home/me/my-app")
    );
    let request = creation.advance(CreateResponse::Done);
    assert_eq!(run(&request).2, "/home/me/my-app");
}

#[test]
fn a_step_that_fails_ends_the_creation() {
    let (mut creation, _) = create("my-app", assets());
    creation.advance(CreateResponse::No);
    creation.advance(CreateResponse::Done);
    let request = creation.advance(CreateResponse::Failed);
    assert!(matches!(request, CreateRequest::Finish(Ending::Failed(CreateStep::CargoInit))));
    assert_eq!(creation.step, CreateStep::Finished);

    let (mut creation, _) = create("my-app", assets());
    let request = creation.advance(CreateResponse::Failed);
    assert!(matches!(request, CreateRequest::Finish(Ending::Failed(CreateStep::ProbeTarget))));

    let (mut creation, _) = create("my-app", assets());
    creation.advance(CreateResponse::No);
    let request = creation.advance(CreateResponse::Failed);
    assert!(matches!(request, CreateRequest::Finish(Ending::Failed(CreateStep::MakeTarget))));
}

#[test]
fn a_manifest_that_cannot_be_changed_ends_the_creation() {
    let (mut creation, _) = create("my-app", assets());
    creation.advance(CreateResponse::No);
    creation.advance(CreateResponse::Done);
    creation.advance(CreateResponse::Done);
    let request =
        creation.advance(CreateResponse::File(FileState::Text("[package]\n".to_string())));
    assert!(matches!(
        request,
        CreateRequest::Finish(Ending::Manifest(0, ManifestError::NoDependencies))
    ));

    let (mut creation, _) = create("my-app", assets());
    creation.advance(CreateResponse::No);
    creation.advance(CreateResponse::Done);
    creation.advance(CreateResponse::Done);
    let request = creation.advance(CreateResponse::File(FileState::Missing));
    assert!(matches!(
        request,
        CreateRequest::Finish(Ending::Failed(CreateStep::ReadManifest(0)))
    ));
}

#[test]
fn without_assets_the_commit_follows_the_dependencies() {
    let (mut creation, _) = create("my-app", Vec::new());
    creation.advance(CreateResponse::No);
    creation.advance(CreateResponse::Done);
    let mut request = creation.advance(CreateResponse::Done);
    let mut manifest = MANIFEST.to_string();
    for _ in 0..20 {
        request = creation.advance(CreateResponse::File(FileState::Text(manifest.clone())));
        if let CreateRequest::Write { content, .. } = &request {
            manifest = String::from_utf8(content.clone()).unwrap();
        }
        request = creation.advance(CreateResponse::Done);
    }
    assert_eq!(creation.step, CreateStep::GitInit);
    assert_eq!(run(&request).0, "git");
}

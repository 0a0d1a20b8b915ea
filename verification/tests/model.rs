use create_rust_app::content::model::{config, create, generate, MODELS_DIRECTORY, MODEL_TEMPLATE};
use create_rust_app::files::{FileState, IoError};
use create_rust_app::project::add_rust_file;

#[test]
fn config_names_model_file_and_table() {
    let names = config("blog post");
    assert_eq!(names.model_name, "BlogPost");
    assert_eq!(names.file_name, "blog_post");
    assert_eq!(names.table_name, "blog_posts");
}

#[test]
fn generate_fills_the_template() {
    let model = generate("blog post");
    assert_eq!(model.config.model_name, "BlogPost");
    assert_eq!(
        model.file_contents,
        MODEL_TEMPLATE.replace("$MODEL_NAME", "BlogPost").replace("$TABLE_NAME", "blog_posts")
    );
    assert!(model.file_contents.starts_with("use crate::schema::*;\nuse crate::diesel::*;\n\n"));
    assert!(model.file_contents.contains("#[diesel(table_name=blog_posts)]\npub struct BlogPost {\n"));
    assert!(model.file_contents.contains("pub struct BlogPostChangeset {\n"));
    assert!(model
        .file_contents
        .contains("  pub fn create(db: &DB, item: &BlogPostChangeset) -> QueryResult<Self> {\n"));
    assert!(model.file_contents.contains("      blog_posts.filter(id.eq(item_id)).first::<BlogPost>(db)\n"));
    assert!(model.file_contents.ends_with("execute(db)\n  }\n}\n"));
    assert!(!model.file_contents.contains('$'));
}

#[test]
fn the_template_is_the_text_of_the_model_file() {
    assert_eq!(MODEL_TEMPLATE.len(), 2196);
    assert_eq!(MODEL_TEMPLATE.lines().count(), 70);
    assert_eq!(MODEL_TEMPLATE.matches("$MODEL_NAME").count(), 8);
    assert_eq!(MODEL_TEMPLATE.matches("$TABLE_NAME").count(), 12);
    assert_eq!(MODEL_TEMPLATE.lines().nth(34), Some("      "));
    assert_eq!(MODEL_TEMPLATE.lines().nth(39), Some("  "));
}

#[test]
fn create_writes_the_registry_and_then_the_model() {
    let created = create("post", &FileState::Text("pub mod user;".to_string())).unwrap();
    assert_eq!(created.resource.config.file_name, "post");
    assert_eq!(created.writes.len(), 2);
    assert_eq!(created.writes[0].path, "backend/models/mod.rs");
    assert_eq!(created.writes[0].content, "pub mod user;\npub mod post;\n");
    assert_eq!(created.writes[1].path, "backend/models/post.rs");
    assert_eq!(created.writes[1].content, created.resource.file_contents);
    assert_eq!(MODELS_DIRECTORY, "backend/models");
}

#[test]
fn create_starts_a_registry_where_there_is_none() {
    let created = create("post", &FileState::Missing).unwrap();
    assert_eq!(created.writes[0].content, "pub mod post;\n");
}

#[test]
fn create_fails_on_an_unreadable_registry() {
    assert_eq!(create("post", &FileState::Unreadable).unwrap_err(), IoError);
}

#[test]
fn add_rust_file_declares_and_writes() {
    let writes = add_rust_file("src/services", "post", "// service", &FileState::Missing).unwrap();
    assert_eq!(writes.len(), 2);
    assert_eq!(writes[0].path, "src/services/mod.rs");
    assert_eq!(writes[0].content, "pub mod post;\n");
    assert_eq!(writes[1].path, "src/services/post.rs");
    assert_eq!(writes[1].content, "// service");
    assert_eq!(
        add_rust_file("src/services", "post", "", &FileState::Unreadable).unwrap_err(),
        IoError
    );
}

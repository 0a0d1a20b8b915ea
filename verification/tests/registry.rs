use create_rust_app::files::{join_path, FileState, IoError};
use create_rust_app::registry::register_module;

#[test]
fn registering_twice_leaves_two_lines() {
    let first = register_module(&FileState::Missing, "foo").unwrap();
    assert_eq!(first, "pub mod foo;\n");
    let second = register_module(&FileState::Text(first), "foo").unwrap();
    assert_eq!(second, "pub mod foo;\npub mod foo;\n");
}

#[test]
fn entries_stay_in_call_order() {
    let mut text = register_module(&FileState::Text(String::new()), "a").unwrap();
    text = register_module(&FileState::Text(text), "b").unwrap();
    text = register_module(&FileState::Text(text), "c").unwrap();
    assert_eq!(text, "pub mod a;\npub mod b;\npub mod c;\n");
}

#[test]
fn a_missing_line_break_is_added_first() {
    assert_eq!(
        register_module(&FileState::Text("pub mod a;".to_string()), "b"),
        Ok("pub mod a;\npub mod b;\n".to_string())
    );
    assert_eq!(
        register_module(&FileState::Text("pub mod a;\n".to_string()), "b"),
        Ok("pub mod a;\npub mod b;\n".to_string())
    );
    assert_eq!(
        register_module(&FileState::Text("// models\n\n".to_string()), "b"),
        Ok("// models\n\npub mod b;\n".to_string())
    );
}

#[test]
fn an_unreadable_registry_is_an_error() {
    assert_eq!(register_module(&FileState::Unreadable, "foo"), Err(IoError));
}

#[test]
fn paths_are_joined_by_one_slash() {
    assert_eq!(join_path("project", "src/main.rs"), "project/src/main.rs");
    assert_eq!(join_path("project/", "src/main.rs"), "project/src/main.rs");
    assert_eq!(join_path("", "src/main.rs"), "src/main.rs");
    assert_eq!(join_path("project", "/etc/hosts"), "/etc/hosts");
    assert_eq!(join_path("project", ""), "project/");
    assert_eq!(join_path("/", "a"), "/a");
    assert_eq!(join_path("", ""), "");
}

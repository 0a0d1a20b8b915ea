use create_rust_app::naming::{char_is_whitespace, first_token, ResourceNameSet};

#[test]
fn the_cased_forms_are_not_the_raw_name() {
    let names = ResourceNameSet::derive("blog post");
    assert_eq!(names.raw, "blog post");
    assert_eq!(names.pascal_case, "BlogPost");
    assert_eq!(names.snake_case, "blog_post");
    assert_eq!(names.table_case, "blog_posts");
    assert_eq!(ResourceNameSet::derive("Category").table_case, "categories");
}

#[test]
fn derive_builds_all_forms_from_the_raw_name() {
    let names = ResourceNameSet::derive("user_account");
    assert_eq!(names.raw, "user_account");
    assert_eq!(names.pascal_case, "UserAccount");
    assert_eq!(names.snake_case, "user_account");
    assert_eq!(names.table_case, "user_accounts");
}

#[test]
fn derived_forms_depend_on_the_pascal_case_alone() {
    let one = ResourceNameSet::derive("blog post");
    let other = ResourceNameSet::derive("BlogPost");
    assert_eq!(one.pascal_case, other.pascal_case);
    assert_eq!(one.snake_case, other.snake_case);
    assert_eq!(one.table_case, other.table_case);
}

#[test]
fn first_token_is_what_split_whitespace_yields_first() {
    let inputs = [
        "post",
        "  post  ",
        "post comment",
        "\t\npost\u{a0}rest",
        "",
        "   ",
        "\u{3000}\u{2003}",
        "x",
        " x",
        "x ",
        "blog-post and more",
    ];
    for input in inputs {
        assert_eq!(
            first_token(input),
            input.split_whitespace().next().map(|word| word.to_string())
        );
    }
}

#[test]
fn first_token_of_blank_input_is_none() {
    assert_eq!(first_token(""), None);
    assert_eq!(first_token(" \t\r\n"), None);
    assert_eq!(first_token("  users  table"), Some("users".to_string()));
}

#[test]
fn whitespace_is_the_unicode_property() {
    let mut code: u32 = 0;
    while code <= 0x10ffff {
        if let Some(c) = char::from_u32(code) {
            assert_eq!(char_is_whitespace(c), c.is_whitespace());
        }
        code += 1;
    }
}

use create_rust_app::expander::{
    apply_substitutions, expand, expand_strict, substitution_table, Substitution, TemplateError,
};
use create_rust_app::naming::ResourceNameSet;

fn post() -> ResourceNameSet {
    ResourceNameSet {
        raw: "post".to_string(),
        pascal_case: "Post".to_string(),
        snake_case: "post".to_string(),
        table_case: "posts".to_string(),
    }
}

#[test]
fn expansion_is_repeatable() {
    let template = "struct $MODEL_NAME; // table $TABLE_NAME";
    let names = post();
    assert_eq!(expand(template, &names), expand(template, &names));
    assert_eq!(expand(template, &names), "struct Post; // table posts");
}

#[test]
fn a_token_with_text_behind_it_keeps_the_text() {
    let template = "pub struct $MODEL_NAME {}\npub struct $MODEL_NAMEChangeset {}\n";
    assert_eq!(
        expand(template, &post()),
        "pub struct Post {}\npub struct PostChangeset {}\n"
    );
}

#[test]
fn every_occurrence_is_replaced() {
    let template = "$TABLE_NAME.filter($TABLE_NAME::id).load::<$MODEL_NAME>()";
    assert_eq!(expand(template, &post()), "posts.filter(posts::id).load::<Post>()");
}

#[test]
fn other_text_passes_through() {
    assert_eq!(expand("cost: $5, $UNKNOWN, $model_name", &post()), "cost: $5, $UNKNOWN, $model_name");
    assert_eq!(expand("", &post()), "");
}

#[test]
fn the_model_name_is_expanded_before_the_table_name() {
    let names = ResourceNameSet {
        raw: String::new(),
        pascal_case: "$TABLE_NAME".to_string(),
        snake_case: String::new(),
        table_case: "$MODEL_NAME".to_string(),
    };
    assert_eq!(expand("$MODEL_NAME", &names), "$MODEL_NAME");
    assert_eq!(expand("$TABLE_NAME", &names), "$MODEL_NAME");
}

#[test]
fn the_table_has_two_rows_in_order() {
    let table = substitution_table(&post());
    assert_eq!(table.len(), 2);
    assert_eq!(table[0].token, "$MODEL_NAME");
    assert_eq!(table[0].replacement, "Post");
    assert_eq!(table[1].token, "$TABLE_NAME");
    assert_eq!(table[1].replacement, "posts");
}

#[test]
fn rows_apply_first_to_last() {
    let table = vec![
        Substitution { token: "a".to_string(), replacement: "b".to_string() },
        Substitution { token: "b".to_string(), replacement: "c".to_string() },
    ];
    assert_eq!(apply_substitutions("aabb", &table), "cccc");
    assert_eq!(apply_substitutions("aabb", &Vec::new()), "aabb");
}

#[test]
fn strict_expansion_refuses_unknown_placeholders() {
    assert_eq!(
        expand_strict("a $MODEL_NAME b $FILE_NAME c $OTHER", &post()),
        Err(TemplateError { offset: 16 })
    );
    assert_eq!(expand_strict("$X", &post()), Err(TemplateError { offset: 0 }));
    assert_eq!(expand_strict("é$MODEL_NAM", &post()), Err(TemplateError { offset: 1 }));
}

#[test]
fn strict_expansion_accepts_known_tokens_and_plain_dollars() {
    assert_eq!(
        expand_strict("$MODEL_NAMEChangeset in $TABLE_NAME for $5 or $ or $x$", &post()),
        Ok("PostChangeset in posts for $5 or $ or $x$".to_string())
    );
    assert_eq!(expand_strict("", &post()), Ok(String::new()));
}

use gitpop::models::{
    list_not_started, models_from_run, parse_model_list, OllamaModel, OllamaTagsResponse,
};

#[test]
fn names_are_the_first_column_below_the_header() {
    let out = "NAME              ID              SIZE      MODIFIED\nllama3:latest     365c0bd3c000    4.7 GB    2 weeks ago\nqwen2.5-coder:7b  2b0496514337    4.7 GB    3 days ago\n";
    assert_eq!(parse_model_list(out), vec!["llama3:latest", "qwen2.5-coder:7b"]);
}

#[test]
fn header_alone_means_no_models() {
    assert_eq!(parse_model_list("NAME ID SIZE MODIFIED\n"), Vec::<String>::new());
    assert_eq!(parse_model_list("NAME"), Vec::<String>::new());
    assert_eq!(parse_model_list(""), Vec::<String>::new());
}

#[test]
fn blank_lines_hold_no_model() {
    assert_eq!(parse_model_list("NAME\n\n   \n\t\nm1 x\n \u{a0} \nm2\n"), vec!["m1", "m2"]);
}

#[test]
fn leading_white_space_is_passed_over() {
    assert_eq!(parse_model_list("NAME\n  \t m1\ty\r\nm2\u{3000}z"), vec!["m1", "m2"]);
}

#[test]
fn the_first_line_is_always_the_header() {
    assert_eq!(parse_model_list("m0 a\nm1 b"), vec!["m1"]);
    assert_eq!(parse_model_list("\nm1 b"), vec!["m1"]);
}

#[test]
fn tag_types_hold_names() {
    let tags = OllamaTagsResponse {
        models: vec![OllamaModel { name: "a".to_string() }, OllamaModel { name: "b".to_string() }],
    };
    assert_eq!(tags.models.len(), 2);
    assert_eq!(tags.models[1], OllamaModel { name: "b".to_string() });
}

#[test]
fn failed_list_run_gives_a_message() {
    assert_eq!(
        models_from_run(false, "NAME\nm1\n", "could not connect\n"),
        Err("'ollama list' failed: could not connect\n".to_string())
    );
}

#[test]
fn successful_list_run_gives_names() {
    assert_eq!(models_from_run(true, "NAME\nm1 id\n", "warning"), Ok(vec!["m1".to_string()]));
}

#[test]
fn a_list_that_did_not_start_gives_a_message() {
    assert_eq!(
        list_not_started("No such file or directory (os error 2)"),
        "Failed to execute 'ollama list': No such file or directory (os error 2)"
    );
    assert_eq!(list_not_started(""), "Failed to execute 'ollama list': ");
}

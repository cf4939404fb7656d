use annihilate::store::{
    checkpoint_fallback_name, env_file_with_token, model_in_checkpoint_line, model_name_from_checkpoint,
    recent_models,
    recent_models_after_use, RECENT_KEPT,
};

#[test]
fn recent_models_skips_blank_lines() {
    assert_eq!(recent_models("a/b\n\nc/d\r\n"), vec!["a/b".to_string(), "c/d".to_string()]);
    assert!(recent_models("").is_empty());
    assert!(recent_models("\n\n").is_empty());
}

#[test]
fn used_model_moves_to_the_front_without_repeats() {
    assert_eq!(recent_models_after_use("", "m1"), "m1");
    assert_eq!(recent_models_after_use("a\nb\nc", "b"), "b\na\nc");
    assert_eq!(recent_models_after_use("a\nb", "z"), "z\na\nb");
    assert_eq!(recent_models_after_use("a\na\nb", "a"), "a\nb");
}

#[test]
fn recent_models_keep_the_five_latest() {
    assert_eq!(RECENT_KEPT, 5);
    let after = recent_models_after_use("a\nb\nc\nd\ne\nf", "new");
    assert_eq!(after, "new\na\nb\nc\nd");
    let listed = recent_models(&after);
    assert_eq!(listed[0], "new");
    assert_eq!(listed.len(), 5);
}

#[test]
fn env_file_replaces_only_the_token_entry() {
    assert_eq!(env_file_with_token("", Some("hf_x")), "HF_TOKEN=hf_x\n");
    assert_eq!(
        env_file_with_token("A=1\nHF_TOKEN=old\nB=2\n", Some("hf_new")),
        "A=1\nB=2\nHF_TOKEN=hf_new\n"
    );
    assert_eq!(env_file_with_token("A=1\n HF_TOKEN =old\n", None), "A=1\n");
    assert_eq!(env_file_with_token("HF_TOKEN=old\n", None), "");
    assert_eq!(env_file_with_token("A=1\n\n\n", None), "A=1\n");
    assert_eq!(env_file_with_token("HF_TOKENS=keep\n", None), "HF_TOKENS=keep\n");
}

#[test]
fn checkpoint_line_names_the_model_in_its_settings() {
    let line = r#"{"op_code": 2, "user_attr": {"settings": "{\"model\": \"meta-llama/Llama-3.1-8B\", \"n_trials\": 200}"}}"#;
    assert_eq!(model_in_checkpoint_line(line), Some("meta-llama/Llama-3.1-8B".to_string()));
    let empty = r#"{"user_attr": {"settings": "{\"model\": \"\"}"}}"#;
    assert_eq!(model_in_checkpoint_line(empty), None);
    assert_eq!(model_in_checkpoint_line(r#"{"op_code": 4, "trial_id": 3}"#), None);
    assert_eq!(model_in_checkpoint_line("not json"), None);
    let not_text = r#"{"user_attr": {"settings": {"model": "x"}}}"#;
    assert_eq!(model_in_checkpoint_line(not_text), None);
}

#[test]
fn checkpoint_fallback_turns_double_dashes_into_slashes() {
    assert_eq!(checkpoint_fallback_name("meta-llama--Llama-3--1-8B"), "meta-llama/Llama-3/1-8B");
    assert_eq!(checkpoint_fallback_name("a---b"), "a/-b");
    assert_eq!(checkpoint_fallback_name(""), "");
}

#[test]
fn saved_env_reads_back_other_entries_then_the_token() {
    let out = env_file_with_token("A=1\r\nB=2\n\nHF_TOKEN=x\nC=3", Some("y"));
    let lines: Vec<&str> = out.lines().collect();
    assert_eq!(lines, vec!["A=1", "B=2", "", "C=3", "HF_TOKEN=y"]);
    let cleared = env_file_with_token("A=1\nHF_TOKEN=x\n\n", None);
    let lines: Vec<&str> = cleared.lines().collect();
    assert_eq!(lines, vec!["A=1"]);
}

#[test]
fn journal_model_is_the_first_named_one_else_the_stem() {
    let lines = vec![
        r#"{"op_code": 0}"#.to_string(),
        r#"{"user_attr": {"settings": "{\"model\": \"org/first\"}"}}"#.to_string(),
        r#"{"user_attr": {"settings": "{\"model\": \"org/second\"}"}}"#.to_string(),
    ];
    assert_eq!(model_name_from_checkpoint(&lines, Some("org--x")), "org/first");
    assert_eq!(model_name_from_checkpoint(&lines[..1].to_vec(), Some("org--x")), "org/x");
    assert_eq!(model_name_from_checkpoint(&Vec::new(), None), "");
}

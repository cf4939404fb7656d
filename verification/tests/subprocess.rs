use annihilate::parser::ParsedEvent;
use annihilate::progress::SubprocessMessage;
use annihilate::subprocess::{
    checkpoint_name_with, first_run_note, needs_venv, venv_creation_message, VenvCreation,
    annihilate_command, benchmark_command, chat_server_command, checkpoint_name, choose_venv,
    export_command, get_repo_root, gguf_converter_command, gguf_output_path, hf_upload_command,
    python_command, python_exe, repo_root, sanitize_model_name, setup_command, usize_text,
    venv_create_args, venv_name, venv_python_rel,
};

fn python_checkpoint_name(model: &str) -> String {
    model
        .chars()
        .map(|c| {
            if c.is_alphanumeric() || c == '_' || c == '-' {
                c.to_string()
            } else {
                "--".to_string()
            }
        })
        .collect()
}

#[test]
fn checkpoint_name_matches_python() {
    for model in [
        "openbmb/MiniCPM5-1B",
        "meta-llama/Llama-3.1-8B",
        "mlx-community/Qwen3.6-27B-4bit",
        "microsoft/Phi-3.5-mini-instruct",
        "C:\\models\\local_model",
        "plain",
    ] {
        assert_eq!(
            checkpoint_name(model),
            python_checkpoint_name(model),
            "checkpoint name diverged from the Python side for {model:?}"
        );
    }
}

#[test]
fn venv_python_rel_layout_matches_python() {
    assert_eq!(
        venv_python_rel("annihilation-env", true),
        vec!["annihilation-env".to_string(), "Scripts".to_string(), "python.exe".to_string()]
    );
    assert_eq!(
        venv_python_rel("annihilation-env", false),
        vec!["annihilation-env".to_string(), "bin".to_string(), "python".to_string()]
    );
}

#[test]
fn checkpoint_name_mangles_dots() {
    assert_eq!(
        checkpoint_name("meta-llama/Llama-3.1-8B"),
        "meta-llama--Llama-3--1-8B"
    );
}

#[test]
fn sanitize_model_name_keeps_dots_but_drops_illegal_chars() {
    assert_eq!(
        sanitize_model_name("meta-llama/Llama-3.1-8B"),
        "meta-llama--Llama-3.1-8B"
    );
    assert_eq!(sanitize_model_name("C:\\models\\foo"), "C---models--foo");
    assert!(!sanitize_model_name("C:\\models\\foo").contains(':'));
}

#[test]
fn sanitize_model_name_never_returns_empty() {
    assert_eq!(sanitize_model_name(""), "model");
    assert_eq!(sanitize_model_name("..."), "model");
}

#[test]
fn checkpoint_name_keeps_unicode_letters_and_is_never_shorter() {
    assert_eq!(checkpoint_name("Ünïcode/名前"), "Ünïcode--名前");
    assert_eq!(checkpoint_name(""), "");
    assert_eq!(checkpoint_name("a b"), "a--b");
}

#[test]
fn sanitize_model_name_trims_edge_junk() {
    assert_eq!(sanitize_model_name("./model.v2/"), "--model.v2--");
    assert_eq!(sanitize_model_name(" . name . "), "name");
    assert_eq!(sanitize_model_name("a*b?c"), "a-b-c");
    assert_eq!(sanitize_model_name("tab\there"), "tabhere");
}

#[test]
fn python_command_prefers_python_then_python3() {
    assert_eq!(python_command(true, true, false), Some("python"));
    assert_eq!(python_command(false, true, false), Some("python3"));
    assert_eq!(python_command(false, true, true), None);
    assert_eq!(python_command(true, false, true), Some("python"));
    assert_eq!(python_command(false, false, false), None);
}

#[test]
fn venv_choice_follows_priority_and_falls_back_to_dot_venv() {
    assert_eq!(venv_name(0), ".venv");
    assert_eq!(venv_name(1), "annihilation-env");
    assert_eq!(venv_name(3), "env");
    // `.venv` wins over `annihilation-env` when both exist.
    assert_eq!(choose_venv(&vec![true, true, false, false]), ".venv");
    assert_eq!(choose_venv(&vec![false, true, true, false]), "annihilation-env");
    assert_eq!(choose_venv(&vec![false, false, true, true]), "venv");
    assert_eq!(choose_venv(&vec![false, false, false, true]), "env");
    assert_eq!(choose_venv(&vec![false, false, false, false]), ".venv");
    assert_eq!(
        python_exe(&vec![false, false, false, true], false),
        vec!["env".to_string(), "bin".to_string(), "python".to_string()]
    );
    assert_eq!(
        python_exe(&vec![true, true, false, false], false),
        vec![".venv".to_string(), "bin".to_string(), "python".to_string()]
    );
    assert_eq!(
        python_exe(&vec![false, false, false, false], true),
        vec![".venv".to_string(), "Scripts".to_string(), "python.exe".to_string()]
    );
}

#[test]
fn repo_root_lies_three_levels_above_the_binary() {
    // <repo>/tui/target/release, then tui/target, tui, <repo>, /
    assert_eq!(repo_root(5), Some(3));
    assert_eq!(repo_root(4), Some(3));
    assert_eq!(repo_root(3), None);
    assert_eq!(repo_root(0), None);
    assert_eq!(get_repo_root(6), Some(3));
    assert_eq!(get_repo_root(1), None);
}

#[test]
fn gguf_output_goes_to_exports_with_a_safe_name() {
    assert_eq!(
        gguf_output_path("meta-llama/Llama-3.1-8B", "Q4_K_M"),
        vec!["exports".to_string(), "meta-llama--Llama-3.1-8B-Q4_K_M.gguf".to_string()]
    );
    assert_eq!(
        gguf_output_path("", "f16"),
        vec!["exports".to_string(), "model-f16.gguf".to_string()]
    );
}

fn env_of(pairs: &[(&str, &str)]) -> Vec<(String, String)> {
    pairs.iter().map(|(k, v)| (k.to_string(), v.to_string())).collect()
}

fn strings(items: &[&str]) -> Vec<String> {
    items.iter().map(|s| s.to_string()).collect()
}

#[test]
fn command_lines_carry_the_tool_arguments() {
    let tool = env_of(&[
        ("PYTHONIOENCODING", "utf-8"),
        ("PYTHONUNBUFFERED", "1"),
        ("PYTHONWARNINGS", "ignore"),
    ]);

    let run = annihilate_command("m/x", &strings(&["--quantize"]));
    assert_eq!(run.args, strings(&["-u", "-m", "annihilate", "--model", "m/x", "--quantize"]));
    assert_eq!(run.env.len(), 7);
    assert_eq!(run.env[6], ("ANNIHILATE_AUTO_SELECTS".to_string(), "exit|exit|exit|exit".to_string()));

    let gguf = gguf_converter_command("m/x", "Q8_0", "exports/m--x-Q8_0.gguf", Some(12));
    assert_eq!(
        gguf.args,
        strings(&[
            "-u",
            "scripts/gguf_converter.py",
            "--model-path",
            "m/x",
            "--quant-type",
            "Q8_0",
            "--output",
            "exports/m--x-Q8_0.gguf",
            "--trial",
            "12"
        ])
    );
    assert_eq!(gguf.env, tool);

    let export = export_command("ckpt.jsonl", 7, "out");
    assert_eq!(
        export.args,
        strings(&["-u", "-m", "annihilate.export", "--checkpoint", "ckpt.jsonl", "--trial-id", "7", "--output", "out"])
    );

    let upload = hf_upload_command("m/x", 3, "me/repo", Some("hf_abc"));
    assert_eq!(
        upload.args,
        strings(&["-u", "scripts/upload_to_hf.py", "--model-name", "m/x", "--trial", "3", "--repo", "me/repo"])
    );
    assert_eq!(upload.env.len(), 4);
    assert_eq!(upload.env[3], ("HF_TOKEN".to_string(), "hf_abc".to_string()));
    assert_eq!(hf_upload_command("m/x", 3, "me/repo", Some("")).env, tool);
    assert_eq!(hf_upload_command("m/x", 3, "me/repo", None).env, tool);

    assert_eq!(
        chat_server_command("m/x", None).args,
        strings(&["-u", "scripts/chat_server.py", "m/x"])
    );
    assert_eq!(
        benchmark_command("m/x", Some(0)).args,
        strings(&["-u", "scripts/run_benchmarks.py", "m/x", "--trial", "0"])
    );
}

#[test]
fn setup_command_appends_the_gpu_flag() {
    assert_eq!(setup_command(false, false).args, strings(&["-u", "verify_env.py"]));
    assert_eq!(setup_command(false, true).args, strings(&["-u", "verify_env.py", "--gpu"]));
    let win = setup_command(true, true);
    assert_eq!(win.args.len(), 2);
    assert_eq!(win.args[0], "-Command");
    assert!(win.args[1].ends_with("& $python -u verify_env.py --gpu"));
    assert!(setup_command(true, false).args[1].ends_with("verify_env.py "));
    assert_eq!(
        setup_command(false, false).env,
        env_of(&[("PYTHONIOENCODING", "utf-8"), ("PYTHONUNBUFFERED", "1"), ("FORCE_COLOR", "1")])
    );
    assert_eq!(venv_create_args(), strings(&["-m", "venv", "annihilation-env"]));
}

#[test]
fn usize_text_is_decimal() {
    assert_eq!(usize_text(0), "0");
    assert_eq!(usize_text(1234567), "1234567");
}

#[test]
fn checkpoint_name_with_given_answers() {
    assert_eq!(checkpoint_name_with("a.b", &vec![true, false, true]), "a--b");
    assert_eq!(checkpoint_name_with("x_-y", &vec![true, false, false, true]), "x_-y");
    // A character said not to be alphanumeric is replaced even if it is a letter.
    assert_eq!(checkpoint_name_with("ab", &vec![true, false]), "a--");
    assert_eq!(checkpoint_name_with("", &vec![]), "");
}

#[test]
fn sanitized_names_are_settled() {
    for m in ["meta-llama/Llama-3.1-8B", " ..x.. ", "", "...", "C:\\models\\foo", "a\tb"] {
        let once = sanitize_model_name(m);
        assert_eq!(sanitize_model_name(&once), once);
        assert!(!once.starts_with('.') && !once.starts_with(' '));
        assert!(!once.ends_with('.') && !once.ends_with(' '));
    }
}

#[test]
fn first_run_creates_the_venv_only_without_one() {
    assert!(needs_venv(&vec![false, false, false, false]));
    assert!(!needs_venv(&vec![false, false, true, false]));
    match first_run_note() {
        SubprocessMessage::Event(ParsedEvent::Status(t)) => assert!(t.starts_with("First run detected")),
        other => panic!("unexpected {:?}", other),
    }
    match venv_creation_message(VenvCreation::Created) {
        SubprocessMessage::Event(ParsedEvent::Status(t)) => {
            assert_eq!(t, "Virtual environment created successfully.")
        }
        other => panic!("unexpected {:?}", other),
    }
    match venv_creation_message(VenvCreation::Failed("exit status: 1".to_string())) {
        SubprocessMessage::SpawnError(t) => {
            assert_eq!(t, "Setup error: creating annihilation-env failed with exit status: 1")
        }
        other => panic!("unexpected {:?}", other),
    }
    match venv_creation_message(VenvCreation::NotStarted("not found".to_string())) {
        SubprocessMessage::SpawnError(t) => {
            assert_eq!(t, "Setup error: creating annihilation-env failed: not found")
        }
        other => panic!("unexpected {:?}", other),
    }
}

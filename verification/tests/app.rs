use annihilate::app::{kl_less, setup_wants_gpu, App, ClipboardRead, Effect, KlValue, OutputCheck};
use annihilate::events::{EventHandler, KeyCode, KeyInput, MouseScroll};
use annihilate::menu::{exit_report, ConfirmAction, LogLevel, MenuItem, Screen};
use annihilate::parser::ParsedEvent;
use annihilate::progress::{Readings, SubprocessMessage};

fn key(code: KeyCode) -> KeyInput {
    KeyInput { code, ctrl: false, shift: false }
}

fn press(app: &mut App, code: KeyCode) -> Vec<Effect> {
    assert!(app.room_left());
    let (_, effects) = app.handle_key(key(code));
    effects
}

fn labels(app: &App) -> Vec<String> {
    app.current_menu.iter().map(|m| m.label.clone()).collect()
}

fn kl(x: f64) -> KlValue {
    KlValue { bits: x.to_bits(), shown: format!("{:.4}", x) }
}

fn no_readings() -> Readings {
    Readings { kl: None, batch_size: None, output: None }
}

fn event(app: &mut App, e: ParsedEvent) -> Vec<Effect> {
    app.on_main_message(SubprocessMessage::Event(e), no_readings())
}

fn last_log(app: &App) -> (String, LogLevel) {
    app.log_lines.last().cloned().unwrap()
}

/// A fresh application with a model chosen and the actions for it on screen.
fn with_model(model: &str) -> App {
    let mut app = App::new(String::new(), "NVIDIA RTX 4090".to_string());
    press(&mut app, KeyCode::Down);
    let effects = press(&mut app, KeyCode::Enter);
    assert!(matches!(effects.as_slice(), [Effect::ListCompletedModels]));
    app.on_completed_models(vec![model.to_string()]);
    press(&mut app, KeyCode::Enter);
    assert!(matches!(app.screen, Screen::TrialActions));
    app
}

#[test]
fn new_app_starts_on_the_main_menu() {
    let app = App::new("hf_tökén".to_string(), "Unknown".to_string());
    assert!(matches!(app.screen, Screen::Splash));
    assert_eq!(
        labels(&app),
        vec!["Start Decensoring", "Completed Models", "Configuration", "About", "Quit"]
    );
    assert_eq!(app.current_menu[0].key_hint.as_deref(), Some("Enter"));
    assert_eq!(app.menu_selected, Some(0));
    assert_eq!(app.hf_token_cursor, 8);
    assert_eq!(app.total_trials, 200);
    assert_eq!(app.status_message, "Ready");
    assert_eq!(app.gguf_size, "Q4_K_M");
    assert!(!app.should_quit);
    assert!(app.room_left());
}

#[test]
fn ctrl_c_quits_from_any_screen() {
    let mut app = App::new(String::new(), String::new());
    press(&mut app, KeyCode::Enter);
    press(&mut app, KeyCode::Enter);
    assert!(matches!(app.screen, Screen::ModelInput));
    let (quit, effects) = app.handle_key(KeyInput { code: KeyCode::Char('c'), ctrl: true, shift: false });
    assert!(quit);
    assert!(effects.is_empty());
    // Typed without Ctrl it is just a letter.
    let (quit, _) = app.handle_key(key(KeyCode::Char('c')));
    assert!(!quit);
    assert_eq!(app.model_input, "c");
}

#[test]
fn menu_selection_stays_within_the_menu() {
    let mut app = App::new(String::new(), String::new());
    press(&mut app, KeyCode::Up);
    assert_eq!(app.menu_selected, Some(0));
    for _ in 0..10 {
        press(&mut app, KeyCode::Char('j'));
    }
    assert_eq!(app.menu_selected, Some(4));
    press(&mut app, KeyCode::Char('k'));
    assert_eq!(app.menu_selected, Some(3));
    press(&mut app, KeyCode::Enter);
    assert!(matches!(app.screen, Screen::About));
    press(&mut app, KeyCode::Esc);
    assert!(matches!(app.screen, Screen::Splash));
    assert_eq!(app.menu_selected, Some(2));
}

#[test]
fn quit_from_the_main_menu() {
    let mut app = App::new(String::new(), String::new());
    let (quit, _) = app.handle_key(key(KeyCode::Char('Q')));
    assert!(quit);
    assert!(app.should_quit);

    let mut app = App::new(String::new(), String::new());
    for _ in 0..4 {
        press(&mut app, KeyCode::Down);
    }
    let (quit, _) = app.handle_key(key(KeyCode::Enter));
    assert!(quit);
}

#[test]
fn configuration_presets_set_the_run() {
    let mut app = App::new(String::new(), String::new());
    press(&mut app, KeyCode::Down);
    press(&mut app, KeyCode::Down);
    press(&mut app, KeyCode::Enter);
    assert!(matches!(app.screen, Screen::ConfigSelect));
    assert_eq!(app.current_menu.len(), 7);
    press(&mut app, KeyCode::Down);
    press(&mut app, KeyCode::Enter);
    assert!(matches!(app.screen, Screen::Splash));
    assert_eq!(app.total_trials, 50);
    assert_eq!(app.status_message, "Config: 50 trials");

    press(&mut app, KeyCode::Down);
    press(&mut app, KeyCode::Down);
    press(&mut app, KeyCode::Enter);
    for _ in 0..3 {
        press(&mut app, KeyCode::Down);
    }
    press(&mut app, KeyCode::Enter);
    assert_eq!(app.total_trials, 200);
    assert!(app.quantize);
    assert_eq!(app.status_message, "Config: 200 trials, 4-bit");

    press(&mut app, KeyCode::Down);
    press(&mut app, KeyCode::Down);
    press(&mut app, KeyCode::Enter);
    for _ in 0..4 {
        press(&mut app, KeyCode::Down);
    }
    press(&mut app, KeyCode::Enter);
    assert!(app.use_obliteratus);
    assert!(!app.quantize);
    assert_eq!(app.status_message, "Config: 200 trials, OBLITERATUS Advanced");
}

#[test]
fn token_entry_is_saved_through_an_effect() {
    let mut app = App::new(String::new(), String::new());
    press(&mut app, KeyCode::Down);
    press(&mut app, KeyCode::Down);
    press(&mut app, KeyCode::Enter);
    for _ in 0..5 {
        press(&mut app, KeyCode::Down);
    }
    press(&mut app, KeyCode::Enter);
    assert!(matches!(app.screen, Screen::TokenInput));
    for c in " hf_x ".chars() {
        press(&mut app, KeyCode::Char(c));
    }
    let effects = press(&mut app, KeyCode::Enter);
    match effects.as_slice() {
        [Effect::SaveToken(Some(t))] => assert_eq!(t, "hf_x"),
        other => panic!("expected SaveToken, got {:?}", other),
    }
    assert!(matches!(app.screen, Screen::ConfigSelect));
    assert_eq!(app.menu_selected, Some(5));
    app.on_token_saved(Ok(()));
    assert_eq!(app.status_message, "HuggingFace token saved to .env (gitignored).");
    app.on_token_saved(Err("disk full".to_string()));
    assert_eq!(app.status_message, "Token set for this session, but .env write failed: disk full");
}

#[test]
fn clearing_the_token_asks_to_remove_it() {
    let mut app = App::new("old".to_string(), String::new());
    app.set_menu(Screen::TokenInput, Vec::new(), 0);
    for _ in 0..3 {
        press(&mut app, KeyCode::Backspace);
    }
    assert_eq!(app.hf_token_input, "");
    let effects = press(&mut app, KeyCode::Enter);
    assert!(matches!(effects.as_slice(), [Effect::SaveToken(None)]));
    app.on_token_saved(Ok(()));
    assert_eq!(app.status_message, "HuggingFace token cleared.");
}

#[test]
fn model_entry_validates_then_probes_then_starts() {
    let mut app = App::new(String::new(), "NVIDIA RTX 4090".to_string());
    press(&mut app, KeyCode::Enter);
    assert!(matches!(app.screen, Screen::Setup));
    assert_eq!(labels(&app), vec!["Enter Model ID/Path", "Recent Models", "Back"]);
    press(&mut app, KeyCode::Enter);
    assert!(matches!(app.screen, Screen::ModelInput));
    // Enter on an empty field does nothing.
    assert!(press(&mut app, KeyCode::Enter).is_empty());
    for c in "org/modl".chars() {
        press(&mut app, KeyCode::Char(c));
    }
    press(&mut app, KeyCode::Left);
    press(&mut app, KeyCode::Char('e'));
    assert_eq!(app.model_input, "org/model");
    assert_eq!(app.model_cursor, 8);
    press(&mut app, KeyCode::End);
    assert_eq!(app.model_cursor, 9);
    press(&mut app, KeyCode::Char(' '));

    let effects = press(&mut app, KeyCode::Enter);
    match effects.as_slice() {
        [Effect::ValidateModel(m)] => assert_eq!(m, "org/model"),
        other => panic!("expected ValidateModel, got {:?}", other),
    }
    assert_eq!(app.status_message, "Validating model on HuggingFace...");

    let effects = app.on_model_checked(false, Some("404".to_string()));
    assert!(effects.is_empty());
    assert_eq!(
        app.model_error.as_deref(),
        Some("Error: 'org/model' is not a local folder and was not found on HuggingFace Hub!")
    );

    let effects = app.on_model_checked(false, Some("401\n".to_string()));
    match effects.as_slice() {
        [Effect::ProbeCheckpoint(m)] => assert_eq!(m, "org/model "),
        other => panic!("expected ProbeCheckpoint, got {:?}", other),
    }

    let effects = app.on_checkpoint_probed(false);
    assert!(matches!(app.screen, Screen::Processing));
    assert!(app.is_processing && app.is_setting_up && app.has_main_process);
    assert_eq!(app.batch_size, 16);
    assert_eq!(
        app.log_lines,
        vec![("Verifying Python Environment and Missing Dependencies...".to_string(), LogLevel::Info)]
    );
    match effects.as_slice() {
        [Effect::RefreshSystemInfo, Effect::RecordRecentModel(m), Effect::SpawnSetup] => {
            assert_eq!(m, "org/model ")
        }
        other => panic!("unexpected effects {:?}", other),
    }
}

#[test]
fn an_existing_checkpoint_asks_first() {
    let mut app = App::new(String::new(), String::new());
    app.model_input = "m".to_string();
    app.model_cursor = 1;
    app.on_checkpoint_probed(true);
    assert!(matches!(app.screen, Screen::CheckpointPrompt));
    assert_eq!(labels(&app), vec!["Resume previous run", "Start fresh", "Cancel"]);
}

#[test]
fn local_folder_skips_the_hub() {
    let mut app = App::new(String::new(), String::new());
    app.model_input = "./local".to_string();
    let effects = app.on_model_checked(true, None);
    assert!(matches!(effects.as_slice(), [Effect::ProbeCheckpoint(_)]));
    assert!(app.model_error.is_none());
}

#[test]
fn clipboard_reads_go_to_the_field() {
    let mut app = App::new(String::new(), String::new());
    press(&mut app, KeyCode::Enter);
    press(&mut app, KeyCode::Enter);
    let (_, effects) = app.handle_key(KeyInput { code: KeyCode::Char('v'), ctrl: true, shift: false });
    assert!(matches!(effects.as_slice(), [Effect::ReadClipboard]));
    let (_, effects) = app.handle_key(KeyInput { code: KeyCode::Insert, ctrl: false, shift: true });
    assert!(matches!(effects.as_slice(), [Effect::ReadClipboard]));
    app.on_clipboard(ClipboardRead::Text("org/\r\nname".to_string()));
    assert_eq!(app.model_input, "org/name");
    assert_eq!(app.model_cursor, 8);
    app.on_clipboard(ClipboardRead::Unreadable);
    assert_eq!(app.model_error.as_deref(), Some("Failed to get text from clipboard!"));
    app.on_clipboard(ClipboardRead::Inaccessible);
    assert_eq!(
        app.model_error.as_deref(),
        Some("Host clipboard not accessible here! Use Ctrl+Shift+V or Right-Click instead.")
    );
}

#[test]
fn paste_drops_line_breaks_and_respects_the_cursor() {
    let mut app = App::new(String::new(), String::new());
    app.set_menu(Screen::ModelInput, Vec::new(), 0);
    app.model_input = "ab".to_string();
    app.model_cursor = 1;
    app.handle_paste("x\ny\r".to_string());
    assert_eq!(app.model_input, "axyb");
    assert_eq!(app.model_cursor, 3);
    // Elsewhere a paste changes nothing.
    app.set_menu(Screen::Splash, Vec::new(), 0);
    app.handle_paste("zz".to_string());
    assert_eq!(app.model_input, "axyb");
}

#[test]
fn recent_models_menu_lists_the_file() {
    let mut app = App::new(String::new(), String::new());
    press(&mut app, KeyCode::Enter);
    press(&mut app, KeyCode::Down);
    let effects = press(&mut app, KeyCode::Enter);
    assert!(matches!(effects.as_slice(), [Effect::ReadRecentModels]));
    app.on_recent_models("");
    assert_eq!(app.status_message, "No recent models found.");
    assert!(matches!(app.screen, Screen::Setup));
    app.on_recent_models("a/b\n\nc/d\n");
    assert!(matches!(app.screen, Screen::RecentModels));
    assert_eq!(labels(&app), vec!["a/b", "c/d", "Back"]);
}

#[test]
fn completed_models_lead_to_the_model_actions() {
    let mut app = App::new(String::new(), String::new());
    press(&mut app, KeyCode::Down);
    press(&mut app, KeyCode::Enter);
    app.on_completed_models(Vec::new());
    assert_eq!(app.status_message, "No completed models found.");
    assert!(matches!(app.screen, Screen::Splash));

    let app = with_model("org/m");
    assert_eq!(app.model_input, "org/m");
    assert_eq!(
        labels(&app),
        vec!["Chat with Model", "Run Benchmarks", "Convert to GGUF", "Upload to Hugging Face", "Delete Model", "Back"]
    );
}

#[test]
fn deleting_a_model_needs_confirmation() {
    let mut app = with_model("org/m");
    for _ in 0..4 {
        press(&mut app, KeyCode::Down);
    }
    let effects = press(&mut app, KeyCode::Enter);
    assert!(effects.is_empty());
    match &app.screen {
        Screen::Confirm(ConfirmAction::DeleteCheckpoint(m)) => assert_eq!(m, "org/m"),
        other => panic!("expected a confirmation, got {:?}", other),
    }
    // The default answer is "no".
    assert_eq!(app.menu_selected, Some(1));
    let effects = press(&mut app, KeyCode::Enter);
    assert!(effects.is_empty());
    assert!(matches!(app.screen, Screen::Results));
    assert_eq!(app.status_message, "Deletion cancelled.");

    let mut app = with_model("org/m");
    for _ in 0..4 {
        press(&mut app, KeyCode::Down);
    }
    press(&mut app, KeyCode::Enter);
    let effects = press(&mut app, KeyCode::Char('y'));
    match effects.as_slice() {
        [Effect::DeleteCheckpoint(m)] => assert_eq!(m, "org/m"),
        other => panic!("expected DeleteCheckpoint, got {:?}", other),
    }
    assert!(matches!(app.screen, Screen::Splash));
    app.on_checkpoint_deleted("org/m", Ok(true));
    assert_eq!(app.status_message, "Deleted checkpoint for org/m");
    app.on_checkpoint_deleted("org/m", Ok(false));
    assert_eq!(app.status_message, "No checkpoint found for org/m");
    app.on_checkpoint_deleted("org/m", Err("busy".to_string()));
    assert_eq!(app.status_message, "Could not delete checkpoint for org/m: busy");
}

#[test]
fn chat_session_streams_tokens() {
    let mut app = with_model("org/m");
    let effects = press(&mut app, KeyCode::Enter);
    match effects.as_slice() {
        [Effect::StartChat(m)] => assert_eq!(m, "org/m"),
        other => panic!("expected StartChat, got {:?}", other),
    }
    assert!(matches!(app.screen, Screen::Chat));
    assert!(app.chat_loading && app.has_chat_process);
    // Typing is ignored while the model loads.
    press(&mut app, KeyCode::Char('x'));
    assert_eq!(app.chat_input, "");

    let raw = |s: &str| SubprocessMessage::Event(ParsedEvent::Raw(s.to_string()));
    app.on_chat_message(raw(r#"{"type": "status", "content": "Loading weights"}"#));
    assert_eq!(app.status_message, "Loading weights");
    app.on_chat_message(raw(r#"{"type": "ready"}"#));
    assert!(!app.chat_loading);
    assert_eq!(app.status_message, "Chat ready.");

    press(&mut app, KeyCode::Char('h'));
    press(&mut app, KeyCode::Char('i'));
    let effects = press(&mut app, KeyCode::Enter);
    match effects.as_slice() {
        [Effect::SendChat(payload)] => assert_eq!(
            payload,
            r#"[{"content":"You are a helpful assistant.","role":"system"},{"content":"hi","role":"user"}]"#
        ),
        other => panic!("expected SendChat, got {:?}", other),
    }
    assert_eq!(app.chat_input, "");
    app.on_chat_sent(true);
    assert!(app.chat_streaming);

    app.on_chat_message(raw(r#"{"type": "token", "content": "Hel"}"#));
    app.on_chat_message(raw(r#"{"type": "token", "content": "lo"}"#));
    app.on_chat_message(raw(r#"{"type": "done"}"#));
    assert!(!app.chat_streaming);
    assert_eq!(
        app.chat_messages.last().cloned(),
        Some(("assistant".to_string(), "Hello".to_string()))
    );
    app.on_chat_message(raw("not json"));
    app.on_chat_message(SubprocessMessage::Event(ParsedEvent::Status("x".to_string())));
    assert_eq!(app.chat_messages.last().unwrap().1, "Hello");

    app.on_chat_message(raw(r#"{"type": "error", "content": "OOM"}"#));
    assert_eq!(app.status_message, "Chat error.");
    assert_eq!(app.chat_messages.last().unwrap().1, "Error: OOM");

    let effects = app.on_chat_message(SubprocessMessage::Exited(Some(0)));
    assert!(matches!(effects.as_slice(), [Effect::DropChat]));
    assert!(!app.has_chat_process);
    assert_eq!(app.status_message, "Chat server disconnected.");

    let effects = press(&mut app, KeyCode::Esc);
    assert!(matches!(effects.as_slice(), [Effect::StopChat]));
    assert!(matches!(app.screen, Screen::TrialActions));
    assert_eq!(app.menu_selected, Some(2));
}

#[test]
fn chat_without_a_server_says_so() {
    let mut app = App::new(String::new(), String::new());
    app.set_menu(Screen::Chat, Vec::new(), 0);
    press(&mut app, KeyCode::Char('a'));
    let effects = press(&mut app, KeyCode::Enter);
    assert!(effects.is_empty());
    assert_eq!(
        app.chat_messages.last().unwrap().1,
        "Chat server not running. Press Esc and try again."
    );
    app.on_chat_sent(false);
    assert_eq!(app.chat_messages.last().unwrap().1, "Failed to send message to chat server.");
}

#[test]
fn benchmark_runner_lines_fill_the_dashboard() {
    let mut app = with_model("org/m");
    press(&mut app, KeyCode::Down);
    let effects = press(&mut app, KeyCode::Enter);
    assert!(matches!(effects.as_slice(), [Effect::StartBenchmark(_)]));
    assert!(matches!(app.screen, Screen::BenchmarkDashboard));
    assert!(app.benchmark_running);

    let raw = |s: &str| SubprocessMessage::Event(ParsedEvent::Raw(s.to_string()));
    app.on_bench_message(raw(r#"{"type": "result", "benchmark": "mmlu", "metric": "acc", "value": "0.61"}"#));
    app.on_bench_message(raw(r#"{"type": "result"}"#));
    assert_eq!(
        app.benchmark_results,
        vec![
            ("mmlu".to_string(), "acc".to_string(), "0.61".to_string()),
            ("unknown".to_string(), String::new(), String::new())
        ]
    );
    app.on_bench_message(raw("plain progress"));
    assert_eq!(last_log(&app), ("plain progress".to_string(), LogLevel::Dim));
    app.on_bench_message(raw("   "));
    assert_eq!(last_log(&app), ("plain progress".to_string(), LogLevel::Dim));
    app.on_bench_message(raw(r#"{"type": "done", "content": "All done"}"#));
    assert!(!app.benchmark_running);
    assert_eq!(app.status_message, "Benchmarks completed.");
    assert_eq!(last_log(&app), ("All done".to_string(), LogLevel::Success));
    app.on_bench_message(SubprocessMessage::SpawnError("no python".to_string()));
    assert_eq!(last_log(&app), ("Benchmark error: no python".to_string(), LogLevel::Error));
    let effects = app.on_bench_message(SubprocessMessage::Exited(None));
    assert!(matches!(effects.as_slice(), [Effect::DropBenchmark]));
    assert!(!app.has_benchmark_process);
}

/// An application in the middle of an optimization run.
fn running() -> App {
    let mut app = App::new(String::new(), "NVIDIA RTX 4090".to_string());
    app.model_input = "org/m".to_string();
    app.model_cursor = 5;
    app.on_checkpoint_probed(false);
    let effects = app.on_main_message(SubprocessMessage::Exited(Some(0)), no_readings());
    match effects.as_slice() {
        [Effect::SpawnRun { model, args }] => {
            assert_eq!(model, "org/m");
            assert_eq!(
                args,
                &vec![
                    "--n-trials".to_string(),
                    "200".to_string(),
                    "--kernel-type".to_string(),
                    "linear".to_string(),
                    "--no-use-cosmic-layer-selection".to_string(),
                    "--no-use-ega".to_string()
                ]
            );
        }
        other => panic!("expected SpawnRun, got {:?}", other),
    }
    assert!(!app.is_setting_up);
    app
}

#[test]
fn failed_setup_stops_the_run() {
    let mut app = App::new(String::new(), String::new());
    app.model_input = "m".to_string();
    app.on_checkpoint_probed(false);
    let effects = app.on_main_message(SubprocessMessage::Exited(Some(2)), no_readings());
    assert!(effects.is_empty());
    assert!(!app.is_processing && !app.is_setting_up);
    assert_eq!(last_log(&app), exit_report("Environment setup", Some(2)));
}

#[test]
fn quantized_advanced_runs_pass_their_flags() {
    let mut app = App::new(String::new(), String::new());
    app.model_input = "m".to_string();
    app.total_trials = 50;
    app.quantize = true;
    app.use_obliteratus = true;
    app.on_checkpoint_probed(false);
    let effects = app.on_main_message(SubprocessMessage::Exited(Some(0)), no_readings());
    match effects.as_slice() {
        [Effect::SpawnRun { args, .. }] => assert_eq!(
            args,
            &vec![
                "--n-trials".to_string(),
                "50".to_string(),
                "--quantization".to_string(),
                "bnb_4bit".to_string(),
                "--kernel-type".to_string(),
                "gaussian".to_string()
            ]
        ),
        other => panic!("expected SpawnRun, got {:?}", other),
    }
}

#[test]
fn progress_events_update_the_run() {
    let mut app = running();
    event(&mut app, ParsedEvent::OptimizationStarting { n_trials: 10 });
    assert_eq!(app.total_trials, 10);
    assert_eq!(last_log(&app), ("Starting optimization...".to_string(), LogLevel::Success));
    event(&mut app, ParsedEvent::TrialStarting { trial_number: 3, total_trials: 10 });
    assert_eq!(app.current_trial, 3);
    assert_eq!(last_log(&app), ("Starting trial 3/10...".to_string(), LogLevel::Info));

    app.on_main_message(
        SubprocessMessage::Event(ParsedEvent::BatchSize("32".to_string())),
        Readings { kl: None, batch_size: Some(32), output: None },
    );
    assert_eq!(app.batch_size, 32);
    assert_eq!(last_log(&app), ("Determined batch size: 32".to_string(), LogLevel::Success));

    event(&mut app, ParsedEvent::TrialPruned { trial_number: 4 });
    assert_eq!(last_log(&app), ("Trial 4 pruned".to_string(), LogLevel::Warning));
    event(&mut app, ParsedEvent::ElapsedTime("00:01:00".to_string()));
    assert_eq!(last_log(&app), ("Elapsed: 00:01:00".to_string(), LogLevel::Dim));
    event(&mut app, ParsedEvent::CalculatingDirections);
    assert_eq!(
        last_log(&app),
        ("Calculating per-layer refusal directions...".to_string(), LogLevel::Info)
    );
    let before = app.log_lines.len();
    event(&mut app, ParsedEvent::GpuMemory { used_gb: "1.0".to_string(), total_gb: "8.0".to_string() });
    event(&mut app, ParsedEvent::Raw("Spawning worker".to_string()));
    event(&mut app, ParsedEvent::Raw("  ".to_string()));
    assert_eq!(app.log_lines.len(), before);
    event(&mut app, ParsedEvent::Raw("10%\r50%\r90%".to_string()));
    assert_eq!(last_log(&app), ("90%".to_string(), LogLevel::Dim));
}

#[test]
fn completed_trials_keep_the_best() {
    let mut app = running();
    let trial = |app: &mut App, refusals: usize, x: Option<f64>| {
        if let Some(x) = x {
            app.on_main_message(
                SubprocessMessage::Event(ParsedEvent::KLDivergence(format!("{x}"))),
                Readings { kl: Some(kl(x)), batch_size: None, output: None },
            );
        }
        event(
            app,
            ParsedEvent::TrialComplete { trial_number: 0, total_trials: 0, refusals, total_prompts: 100 },
        );
    };
    trial(&mut app, 9, Some(0.5));
    assert_eq!(app.current_trial, 1);
    assert_eq!(app.best_refusals, Some(9));
    assert_eq!(last_log(&app), ("Trial 1: refusals=9/100, KL=0.5000".to_string(), LogLevel::Info));
    trial(&mut app, 3, Some(0.9));
    assert_eq!(app.best_refusals, Some(3));
    assert_eq!(app.best_kl.as_ref().unwrap().shown, "0.9000");
    trial(&mut app, 3, Some(0.25));
    assert_eq!(app.best_kl.as_ref().unwrap().bits, 0.25f64.to_bits());
    trial(&mut app, 3, Some(0.75));
    assert_eq!(app.best_kl.as_ref().unwrap().bits, 0.25f64.to_bits());
    trial(&mut app, 7, Some(0.01));
    assert_eq!(app.best_refusals, Some(3));
    // A trial without a reading counts as zero divergence.
    trial(&mut app, 3, None);
    assert_eq!(app.best_kl.as_ref().unwrap().bits, 0);
    assert_eq!(last_log(&app), ("Trial 6: refusals=3/100, KL=0.0000".to_string(), LogLevel::Success));
    assert_eq!(app.refusal_history, vec![9, 3, 3, 3, 7, 3]);
    assert_eq!(app.kl_history.len(), 6);
    assert!(app.pending_kl.is_none());
    event(
        &mut app,
        ParsedEvent::TrialComplete { trial_number: 42, total_trials: 0, refusals: 1, total_prompts: 100 },
    );
    assert_eq!(app.current_trial, 42);
}

#[test]
fn kl_order_follows_floating_point() {
    assert!(kl_less(&kl(0.1), &kl(0.2)));
    assert!(!kl_less(&kl(0.2), &kl(0.1)));
    assert!(!kl_less(&kl(0.2), &kl(0.2)));
    assert!(kl_less(&kl(-1.0), &kl(0.0)));
    assert!(!kl_less(&kl(0.0), &kl(-0.0)));
    assert!(!kl_less(&kl(f64::NAN), &kl(1.0)));
    assert!(!kl_less(&kl(1.0), &kl(f64::NAN)));
    assert!(kl_less(&kl(f64::NEG_INFINITY), &kl(-1e300)));
}

#[test]
fn finished_optimization_shows_results() {
    let mut app = running();
    event(&mut app, ParsedEvent::OptimizationComplete);
    assert!(!app.is_processing);
    assert!(matches!(app.screen, Screen::Results));
    assert_eq!(app.trial_selected, Some(0));
    assert_eq!(app.trials.len(), 5);
    assert_eq!(app.trials[0].index, 142);
    assert_eq!(app.trials[0].kl_divergence.bits, 0.0312f64.to_bits());
    assert_eq!(app.trials[1].direction, "per layer");
    assert_eq!(app.trials[4].kl_divergence.shown, "0.0098");
    assert_eq!(labels(&app), vec!["Select this trial", "Run additional trials", "Back to main menu"]);
}

#[test]
fn run_exit_and_spawn_errors_are_logged() {
    let mut app = running();
    app.on_main_message(SubprocessMessage::Exited(Some(0)), no_readings());
    assert!(!app.is_processing);
    assert_eq!(last_log(&app), exit_report("Process", Some(0)));
    assert_eq!(last_log(&app).1, LogLevel::Success);

    let mut app = running();
    app.on_main_message(SubprocessMessage::SpawnError("boom".to_string()), no_readings());
    assert!(!app.is_processing);
    assert_eq!(last_log(&app), ("boom".to_string(), LogLevel::Error));
}

#[test]
fn exit_reports_name_the_outcome() {
    assert_eq!(
        exit_report("Process", Some(0)),
        ("✓ Process completed successfully.".to_string(), LogLevel::Success)
    );
    assert_eq!(
        exit_report("Process", Some(1)),
        ("Process failed with exit code 1.".to_string(), LogLevel::Error)
    );
    assert_eq!(
        exit_report("GGUF conversion", Some(-3)),
        ("GGUF conversion failed with exit code -3.".to_string(), LogLevel::Error)
    );
    assert_eq!(
        exit_report("Process", None),
        ("Process was terminated before it reported an exit code.".to_string(), LogLevel::Warning)
    );
}

/// An application converting `org/m` to GGUF at the first quantization.
fn converting() -> App {
    let mut app = with_model("org/m");
    press(&mut app, KeyCode::Down);
    press(&mut app, KeyCode::Down);
    press(&mut app, KeyCode::Enter);
    assert!(matches!(app.screen, Screen::GgufSizeSelect));
    let effects = press(&mut app, KeyCode::Enter);
    match effects.as_slice() {
        [Effect::SpawnGguf { model, quant }] => {
            assert_eq!(model, "org/m");
            assert_eq!(quant, "Q4_K_M");
        }
        other => panic!("expected SpawnGguf, got {:?}", other),
    }
    assert_eq!(
        app.gguf_output,
        Some(vec!["exports".to_string(), "org--m-Q4_K_M.gguf".to_string()])
    );
    assert_eq!(
        app.log_lines,
        vec![("Starting GGUF conversion (Size: Q4_K_M)...".to_string(), LogLevel::Info)]
    );
    app
}

#[test]
fn gguf_success_needs_a_file_on_disk() {
    let mut app = converting();
    let shown = "/repo/exports/org--m-Q4_K_M.gguf".to_string();
    let lines = app.finish_report(
        Some(0),
        Some(OutputCheck { shown: shown.clone(), size: Ok(5 * 1024 * 1024 * 1024 + 1024 * 1024 * 1024 / 4) }),
    );
    assert_eq!(
        lines,
        vec![
            ("✓ GGUF conversion complete and verified.".to_string(), LogLevel::Success),
            (format!("  Saved to {shown} (5.25 GiB)"), LogLevel::Success)
        ]
    );
    assert!(app.gguf_output.is_none());

    let mut app = converting();
    let lines = app.finish_report(Some(0), Some(OutputCheck { shown: shown.clone(), size: Ok(0) }));
    assert_eq!(
        lines,
        vec![(format!("GGUF conversion exited cleanly but wrote an empty file: {shown}"), LogLevel::Error)]
    );

    let mut app = converting();
    let lines = app.finish_report(
        Some(0),
        Some(OutputCheck { shown: shown.clone(), size: Err("No such file".to_string()) }),
    );
    assert_eq!(
        lines,
        vec![(format!("GGUF conversion exited cleanly but {shown} is missing: No such file"), LogLevel::Error)]
    );

    let mut app = converting();
    let lines = app.finish_report(Some(1), None);
    assert_eq!(lines, vec![exit_report("GGUF conversion", Some(1))]);

    let mut app = App::new(String::new(), String::new());
    assert_eq!(app.finish_report(None, None), vec![exit_report("Process", None)]);
}

#[test]
fn gguf_exit_message_logs_the_check() {
    let mut app = converting();
    app.on_main_message(
        SubprocessMessage::Exited(Some(0)),
        Readings {
            kl: None,
            batch_size: None,
            output: Some(OutputCheck { shown: "x.gguf".to_string(), size: Ok(2048) }),
        },
    );
    assert_eq!(last_log(&app), ("  Saved to x.gguf (2.0 KB)".to_string(), LogLevel::Success));
    assert!(app.gguf_output.is_none());
    assert!(!app.is_processing);
}

#[test]
fn ticks_poll_the_main_process_while_processing() {
    let mut app = App::new(String::new(), String::new());
    assert!(!app.tick());
    assert_eq!(app.tick_count, 1);
    let mut app = running();
    app.tick_count = 28;
    assert!(app.tick());
    assert!(app.finish_main_poll().is_empty());
    assert!(app.tick());
    let effects = app.finish_main_poll();
    assert!(matches!(effects.as_slice(), [Effect::RefreshSystemInfo]));
    assert_eq!(app.elapsed_secs, 1);
}

#[test]
fn stopping_a_run_asks_and_keeps_what_was_done() {
    let mut app = running();
    press(&mut app, KeyCode::Char('q'));
    assert!(matches!(app.screen, Screen::Confirm(ConfirmAction::StopProcessing)));
    press(&mut app, KeyCode::Char('n'));
    assert!(matches!(app.screen, Screen::Processing));
    press(&mut app, KeyCode::Char('q'));
    press(&mut app, KeyCode::Char('y'));
    assert!(!app.is_processing);
    assert!(matches!(app.screen, Screen::Splash));

    let mut app = running();
    event(&mut app, ParsedEvent::TrialStarting { trial_number: 2, total_trials: 10 });
    press(&mut app, KeyCode::Char('q'));
    press(&mut app, KeyCode::Char('y'));
    assert!(matches!(app.screen, Screen::Results));
    assert_eq!(app.trials.len(), 5);
}

#[test]
fn log_and_chat_scrolling() {
    let mut app = running();
    app.handle_mouse(MouseScroll::Up);
    assert_eq!(app.log_scroll, 0);
    assert!(app.log_auto_scroll);
    app.handle_mouse(MouseScroll::Down);
    app.handle_mouse(MouseScroll::Down);
    assert_eq!(app.log_scroll, 2);
    app.handle_mouse(MouseScroll::Up);
    assert_eq!(app.log_scroll, 1);
    assert!(!app.log_auto_scroll);
    app.handle_mouse(MouseScroll::Other);
    assert_eq!(app.log_scroll, 1);

    let mut app = App::new(String::new(), String::new());
    app.set_menu(Screen::Chat, Vec::new(), 0);
    app.handle_mouse(MouseScroll::Down);
    assert_eq!(app.chat_scroll, 1);
    assert!(!app.chat_auto_scroll);
    press(&mut app, KeyCode::PageDown);
    assert_eq!(app.chat_scroll, 11);
    press(&mut app, KeyCode::PageUp);
    press(&mut app, KeyCode::PageUp);
    assert_eq!(app.chat_scroll, 0);
    press(&mut app, KeyCode::End);
    assert!(app.chat_auto_scroll);
}

#[test]
fn settled_scroll_offsets_stay_on_the_last_page() {
    let mut app = App::new(String::new(), String::new());
    for i in 0..30 {
        app.log_str(&format!("line {i}"), LogLevel::Info);
    }
    app.log_scroll = 100;
    app.log_auto_scroll = false;
    app.settle_log_scroll(10);
    assert_eq!(app.log_scroll, 20);
    app.log_auto_scroll = true;
    app.log_scroll = 0;
    app.settle_log_scroll(10);
    assert_eq!(app.log_scroll, 20);
    app.settle_log_scroll(50);
    assert_eq!(app.log_scroll, 0);

    app.chat_messages = vec![("user".to_string(), "word ".repeat(40))];
    app.chat_auto_scroll = true;
    app.settle_chat_scroll(22, 5);
    let pinned = app.chat_scroll;
    app.chat_scroll = 1000;
    app.chat_auto_scroll = false;
    app.settle_chat_scroll(22, 5);
    assert_eq!(app.chat_scroll, pinned);
}

#[test]
fn gpu_name_decides_the_setup_flag() {
    assert!(setup_wants_gpu("NVIDIA RTX 4090"));
    assert!(!setup_wants_gpu("Unknown"));
    assert!(setup_wants_gpu(""));
}

#[test]
fn menu_items_and_event_handler() {
    let item = MenuItem::new("Quit", "Exit").with_key("Q");
    assert_eq!(item.label, "Quit");
    assert_eq!(item.key_hint.as_deref(), Some("Q"));
    assert_eq!(item.clone_item().description, "Exit");
    assert_eq!(EventHandler::new(33).tick_rate_ms, 33);
}

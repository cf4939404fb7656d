use annihilate::parser::{
    fraction_after_lowered, keyword_offset_in, number_after_lowered, parse_line, strip_ansi,
    try_parse_line, ParsedEvent,
};

#[test]
fn test_strip_ansi() {
    assert_eq!(strip_ansi("\x1b[32mHello\x1b[0m"), "Hello");
    assert_eq!(strip_ansi("No escapes"), "No escapes");
}

#[test]
fn test_parse_trial() {
    match parse_line("Running trial 5 of 200") {
        ParsedEvent::TrialStarting {
            trial_number: 5,
            total_trials: 200,
        } => {}
        other => panic!("Expected TrialStarting, got {:?}", other),
    }
}

#[test]
fn test_parse_refusals() {
    match parse_line("Refusals: 3/100, KL divergence: 0.0312") {
        ParsedEvent::TrialComplete {
            refusals: 3,
            total_prompts: 100,
            ..
        } => {}
        other => panic!("Expected TrialComplete, got {:?}", other),
    }
}

#[test]
fn test_json_protocol_stays_raw() {
    let status = r#"{"type": "status", "content": "Loading model..."}"#;
    match parse_line(status) {
        ParsedEvent::Raw(line) => assert_eq!(line, status),
        other => panic!("Expected Raw JSON status, got {:?}", other),
    }

    let ready = r#"{"type": "ready"}"#;
    match parse_line(ready) {
        ParsedEvent::Raw(line) => assert_eq!(line, ready),
        other => panic!("Expected Raw JSON ready, got {:?}", other),
    }

    let refusal_status = r#"{"type": "status", "content": "Calculating refusal directions..."}"#;
    match parse_line(refusal_status) {
        ParsedEvent::Raw(line) => assert_eq!(line, refusal_status),
        other => panic!("Expected Raw JSON refusal status, got {:?}", other),
    }
}

#[test]
fn test_parse_model_format() {
    match parse_line("* Detected LlamaForCausalLM") {
        ParsedEvent::ModelFormat {
            architecture,
            multimodal: false,
            remote_code: false,
        } => assert_eq!(architecture, "LlamaForCausalLM"),
        other => panic!("Expected ModelFormat, got {:?}", other),
    }

    match parse_line("* Detected CustomVLM, multimodal, custom code") {
        ParsedEvent::ModelFormat {
            architecture,
            multimodal: true,
            remote_code: true,
        } => assert_eq!(architecture, "CustomVLM"),
        other => panic!("Expected multimodal ModelFormat, got {:?}", other),
    }
}

#[test]
fn test_cuda_detection_is_not_a_model_format() {
    assert!(
        !matches!(
            parse_line("* Detected 1 CUDA device(s) (4.00 GB total VRAM)"),
            ParsedEvent::ModelFormat { .. }
        ),
        "CUDA device line must not parse as a model format"
    );
}

#[test]
fn test_parse_quantization() {
    match parse_line("* Pre-quantized model: compressed-tensors") {
        ParsedEvent::Quantization(method) => assert_eq!(method, "compressed-tensors"),
        other => panic!("Expected Quantization, got {:?}", other),
    }
}

#[test]
fn strip_ansi_drops_whole_escape_sequences() {
    assert_eq!(strip_ansi("\x1b[1;31mERR\x1b[0m: x"), "ERR: x");
    assert_eq!(strip_ansi(""), "");
    assert_eq!(strip_ansi("\x1b[38;5;208m"), "");
    // An escape that never ends swallows the rest of the line.
    assert_eq!(strip_ansi("ok\x1b[12"), "ok");
}

#[test]
fn blank_and_colored_lines_are_trimmed() {
    match parse_line("   ") {
        ParsedEvent::Raw(line) => assert_eq!(line, ""),
        other => panic!("Expected empty Raw, got {:?}", other),
    }
    match parse_line("  \x1b[2mjust text\x1b[0m  ") {
        ParsedEvent::Raw(line) => assert_eq!(line, "just text"),
        other => panic!("Expected Raw, got {:?}", other),
    }
}

#[test]
fn batch_size_lines_carry_the_number_text() {
    match parse_line("Determined batch size: 32") {
        ParsedEvent::BatchSize(n) => assert_eq!(n, "32"),
        other => panic!("Expected BatchSize, got {:?}", other),
    }
    // The keyword is looked up in the lowercased line.
    match parse_line("Batch size: 8") {
        ParsedEvent::BatchSize(n) => assert_eq!(n, "8"),
        other => panic!("Expected BatchSize, got {:?}", other),
    }
    match parse_line("Batch size is being chosen") {
        ParsedEvent::Status(line) => assert_eq!(line, "Batch size is being chosen"),
        other => panic!("Expected Status, got {:?}", other),
    }
}

#[test]
fn kl_divergence_lines_carry_the_decimal_text() {
    match parse_line("KL divergence: 0.0589") {
        ParsedEvent::KLDivergence(kl) => assert_eq!(kl, "0.0589"),
        other => panic!("Expected KLDivergence, got {:?}", other),
    }
}

#[test]
fn loading_and_direction_lines() {
    match parse_line("Loading model meta-llama/Llama-3.1-8B...") {
        ParsedEvent::ModelLoading(line) => assert_eq!(line, "Loading model meta-llama/Llama-3.1-8B..."),
        other => panic!("Expected ModelLoading, got {:?}", other),
    }
    match parse_line("Loading harmful prompts") {
        ParsedEvent::DatasetLoading(line) => assert_eq!(line, "Loading harmful prompts"),
        other => panic!("Expected DatasetLoading, got {:?}", other),
    }
    assert!(matches!(
        parse_line("Calculating refusal directions..."),
        ParsedEvent::CalculatingDirections
    ));
}

#[test]
fn trial_line_without_numbers_is_status() {
    match parse_line("Running the trial of strength") {
        ParsedEvent::Status(line) => assert_eq!(line, "Running the trial of strength"),
        other => panic!("Expected Status, got {:?}", other),
    }
    match parse_line("Running trial 1,234 of 5,000") {
        ParsedEvent::TrialStarting {
            trial_number: 1234,
            total_trials: 5000,
        } => {}
        other => panic!("Expected TrialStarting, got {:?}", other),
    }
}

#[test]
fn completion_error_warning_and_prompt_lines() {
    assert!(matches!(parse_line("Optimization complete"), ParsedEvent::OptimizationComplete));
    assert!(matches!(parse_line("Pareto front:"), ParsedEvent::OptimizationComplete));
    match parse_line("Error: out of memory") {
        ParsedEvent::Error(line) => assert_eq!(line, "Error: out of memory"),
        other => panic!("Expected Error, got {:?}", other),
    }
    match parse_line("WARNING something odd") {
        ParsedEvent::Warning(line) => assert_eq!(line, "WARNING something odd"),
        other => panic!("Expected Warning, got {:?}", other),
    }
    match parse_line("? Select an option") {
        ParsedEvent::InteractivePrompt(line) => assert_eq!(line, "? Select an option"),
        other => panic!("Expected InteractivePrompt, got {:?}", other),
    }
    match parse_line("Trial 7 pruned") {
        ParsedEvent::Status(line) => assert_eq!(line, "Trial 7 pruned"),
        other => panic!("Expected Status, got {:?}", other),
    }
    match parse_line("GPU 0: 3.2 GB allocated") {
        ParsedEvent::Status(line) => assert_eq!(line, "GPU 0: 3.2 GB allocated"),
        other => panic!("Expected Status, got {:?}", other),
    }
}

#[test]
fn try_parse_line_agrees_with_parse_line_on_plain_lines() {
    match try_parse_line("Running trial 5 of 200") {
        Some(ParsedEvent::TrialStarting {
            trial_number: 5,
            total_trials: 200,
        }) => {}
        other => panic!("Expected Some(TrialStarting), got {:?}", other),
    }
    assert!(try_parse_line("plain words").is_some());
}

#[test]
fn number_search_on_given_lowercase_text() {
    assert_eq!(keyword_offset_in("determined batch size: 32", "batch size"), Some(11));
    assert_eq!(keyword_offset_in("nothing here", "kl"), None);
    assert_eq!(
        number_after_lowered("Batch size: 8", "batch size: 8", "batch size", "batch size"),
        Some(Some("8".to_string()))
    );
    // Without a lowercased line the keyword is not found.
    assert_eq!(
        number_after_lowered("Batch size: 8", "Batch size: 8", "batch size", "batch size"),
        Some(None)
    );
    assert_eq!(
        number_after_lowered("KL divergence: 0.25x", "kl divergence: 0.25x", "KL", "kl"),
        Some(Some("0.25".to_string()))
    );
    // An offset that falls inside a character of the line is refused.
    assert_eq!(number_after_lowered("éx 5", "xx 5", "x", "x"), None);
    assert_eq!(
        fraction_after_lowered("Refusals: 3/100", "refusals: 3/100", "efusal"),
        Some(Some((3, 100)))
    );
    assert_eq!(fraction_after_lowered("Refusals: none", "refusals: none", "efusal"), Some(None));
}

use asum::error::SummarizeError;
use asum::sanitize::sanitize_response;

#[test]
fn test_ollama_filtering() {
    let commit_msg = "feat: add feature\n\nInput diff to analyze:\nSome diff\nActual message";
    let final_msg = sanitize_response(commit_msg).unwrap();

    assert!(final_msg.contains("feat: add feature"));
    assert!(final_msg.contains("Actual message"));
    assert!(!final_msg.to_lowercase().contains("input diff"));
}

#[test]
fn test_gemini_filtering() {
    let commit_msg = "fix: bug\n\nInput diff:\n...\nResult";
    let final_msg = sanitize_response(commit_msg).unwrap();

    assert!(final_msg.contains("fix: bug"));
    assert!(final_msg.contains("Result"));
    assert!(!final_msg.to_lowercase().contains("input diff"));
}

#[test]
fn sanitize_concrete_scenario() {
    let raw = "feat: add x\n\nInput diff to analyze:\n...\nfix: cleanup";
    // "..." is kept: only empty and echoed lines are dropped.
    assert_eq!(sanitize_response(raw).unwrap(), "feat: add x\n...\nfix: cleanup");
    let raw = "feat: add x\n\nInput diff to analyze:\nfix: cleanup";
    assert_eq!(sanitize_response(raw).unwrap(), "feat: add x\nfix: cleanup");
}

#[test]
fn sanitize_trims_lines_and_drops_blank_ones() {
    let raw = "  \r\n\t feat: a \t\r\n\n   \n  - b  \n";
    assert_eq!(sanitize_response(raw).unwrap(), "feat: a\n- b");
}

#[test]
fn sanitize_drops_markers_in_any_case() {
    let raw = "DIFF TO ANALYZE\nHere is the Input Diff\nkeep me";
    assert_eq!(sanitize_response(raw).unwrap(), "keep me");
}

#[test]
fn sanitize_is_idempotent_on_examples() {
    for raw in ["  a \n\n b\n", "x", "feat: y\n input diff \n z "] {
        let once = sanitize_response(raw).unwrap();
        let twice = sanitize_response(&once).unwrap();
        assert_eq!(once, twice);
    }
}

#[test]
fn sanitize_boilerplate_only_is_empty_generation() {
    let raw = "\n   \nInput diff:\n\tDiff to analyze below\n\n";
    assert_eq!(sanitize_response(raw), Err(SummarizeError::EmptyGeneration));
    assert_eq!(sanitize_response(""), Err(SummarizeError::EmptyGeneration));
    assert_eq!(sanitize_response(" \u{3000}\n"), Err(SummarizeError::EmptyGeneration));
}

#[test]
fn sanitize_trims_every_unicode_space() {
    let raw = "\u{85}\u{a0}\u{1680}\u{2000}a\u{200a}\u{2028}\u{2029}\u{202f}\u{205f}\u{3000}\u{b}\u{c}";
    assert_eq!(sanitize_response(raw).unwrap(), "a");
    // a zero-width space is no whitespace, so the line stays
    assert_eq!(sanitize_response("\u{200b}").unwrap(), "\u{200b}");
}

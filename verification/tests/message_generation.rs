//! Behavior of prompt building, diff truncation and message resolution.

use auto_commit::commit_message_generator::CommitMessageGenerator;
use auto_commit::commit_message_generator::GeneratorConfig;
use auto_commit::commit_message_generator::GeneratorOutput;
use auto_commit::committer::relative_path;
use auto_commit::git_ops::truncate_diff;
use auto_commit::text::first_line;
use auto_commit::text::is_conventional_header;
use auto_commit::text::trim;
use auto_commit::types::default_success;
use auto_commit::types::ToolResponse;

fn test_config() -> GeneratorConfig {
    GeneratorConfig {
        prompt_template: "Language: {language}\nDiff:\n{diff_content}\n".to_string(),
        command: "true".to_string(),
        args: vec![],
        default_commit_message: "chore: update".to_string(),
    }
}

fn generator() -> CommitMessageGenerator {
    CommitMessageGenerator::new(test_config(), "English")
}

#[test]
fn short_diff_is_returned_trimmed_and_unchanged() {
    assert_eq!(truncate_diff("  +added line\n"), "+added line");
    assert_eq!(truncate_diff(""), "");
    assert_eq!(truncate_diff("   \n\t "), "");
}

#[test]
fn diff_of_exactly_the_limit_is_unchanged() {
    let exact = "x".repeat(5000);
    assert_eq!(truncate_diff(&exact), exact);
}

#[test]
fn long_diff_is_cut_to_first_5000_chars_with_marker() {
    let mut long = String::new();
    for i in 0..600 {
        long.push_str(&format!("line number {i}\n"));
    }
    assert!(long.len() > 5000);
    let out = truncate_diff(&long);
    let trimmed = long.trim();
    let expected: String =
        trimmed.chars().take(5000).collect::<String>() + "\n\n[... truncated ...]";
    assert_eq!(out, expected);
}

#[test]
fn truncated_diff_never_exceeds_limit_plus_marker() {
    let long = "y".repeat(9000);
    let out = truncate_diff(&long);
    assert_eq!(out.chars().count(), 5000 + "\n\n[... truncated ...]".chars().count());
    assert_eq!(out.chars().count(), 5021);
}

#[test]
fn truncation_counts_characters_not_bytes() {
    // 5001 two-byte characters: a byte cut would split one of them.
    let wide = "é".repeat(5001);
    let out = truncate_diff(&wide);
    let expected: String = "é".repeat(5000) + "\n\n[... truncated ...]";
    assert_eq!(out, expected);
}

#[test]
fn failed_process_yields_default_message() {
    let g = generator();
    assert_eq!(g.generate(None), "chore: update");
    let failed = GeneratorOutput { success: false, stdout: "feat: looks fine".to_string() };
    assert_eq!(g.generate(Some(failed)), "chore: update");
}

#[test]
fn empty_or_whitespace_output_yields_default_message() {
    let g = generator();
    let empty = GeneratorOutput { success: true, stdout: String::new() };
    assert_eq!(g.generate(Some(empty)), "chore: update");
    let blank = GeneratorOutput { success: true, stdout: " \n\t  \n".to_string() };
    assert_eq!(g.generate(Some(blank)), "chore: update");
}

#[test]
fn conventional_output_is_returned_unchanged() {
    let g = generator();
    let out = GeneratorOutput {
        success: true,
        stdout: "feat: add parser\n\nAlso adds tests.\n".to_string(),
    };
    assert_eq!(g.generate(Some(out)), "feat: add parser\n\nAlso adds tests.");
}

#[test]
fn non_conventional_output_is_prefixed_with_default() {
    let g = generator();
    let out = GeneratorOutput { success: true, stdout: "Added a parser module\n".to_string() };
    assert_eq!(g.generate(Some(out)), "chore: update\n\nAdded a parser module");
}

#[test]
fn conventional_header_requires_lowercase_colon_space_and_text() {
    assert!(is_conventional_header("fix: null deref"));
    assert!(is_conventional_header("feat:\tadd thing"));
    assert!(!is_conventional_header("Fix: null deref"));
    assert!(!is_conventional_header("fix:null deref"));
    assert!(!is_conventional_header("fix: "));
    assert!(!is_conventional_header(": no type"));
    assert!(!is_conventional_header("fix"));
    // one character after the space suffices, but not a line break
    assert!(is_conventional_header("fix: x"));
    assert!(!is_conventional_header("fix: \n"));
}

#[test]
fn header_check_applies_to_trimmed_first_line_only() {
    let g = generator();
    let out = GeneratorOutput {
        success: true,
        stdout: "  docs: explain setup\r\nSecond Line Is Free Form\n".to_string(),
    };
    assert_eq!(g.generate(Some(out)), "docs: explain setup\r\nSecond Line Is Free Form");
}

#[test]
fn build_prompt_substitutes_both_placeholders() {
    let g = generator();
    let p = g.build_prompt("+fn main() {}");
    assert_eq!(p, "Language: English\nDiff:\n+fn main() {}\n");
}

#[test]
fn build_prompt_replaces_every_occurrence() {
    let config = GeneratorConfig {
        prompt_template: "{language}/{language}: {diff_content}".to_string(),
        command: "true".to_string(),
        args: vec![],
        default_commit_message: "chore: update".to_string(),
    };
    let g = CommitMessageGenerator::new(config, "Japanese");
    assert_eq!(g.build_prompt("d"), "Japanese/Japanese: d");
}

#[test]
fn trim_and_first_line_behave_like_std() {
    assert_eq!(trim("  a b \n"), "a b");
    assert_eq!(trim(""), "");
    assert_eq!(first_line("alpha\nbeta"), "alpha");
    assert_eq!(first_line("alpha\r\nbeta"), "alpha");
    assert_eq!(first_line("single"), "single");
    assert_eq!(first_line(""), "");
}

#[test]
fn absolute_path_under_cwd_is_relativized() {
    assert_eq!(relative_path("/repo", "/repo/src/a.rs"), "src/a.rs");
    assert_eq!(relative_path("/repo/", "/repo/a.rs"), "a.rs");
    assert_eq!(relative_path("/", "/top.txt"), "top.txt");
}

#[test]
fn relative_or_foreign_paths_are_kept_unchanged() {
    assert_eq!(relative_path("/repo", "src/a.rs"), "src/a.rs");
    assert_eq!(relative_path("/repo", "/elsewhere/a.rs"), "/elsewhere/a.rs");
    assert_eq!(relative_path("/repo", "/repository/a.rs"), "/repository/a.rs");
}

#[test]
fn cwd_accessor_covers_both_variants() {
    let start = auto_commit::types::HookEvent::SessionStart {
        session_id: "abc".to_string(),
        cwd: "/work/a".to_string(),
        source: None,
    };
    assert_eq!(start.cwd(), "/work/a");
    let tool = auto_commit::types::HookEvent::PostToolUse {
        cwd: "/work/b".to_string(),
        tool_name: auto_commit::types::ToolName::Edit,
        tool_input: auto_commit::types::ToolInput { file_path: "x".to_string() },
        tool_response: ToolResponse { success: true },
    };
    assert_eq!(tool.cwd(), "/work/b");
}

#[test]
fn errors_describe_the_failing_operation() {
    let e = auto_commit::types::GitError::Index { detail: "could not add file".to_string() };
    assert_eq!(e.describe(), "index error: could not add file");
    let e = auto_commit::types::GitError::Commit { detail: "no identity".to_string() };
    assert_eq!(e.describe(), "commit error: no identity");
}

#[test]
fn tool_response_defaults_to_success() {
    assert!(default_success());
    let r: ToolResponse = Default::default();
    assert!(r.success);
}

use mantra::config::{Cli, ConfigError, RefactorKind};
use mantra::exec::CmdOutput;
use mantra::io_utils::{slug_at, slug_of, temp_rs_path};
use mantra::orchestrator::confirms;

fn cli() -> Cli {
    Cli {
        repo: ".".to_string(),
        file: "src/main.rs".to_string(),
        refactor_prompt: "x".to_string(),
        refactor_type: RefactorKind::RenameMethod,
        model: "gpt-4o-mini".to_string(),
        rag_dir: "rag_examples".to_string(),
        max_repairs: 10,
        yes: false,
    }
}

#[test]
fn validate_checks_manifest_then_file() {
    assert_eq!(cli().validate(true, true), Ok(()));
    assert_eq!(cli().validate(false, true), Err(ConfigError::MissingManifest));
    assert_eq!(cli().validate(false, false), Err(ConfigError::MissingManifest));
    assert_eq!(cli().validate(true, false), Err(ConfigError::MissingFile));
    assert_eq!(ConfigError::MissingManifest.message(), "No Cargo.toml found in --repo");
    assert_eq!(ConfigError::MissingFile.message(), "--file does not exist");
}

#[test]
fn kind_names() {
    assert_eq!(RefactorKind::ExtractMethod.name(), "ExtractMethod");
    assert_eq!(RefactorKind::InlineMethod.name(), "InlineMethod");
    assert_eq!(RefactorKind::MoveMethod.name(), "MoveMethod");
    assert_eq!(RefactorKind::RenameMethod.name(), "RenameMethod");
}

#[test]
fn slug_replaces_separators() {
    assert_eq!(slug_of("2024-05-06T07:08:09.5+02:00"), "2024_05_06T07*08*09.5*02*00");
    assert_eq!(slug_of(""), "");
}

#[test]
fn slug_of_moment() {
    let t = time::OffsetDateTime::from_unix_timestamp(1_700_000_000).expect("in range");
    assert_eq!(slug_at(t), Some("2023_11_14T22*13*20Z".to_string()));
    let s = slug_at(time::OffsetDateTime::now_utc()).expect("the clock is in range");
    assert!(!s.is_empty());
    assert!(!s.contains(':') && !s.contains('+') && !s.contains('-'));
}

#[test]
fn temp_path_layout() {
    assert_eq!(temp_rs_path("2024_01_01T00*00*00Z", "main.rs"), "/tmp/2024_01_01T00*00*00Z_main.rs");
}

#[test]
fn command_output_texts() {
    let o = CmdOutput { status: 0, stdout: "out".to_string(), stderr: "err".to_string() };
    assert!(o.succeeded());
    assert_eq!(o.log_text(), "out\nerr");
    assert_eq!(o.analysis_text(), "STDOUT:\nout\nSTDERR:\nerr");
    assert_eq!(o.outcome(), (true, "out\nerr".to_string()));
    let f = CmdOutput { status: -1, stdout: String::new(), stderr: String::new() };
    assert!(!f.succeeded());
    assert_eq!(f.outcome(), (false, "\n".to_string()));
}

#[test]
fn confirmation_answers() {
    assert!(confirms("y\n"));
    assert!(confirms("  YES \n"));
    assert!(confirms("Yes"));
    assert!(!confirms("no\n"));
    assert!(!confirms(""));
    assert!(!confirms("yess"));
}
